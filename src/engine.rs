use vstd::prelude::*;
use crate::machine::{
    Chip8Error, Config, Machine, MachineModel, exec_spec, DISPLAY_SIZE, FONT_START, MEMORY_SIZE,
    NUM_REGS, PROGRAM_START,
};
use crate::opcode::{DecodedInstruction, Opcode, Quirks, decode, decode_spec};

verus! {

/// Units of tick budget per second: a budget is a number of milliseconds.
pub const TICKS_PER_SECOND: u64 = 1000;
/// Rate of the delay and sound timers on real hardware.
pub const TIMER_HZ: u32 = 60;
/// Default instruction rate.
pub const DEFAULT_CPU_HZ: u32 = 700;
/// Default call-stack depth.
pub const DEFAULT_STACK_DEPTH: usize = 16;
/// Bytes in the built-in font: sixteen glyphs of five rows.
pub const FONT_SIZE: usize = 80;

/// Services the engine needs from its host: random bytes and a tone that can
/// be switched on and off.
pub trait PlatformAdapter {
    fn play_sound(&mut self);

    fn pause_sound(&mut self);

    fn get_random_val(&self) -> u8;
}

/// The glyphs `0`..`F`, five rows of four pixels each.
pub open spec fn font_spec() -> Seq<u8> {
    seq![
        0xF0u8, 0x90, 0x90, 0x90, 0xF0, 0x20, 0x60, 0x20, 0x20, 0x70,
        0xF0, 0x10, 0xF0, 0x80, 0xF0, 0xF0, 0x10, 0xF0, 0x10, 0xF0,
        0x90, 0x90, 0xF0, 0x10, 0x10, 0xF0, 0x80, 0xF0, 0x10, 0xF0,
        0xF0, 0x80, 0xF0, 0x90, 0xF0, 0xF0, 0x10, 0x20, 0x40, 0x40,
        0xF0, 0x90, 0xF0, 0x90, 0xF0, 0xF0, 0x90, 0xF0, 0x10, 0xF0,
        0xF0, 0x90, 0xF0, 0x90, 0x90, 0xE0, 0x90, 0xE0, 0x90, 0xE0,
        0xF0, 0x80, 0x80, 0x80, 0xF0, 0xE0, 0x90, 0x90, 0x90, 0xE0,
        0xF0, 0x80, 0xF0, 0x80, 0xF0, 0xF0, 0x80, 0xF0, 0x80, 0x80
    ]
}

fn font() -> (r: Vec<u8>)
    ensures
        r@ == font_spec(),
{
    let r: Vec<u8> = vec![
        0xF0u8, 0x90, 0x90, 0x90, 0xF0, 0x20, 0x60, 0x20, 0x20, 0x70,
        0xF0, 0x10, 0xF0, 0x80, 0xF0, 0xF0, 0x10, 0xF0, 0x10, 0xF0,
        0x90, 0x90, 0xF0, 0x10, 0x10, 0xF0, 0x80, 0xF0, 0x10, 0xF0,
        0xF0, 0x80, 0xF0, 0x90, 0xF0, 0xF0, 0x10, 0x20, 0x40, 0x40,
        0xF0, 0x90, 0xF0, 0x90, 0xF0, 0xF0, 0x90, 0xF0, 0x10, 0xF0,
        0xF0, 0x90, 0xF0, 0x90, 0x90, 0xE0, 0x90, 0xE0, 0x90, 0xE0,
        0xF0, 0x80, 0x80, 0x80, 0xF0, 0xE0, 0x90, 0x90, 0x90, 0xE0,
        0xF0, 0x80, 0xF0, 0x80, 0xF0, 0xF0, 0x80, 0xF0, 0x80, 0x80
    ];
    assert(r@ =~= font_spec());
    r
}

/// Memory right after loading `rom`: zeros, with the font at `FONT_START` and
/// the program at `PROGRAM_START`.
pub open spec fn loaded_memory(rom: Seq<u8>) -> Seq<u8> {
    Seq::new(MEMORY_SIZE as nat, |a: int|
        if FONT_START <= a < FONT_START + FONT_SIZE {
            font_spec()[a - FONT_START]
        } else if PROGRAM_START <= a < PROGRAM_START + rom.len() {
            rom[a - PROGRAM_START]
        } else {
            0u8
        })
}

/// A freshly constructed machine holding `rom`.
pub open spec fn initial_model(rom: Seq<u8>) -> MachineModel {
    MachineModel {
        memory: loaded_memory(rom),
        v: Seq::new(NUM_REGS as nat, |k: int| 0u8),
        i: 0,
        pc: PROGRAM_START as u16,
        stack: Seq::empty(),
        delay: 0,
        sound: 0,
        display: Seq::new(DISPLAY_SIZE as nat, |p: int| false),
        keys: Seq::new(NUM_REGS as nat, |k: int| false),
        last_key: None,
        awaiting_key: None,
    }
}

/// Largest program that fits in memory.
pub open spec fn max_program_len() -> int {
    MEMORY_SIZE - PROGRAM_START
}

fn filled<T: Copy>(len: usize, val: T) -> (r: Vec<T>)
    ensures
        r@ == Seq::new(len as nat, |k: int| val),
{
    let mut r: Vec<T> = Vec::new();
    while r.len() < len
        invariant
            r.len() <= len,
            forall|k: int| 0 <= k < r.len() ==> r@[k] == val,
        decreases len - r.len(),
    {
        r.push(val);
    }
    assert(r@ =~= Seq::new(len as nat, |k: int| val));
    r
}

impl Machine {
    /// A machine with the font and `rom` in memory, or `ProgramTooLarge` when
    /// `rom` does not fit after the entry offset.
    pub fn load(rom: &[u8]) -> (r: Result<Machine, Chip8Error>)
        ensures
            r is Ok <==> rom@.len() <= max_program_len(),
            r matches Ok(m) ==> m@ == initial_model(rom@),
            r matches Err(e) ==> e == Chip8Error::ProgramTooLarge,
    {
        if rom.len() > MEMORY_SIZE - PROGRAM_START {
            return Err(Chip8Error::ProgramTooLarge);
        }
        let mut memory = filled(MEMORY_SIZE, 0u8);
        let f = font();
        let mut k: usize = 0;
        while k < FONT_SIZE
            invariant
                k <= FONT_SIZE,
                f@ == font_spec(),
                memory@.len() == MEMORY_SIZE,
                forall|a: int| 0 <= a < MEMORY_SIZE ==> memory@[a] ==
                    if FONT_START <= a < FONT_START + k { font_spec()[a - FONT_START] } else { 0u8 },
            decreases FONT_SIZE - k,
        {
            memory.set(FONT_START + k, f[k]);
            k += 1;
        }
        let mut k: usize = 0;
        while k < rom.len()
            invariant
                k <= rom.len(),
                rom.len() <= MEMORY_SIZE - PROGRAM_START,
                memory@.len() == MEMORY_SIZE,
                forall|a: int| 0 <= a < MEMORY_SIZE ==> memory@[a] ==
                    if FONT_START <= a < FONT_START + FONT_SIZE {
                        font_spec()[a - FONT_START]
                    } else if PROGRAM_START <= a < PROGRAM_START + k {
                        rom@[a - PROGRAM_START]
                    } else {
                        0u8
                    },
            decreases rom.len() - k,
        {
            memory.set(PROGRAM_START + k, rom[k]);
            k += 1;
        }
        assert(memory@ =~= loaded_memory(rom@));
        let m = Machine {
            memory,
            v_regs: filled(NUM_REGS, 0u8),
            i_reg: 0,
            pc: PROGRAM_START as u16,
            stack: Vec::new(),
            delay_timer: 0,
            sound_timer: 0,
            display: filled(DISPLAY_SIZE, false),
            keys: filled(NUM_REGS, false),
            last_key: None,
            awaiting_key: None,
        };
        assert(m@.stack =~= Seq::<u16>::empty());
        Ok(m)
    }
}

impl Config {
    /// The given quirks, the default instruction rate and stack depth, 60 Hz
    /// timers, and unknown opcodes treated as errors.
    pub open spec fn with_quirks_spec(quirks: Quirks) -> Config {
        Config {
            quirks,
            cpu_hz: DEFAULT_CPU_HZ,
            timer_hz: TIMER_HZ,
            stack_depth: DEFAULT_STACK_DEPTH,
            fail_on_unknown: true,
        }
    }

    pub fn with_quirks(quirks: Quirks) -> (r: Config)
        ensures
            r == Self::with_quirks_spec(quirks),
    {
        Config {
            quirks,
            cpu_hz: DEFAULT_CPU_HZ,
            timer_hz: TIMER_HZ,
            stack_depth: DEFAULT_STACK_DEPTH,
            fail_on_unknown: true,
        }
    }
}

/// The big-endian instruction word at `pc`.
pub open spec fn word_at(mem: Seq<u8>, pc: u16) -> u16 {
    (mem[pc as int] * 256 + mem[pc + 1]) as u16
}

/// The machine after an answered key wait hands the key to its register.
pub open spec fn resolve_wait(m: MachineModel) -> MachineModel {
    match (m.awaiting_key, m.last_key) {
        (Some(x), Some(k)) => MachineModel { awaiting_key: None, ..m.set_v(x, k) },
        _ => m,
    }
}

/// One instruction cycle: answer a pending key wait, then fetch, decode and
/// execute. A failure comes with the machine as the failing cycle left it.
#[verifier::opaque]
pub open spec fn cycle_spec(m: MachineModel, c: Config, rnd: u8) -> Result<MachineModel, (Chip8Error, MachineModel)> {
    let m1 = resolve_wait(m);
    if m1.pc as int + 1 >= MEMORY_SIZE {
        Err((Chip8Error::MemoryOutOfBounds, m1))
    } else {
        let w = word_at(m1.memory, m1.pc);
        match exec_spec(m1, c, decode_spec(w, c.quirks), w, rnd) {
            Ok(m2) => Ok(m2),
            Err(e) => Err((e, m1)),
        }
    }
}

/// The outcome of running one cycle for each byte of `rs`, in order, with that
/// byte as the cycle's random byte; stops at the first failure.
pub open spec fn trace(m: MachineModel, c: Config, rs: Seq<u8>) -> Result<MachineModel, (Chip8Error, MachineModel)>
    decreases rs.len(),
{
    if rs.len() == 0 {
        Ok(m)
    } else {
        match trace(m, c, rs.drop_last()) {
            Ok(m1) => cycle_spec(m1, c, rs.last()),
            Err(p) => Err(p),
        }
    }
}

/// A run of at most `n` cycles from `start`, with random bytes `rs`, that returned
/// `r` and left the machine as `fin`: every cycle but the last began unblocked and
/// succeeded; the run stops early only on a failure or on a key wait.
pub open spec fn run_outcome(
    start: MachineModel,
    c: Config,
    n: int,
    rs: Seq<u8>,
    r: Result<(), Chip8Error>,
    fin: MachineModel,
) -> bool {
    &&& rs.len() <= n
    &&& forall|j: int| 0 <= j < rs.len() ==> (#[trigger] trace(start, c, rs.take(j)) matches Ok(mj) && !mj.blocked())
    &&& match r {
        Ok(_) => trace(start, c, rs) == Ok::<MachineModel, (Chip8Error, MachineModel)>(fin)
            && (rs.len() == n || fin.blocked()),
        Err(e) => trace(start, c, rs) == Err::<MachineModel, (Chip8Error, MachineModel)>((e, fin)),
    }
}

/// Counters after `t` timer ticks: each decremented by `t`, not below zero.
pub open spec fn apply_timers(m: MachineModel, t: int) -> MachineModel {
    MachineModel {
        delay: if m.delay > t { (m.delay - t) as u8 } else { 0 },
        sound: if m.sound > t { (m.sound - t) as u8 } else { 0 },
        ..m
    }
}

/// Whole periods of a clock of `hz` in `acc` carried-over units plus `budget`
/// milliseconds, where one unit is a thousandth of a period.
pub open spec fn periods_due(acc: u64, budget: u64, hz: u32) -> int {
    (acc + budget * hz) / (TICKS_PER_SECOND as int)
}

/// What is carried over to the next budget after `periods_due`.
pub open spec fn carry(acc: u64, budget: u64, hz: u32) -> int {
    (acc + budget * hz) % (TICKS_PER_SECOND as int)
}

/// The instruction an engine reports before it has executed any.
pub open spec fn initial_instr() -> DecodedInstruction {
    DecodedInstruction { instr: 0, opcode: Opcode::Unknown }
}

/// The instruction a cycle from `m` fetches and decodes, once a pending key
/// wait is answered.
#[verifier::opaque]
pub open spec fn fetched(m: MachineModel, c: Config) -> DecodedInstruction {
    let m1 = resolve_wait(m);
    let w = word_at(m1.memory, m1.pc);
    DecodedInstruction { instr: w, opcode: decode_spec(w, c.quirks) }
}

/// The instruction executed last by the cycles of `trace(m, c, rs)`, or `prev`
/// when none of them executed one.
pub open spec fn last_executed(m: MachineModel, c: Config, rs: Seq<u8>, prev: DecodedInstruction) -> DecodedInstruction
    decreases rs.len(),
{
    if rs.len() == 0 {
        prev
    } else {
        match trace(m, c, rs.drop_last()) {
            Ok(m1) => match cycle_spec(m1, c, rs.last()) {
                Ok(_) => fetched(m1, c),
                Err(_) => last_executed(m, c, rs.drop_last(), prev),
            },
            Err(_) => last_executed(m, c, rs.drop_last(), prev),
        }
    }
}

/// A CHIP-8 engine: a machine, its settings and its host services.
pub struct Chip8Interpreter<P> {
    pub machine: Machine,
    pub config: Config,
    pub platform: P,
    /// Part of a period carried between budgets, for the instruction clock.
    pub cycle_acc: u64,
    /// Part of a period carried between budgets, for the timer clock.
    pub timer_acc: u64,
    /// The instruction executed last.
    pub last_instr: DecodedInstruction,
    /// Whether the platform was last told to play the tone (rather than to
    /// pause it); kept equal to "the sound timer is nonzero".
    pub sound_on: bool,
}

impl<P: PlatformAdapter> Chip8Interpreter<P> {
    pub open spec fn wf(&self) -> bool {
        &&& self.machine@.wf(self.config)
        &&& self.cycle_acc < TICKS_PER_SECOND
        &&& self.timer_acc < TICKS_PER_SECOND
        &&& self.sound_on == (self.machine.sound_timer != 0)
    }

    /// An engine with `rom` loaded under `config`; fails with `ProgramTooLarge`
    /// exactly when `rom` does not fit.
    pub fn with_config(platform: P, rom: &[u8], config: Config) -> (r: Result<Self, Chip8Error>)
        ensures
            r is Ok <==> rom@.len() <= max_program_len(),
            r matches Ok(e) ==> e.wf() && e.machine@ == initial_model(rom@) && e.config == config
                && e.cycle_acc == 0 && e.timer_acc == 0 && e.last_instr == initial_instr() && !e.sound_on,
            r matches Err(e) ==> e == Chip8Error::ProgramTooLarge,
    {
        match Machine::load(rom) {
            Ok(machine) => Ok(Chip8Interpreter {
                machine,
                config,
                platform,
                cycle_acc: 0,
                timer_acc: 0,
                last_instr: DecodedInstruction { instr: 0, opcode: Opcode::Unknown },
                sound_on: false,
            }),
            Err(e) => Err(e),
        }
    }

    /// An engine with `rom` loaded under COSMAC quirks and the default settings.
    pub fn new(platform: P, rom: Vec<u8>) -> (r: Result<Self, Chip8Error>)
        ensures
            r is Ok <==> rom@.len() <= max_program_len(),
            r matches Ok(e) ==> e.wf() && e.machine@ == initial_model(rom@)
                && e.config == Config::with_quirks_spec(Quirks::cosmac_spec())
                && e.cycle_acc == 0 && e.timer_acc == 0 && e.last_instr == initial_instr() && !e.sound_on,
            r matches Err(e) ==> e == Chip8Error::ProgramTooLarge,
    {
        Self::with_config(platform, rom.as_slice(), Config::with_quirks(Quirks::cosmac()))
    }

    /// Runs one instruction cycle; the second result is the random byte it used.
    fn cycle(&mut self) -> (r: (Result<(), Chip8Error>, Ghost<u8>))
        requires
            old(self).wf(),
            !old(self).machine@.blocked(),
        ensures
            final(self).wf(),
            final(self).config == old(self).config,
            final(self).cycle_acc == old(self).cycle_acc,
            final(self).timer_acc == old(self).timer_acc,
            r.0 is Ok ==> cycle_spec(old(self).machine@, old(self).config, r.1@)
                == Ok::<MachineModel, (Chip8Error, MachineModel)>(final(self).machine@),
            r.0 matches Err(e) ==> cycle_spec(old(self).machine@, old(self).config, r.1@)
                == Err::<MachineModel, (Chip8Error, MachineModel)>((e, final(self).machine@)),
            r.0 is Ok ==> final(self).last_instr == fetched(old(self).machine@, old(self).config),
            r.0 is Err ==> final(self).last_instr == old(self).last_instr,
    {
        let c = self.config;
        match (self.machine.awaiting_key, self.machine.last_key) {
            (Some(x), Some(k)) => {
                self.machine.set_reg(x, k);
                self.machine.awaiting_key = None;
            },
            _ => {},
        }
        proof {
            reveal(cycle_spec);
            reveal(fetched);
        }
        assert(self.machine@ == resolve_wait(old(self).machine@));
        let pc = self.machine.pc as usize;
        if pc + 1 >= MEMORY_SIZE {
            return (Err(Chip8Error::MemoryOutOfBounds), Ghost(0));
        }
        let w: u16 = self.machine.memory[pc] as u16 * 256 + self.machine.memory[pc + 1] as u16;
        let d = decode(w, c.quirks);
        let rnd: u8 = match d.opcode {
            Opcode::Rnd { .. } => self.platform.get_random_val(),
            _ => 0,
        };
        let res = self.machine.execute(c, d.opcode, w, rnd);
        if res.is_ok() {
            self.last_instr = d;
            self.sync_sound();
        }
        (res, Ghost(rnd))
    }

    /// Starts the tone when the sound timer has become nonzero and pauses it
    /// when the timer has reached zero; the only place the platform hears of it.
    fn sync_sound(&mut self)
        requires
            old(self).machine@.wf(old(self).config),
            old(self).cycle_acc < TICKS_PER_SECOND,
            old(self).timer_acc < TICKS_PER_SECOND,
        ensures
            final(self).wf(),
            final(self).machine == old(self).machine,
            final(self).config == old(self).config,
            final(self).cycle_acc == old(self).cycle_acc,
            final(self).timer_acc == old(self).timer_acc,
            final(self).last_instr == old(self).last_instr,
            final(self).sound_on == (old(self).machine.sound_timer != 0),
    {
        let running = self.machine.sound_timer != 0;
        if running && !self.sound_on {
            self.platform.play_sound();
            self.sound_on = true;
        } else if !running && self.sound_on {
            self.platform.pause_sound();
            self.sound_on = false;
        }
    }

    /// Applies `t` timer ticks, pausing the tone when the sound timer runs out.
    fn tick_timers(&mut self, t: u128)
        requires
            old(self).wf(),
        ensures
            final(self).wf(),
            final(self).config == old(self).config,
            final(self).cycle_acc == old(self).cycle_acc,
            final(self).timer_acc == old(self).timer_acc,
            final(self).machine@ == apply_timers(old(self).machine@, t as int),
            final(self).last_instr == old(self).last_instr,
    {
        let d = self.machine.delay_timer;
        self.machine.delay_timer = if d as u128 > t { (d as u128 - t) as u8 } else { 0 };
        let s = self.machine.sound_timer;
        self.machine.sound_timer = if s as u128 > t { (s as u128 - t) as u8 } else { 0 };
        self.sync_sound();
    }

    /// Runs the engine for `budget` milliseconds: first the timer ticks due at
    /// `timer_hz`, then the instruction cycles due at `cpu_hz`. The two counts
    /// are computed independently, each carrying its remainder to the next call.
    /// Stops early, without error, when the machine blocks on a key wait, and at
    /// the first failure, which it returns.
    pub fn step(&mut self, budget: u64) -> (r: Result<(), Chip8Error>)
        requires
            old(self).wf(),
        ensures
            final(self).wf(),
            final(self).config == old(self).config,
            final(self).cycle_acc == carry(old(self).cycle_acc, budget, old(self).config.cpu_hz),
            final(self).timer_acc == carry(old(self).timer_acc, budget, old(self).config.timer_hz),
            exists|rs: Seq<u8>| #[trigger] run_outcome(
                apply_timers(old(self).machine@, periods_due(old(self).timer_acc, budget, old(self).config.timer_hz)),
                old(self).config,
                periods_due(old(self).cycle_acc, budget, old(self).config.cpu_hz),
                rs,
                r,
                final(self).machine@,
            ) && final(self).last_instr == last_executed(
                apply_timers(old(self).machine@, periods_due(old(self).timer_acc, budget, old(self).config.timer_hz)),
                old(self).config,
                rs,
                old(self).last_instr,
            ),
    {
        let c = self.config;
        let tps = TICKS_PER_SECOND as u128;
        proof {
            assert(budget as int * c.timer_hz as int <= 0xFFFF_FFFF_FFFF_FFFFu64 as int * 0xFFFF_FFFFu32 as int)
                by (nonlinear_arith);
            assert(budget as int * c.cpu_hz as int <= 0xFFFF_FFFF_FFFF_FFFFu64 as int * 0xFFFF_FFFFu32 as int)
                by (nonlinear_arith);
        }
        let timer_total: u128 = self.timer_acc as u128 + budget as u128 * c.timer_hz as u128;
        let cycle_total: u128 = self.cycle_acc as u128 + budget as u128 * c.cpu_hz as u128;
        let ticks: u128 = timer_total / tps;
        let n: u128 = cycle_total / tps;
        self.tick_timers(ticks);
        self.timer_acc = (timer_total % tps) as u64;
        self.cycle_acc = (cycle_total % tps) as u64;
        let ghost start = self.machine@;
        let ghost mut rs: Seq<u8> = Seq::empty();
        let mut k: u128 = 0;
        while k < n
            invariant
                self.wf(),
                self.config == c,
                c == old(self).config,
                self.cycle_acc == carry(old(self).cycle_acc, budget, c.cpu_hz),
                self.timer_acc == carry(old(self).timer_acc, budget, c.timer_hz),
                start == apply_timers(old(self).machine@, periods_due(old(self).timer_acc, budget, c.timer_hz)),
                n == periods_due(old(self).cycle_acc, budget, c.cpu_hz),
                k <= n,
                rs.len() == k,
                forall|j: int| 0 <= j < rs.len() ==> (#[trigger] trace(start, c, rs.take(j)) matches Ok(mj) && !mj.blocked()),
                trace(start, c, rs) == Ok::<MachineModel, (Chip8Error, MachineModel)>(self.machine@),
                self.last_instr == last_executed(start, c, rs, old(self).last_instr),
            decreases n - k,
        {
            if self.machine.awaiting_key.is_some() && self.machine.last_key.is_none() {
                assert(run_outcome(start, c, n as int, rs, Ok(()), self.machine@)
                    && self.last_instr == last_executed(start, c, rs, old(self).last_instr));
                return Ok(());
            }
            let (res, Ghost(rnd)) = self.cycle();
            let ghost rs2 = rs.push(rnd);
            proof {
                assert(rs2.drop_last() =~= rs);
                assert forall|j: int| 0 <= j < rs2.len() implies (#[trigger] trace(start, c, rs2.take(j)) matches Ok(mj) && !mj.blocked()) by {
                    if j < rs.len() {
                        assert(rs2.take(j) =~= rs.take(j));
                    } else {
                        assert(rs2.take(j) =~= rs);
                    }
                }
            }
            match res {
                Err(e) => {
                    assert(run_outcome(start, c, n as int, rs2, Err(e), self.machine@)
                        && self.last_instr == last_executed(start, c, rs2, old(self).last_instr));
                    return Err(e);
                },
                Ok(()) => {},
            }
            proof {
                rs = rs2;
            }
            k += 1;
        }
        assert(run_outcome(start, c, n as int, rs, Ok(()), self.machine@)
            && self.last_instr == last_executed(start, c, rs, old(self).last_instr));
        Ok(())
    }

    /// Marks logical key `key` as held and as the most recent press. Keys
    /// outside `0..16` are ignored.
    pub fn press_key(&mut self, key: u8)
        requires
            old(self).wf(),
        ensures
            final(self).wf(),
            final(self).config == old(self).config,
            final(self).cycle_acc == old(self).cycle_acc,
            final(self).timer_acc == old(self).timer_acc,
            final(self).last_instr == old(self).last_instr,
            final(self).sound_on == old(self).sound_on,
            final(self).machine@ == if key < 16 {
                MachineModel {
                    keys: old(self).machine@.keys.update(key as int, true),
                    last_key: Some(key),
                    ..old(self).machine@
                }
            } else {
                old(self).machine@
            },
    {
        if key < 16 {
            self.machine.keys.set(key as usize, true);
            self.machine.last_key = Some(key);
        }
    }

    /// Marks logical key `key` as released; it stops being the most recent
    /// press if it was. Keys outside `0..16` are ignored.
    pub fn release_key(&mut self, key: u8)
        requires
            old(self).wf(),
        ensures
            final(self).wf(),
            final(self).config == old(self).config,
            final(self).cycle_acc == old(self).cycle_acc,
            final(self).timer_acc == old(self).timer_acc,
            final(self).last_instr == old(self).last_instr,
            final(self).sound_on == old(self).sound_on,
            final(self).machine@ == if key < 16 {
                MachineModel {
                    keys: old(self).machine@.keys.update(key as int, false),
                    last_key: if old(self).machine@.last_key == Some(key) { None } else { old(self).machine@.last_key },
                    ..old(self).machine@
                }
            } else {
                old(self).machine@
            },
    {
        if key < 16 {
            self.machine.keys.set(key as usize, false);
            if self.machine.last_key == Some(key) {
                self.machine.last_key = None;
            }
        }
    }
}

} // verus!
