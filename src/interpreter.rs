use vstd::prelude::*;
use crate::engine::{
    Chip8Interpreter, PlatformAdapter, initial_instr, initial_model, last_executed, max_program_len, run_outcome,
    apply_timers, periods_due, carry,
};
use crate::machine::{Chip8Error, Config, Machine, MachineModel, DISPLAY_SIZE, RES_X, RES_Y};
use crate::opcode::Quirks;
use crate::opcode::{DecodedInstruction, decode, decode_spec, mnemonic_spec};

verus! {

/// The logical key that a host keyboard code stands for, on the usual layout of
/// the sixteen-key pad over the left of a QWERTY keyboard.
pub open spec fn key_for_code_spec(code: Seq<char>) -> Option<u8> {
    if code == "Digit1"@ {
        Some(1u8)
    } else if code == "Digit2"@ {
        Some(2u8)
    } else if code == "Digit3"@ {
        Some(3u8)
    } else if code == "Digit4"@ {
        Some(12u8)
    } else if code == "KeyQ"@ {
        Some(4u8)
    } else if code == "KeyW"@ {
        Some(5u8)
    } else if code == "KeyE"@ {
        Some(6u8)
    } else if code == "KeyR"@ {
        Some(13u8)
    } else if code == "KeyA"@ {
        Some(7u8)
    } else if code == "KeyS"@ {
        Some(8u8)
    } else if code == "KeyD"@ {
        Some(9u8)
    } else if code == "KeyF"@ {
        Some(14u8)
    } else if code == "KeyZ"@ {
        Some(10u8)
    } else if code == "KeyX"@ {
        Some(0u8)
    } else if code == "KeyC"@ {
        Some(11u8)
    } else if code == "KeyV"@ {
        Some(15u8)
    } else {
        None
    }
}

fn is_code(code: &String, name: &str) -> (r: bool)
    ensures
        r == (code@ == name@),
{
    let n = name.to_owned();
    code.eq(&n)
}

/// The logical key that host keyboard code `code` stands for, if any.
pub fn key_for_code(code: &String) -> (r: Option<u8>)
    ensures
        r == key_for_code_spec(code@),
{
    if is_code(code, "Digit1") {
        Some(1u8)
    } else if is_code(code, "Digit2") {
        Some(2u8)
    } else if is_code(code, "Digit3") {
        Some(3u8)
    } else if is_code(code, "Digit4") {
        Some(12u8)
    } else if is_code(code, "KeyQ") {
        Some(4u8)
    } else if is_code(code, "KeyW") {
        Some(5u8)
    } else if is_code(code, "KeyE") {
        Some(6u8)
    } else if is_code(code, "KeyR") {
        Some(13u8)
    } else if is_code(code, "KeyA") {
        Some(7u8)
    } else if is_code(code, "KeyS") {
        Some(8u8)
    } else if is_code(code, "KeyD") {
        Some(9u8)
    } else if is_code(code, "KeyF") {
        Some(14u8)
    } else if is_code(code, "KeyZ") {
        Some(10u8)
    } else if is_code(code, "KeyX") {
        Some(0u8)
    } else if is_code(code, "KeyC") {
        Some(11u8)
    } else if is_code(code, "KeyV") {
        Some(15u8)
    } else {
        None
    }
}

fn copied<T: Copy>(v: &Vec<T>) -> (r: Vec<T>)
    ensures
        r@ == v@,
{
    let mut r: Vec<T> = Vec::new();
    let mut k: usize = 0;
    while k < v.len()
        invariant
            k <= v.len(),
            r@ == v@.take(k as int),
        decreases v.len() - k,
    {
        r.push(v[k]);
        k += 1;
        assert(r@ =~= v@.take(k as int));
    }
    assert(r@ =~= v@);
    r
}

/// A read-only snapshot of an engine for inspection tools.
pub struct StateDump {
    pub v: Vec<u8>,
    pub i: u16,
    pub pc: u16,
    pub dt: u8,
    pub st: u8,
    pub stack: Vec<u16>,
    pub memory: Vec<u8>,
    pub opcode: u16,
    pub mnemonic: String,
    pub step_number: u64,
}

/// An engine driven frame by frame by a host, counting the steps it ran.
pub struct Interpreter<P> {
    pub interpreter: Chip8Interpreter<P>,
    pub step_number: u64,
    pub last_instr: DecodedInstruction,
}

impl<P: PlatformAdapter> Interpreter<P> {
    pub open spec fn wf(&self) -> bool {
        self.interpreter.wf()
    }

    /// An engine over `platform` with `rom_data` loaded and the default settings;
    /// fails with `ProgramTooLarge` exactly when the program does not fit.
    pub fn new(platform: P, rom_data: &[u8]) -> (r: Result<Self, Chip8Error>)
        ensures
            r is Ok <==> rom_data@.len() <= max_program_len(),
            r matches Ok(s) ==> s.wf() && s.interpreter.machine@ == initial_model(rom_data@)
                && s.interpreter.config == Config::with_quirks_spec(Quirks::cosmac_spec())
                && s.interpreter.cycle_acc == 0 && s.interpreter.timer_acc == 0
                && s.interpreter.last_instr == initial_instr() && s.last_instr == initial_instr()
                && s.step_number == 0,
            r matches Err(e) ==> e == Chip8Error::ProgramTooLarge,
    {
        let mut rom: Vec<u8> = Vec::new();
        rom.extend_from_slice(rom_data);
        assert(rom@ =~= rom_data@);
        match Chip8Interpreter::new(platform, rom) {
            Ok(interpreter) => {
                let last_instr = interpreter.last_instr;
                Ok(Interpreter { interpreter, step_number: 0, last_instr })
            },
            Err(e) => Err(e),
        }
    }

    /// Runs the engine for `tick_rate` milliseconds (see `Chip8Interpreter::step`),
    /// then records the instruction executed last and counts the step. A failure
    /// is returned and leaves the count as it was.
    pub fn step(&mut self, tick_rate: u64) -> (r: Result<(), Chip8Error>)
        requires
            old(self).wf(),
        ensures
            final(self).wf(),
            final(self).interpreter.config == old(self).interpreter.config,
            final(self).interpreter.cycle_acc == carry(old(self).interpreter.cycle_acc, tick_rate, old(self).interpreter.config.cpu_hz),
            final(self).interpreter.timer_acc == carry(old(self).interpreter.timer_acc, tick_rate, old(self).interpreter.config.timer_hz),
            exists|rs: Seq<u8>| #[trigger] run_outcome(
                apply_timers(old(self).interpreter.machine@,
                    periods_due(old(self).interpreter.timer_acc, tick_rate, old(self).interpreter.config.timer_hz)),
                old(self).interpreter.config,
                periods_due(old(self).interpreter.cycle_acc, tick_rate, old(self).interpreter.config.cpu_hz),
                rs,
                r,
                final(self).interpreter.machine@,
            ) && final(self).interpreter.last_instr == last_executed(
                apply_timers(old(self).interpreter.machine@,
                    periods_due(old(self).interpreter.timer_acc, tick_rate, old(self).interpreter.config.timer_hz)),
                old(self).interpreter.config,
                rs,
                old(self).interpreter.last_instr,
            ),
            r is Ok ==> final(self).last_instr == final(self).interpreter.last_instr,
            r is Ok ==> final(self).step_number == if old(self).step_number < u64::MAX {
                old(self).step_number + 1
            } else {
                old(self).step_number as int
            },
            r is Err ==> final(self).step_number == old(self).step_number,
            r is Err ==> final(self).last_instr == old(self).last_instr,
    {
        let r = self.interpreter.step(tick_rate);
        if r.is_ok() {
            self.last_instr = self.interpreter.last_instr;
            if self.step_number < u64::MAX {
                self.step_number = self.step_number + 1;
            }
        }
        r
    }

    /// Writes the display into `buffer`, row by row, one byte per pixel (1 for
    /// set, 0 for unset); bytes past the display are left as they were.
    pub fn fill_display_buffer(&self, buffer: &mut Vec<u8>)
        requires
            self.wf(),
            old(buffer)@.len() >= DISPLAY_SIZE,
        ensures
            final(buffer)@.len() == old(buffer)@.len(),
            forall|p: int| 0 <= p < DISPLAY_SIZE ==> final(buffer)@[p]
                == if self.interpreter.machine@.display[p] { 1u8 } else { 0u8 },
            forall|p: int| DISPLAY_SIZE <= p < old(buffer)@.len() ==> final(buffer)@[p] == old(buffer)@[p],
    {
        let mut idx: usize = 0;
        while idx < DISPLAY_SIZE
            invariant
                idx <= DISPLAY_SIZE,
                self.interpreter.machine.display@.len() == DISPLAY_SIZE,
                buffer@.len() == old(buffer)@.len(),
                old(buffer)@.len() >= DISPLAY_SIZE,
                forall|p: int| 0 <= p < idx ==> buffer@[p]
                    == if self.interpreter.machine@.display[p] { 1u8 } else { 0u8 },
                forall|p: int| idx <= p < old(buffer)@.len() ==> buffer@[p] == old(buffer)@[p],
            decreases DISPLAY_SIZE - idx,
        {
            let pixel: u8 = if self.interpreter.machine.display[idx] { 1 } else { 0 };
            buffer.set(idx, pixel);
            idx += 1;
        }
    }

    /// Display width in pixels.
    pub fn get_x_res() -> (r: usize)
        ensures
            r == RES_X,
    {
        RES_X
    }

    /// Display height in pixels.
    pub fn get_y_res() -> (r: usize)
        ensures
            r == RES_Y,
    {
        RES_Y
    }

    /// Presses the logical key for host code `code`. A code that stands for no
    /// key leaves no key tracked as the most recent press.
    pub fn register_key_down(&mut self, code: String)
        requires
            old(self).wf(),
        ensures
            final(self).wf(),
            final(self).step_number == old(self).step_number,
            final(self).interpreter.config == old(self).interpreter.config,
            final(self).interpreter.cycle_acc == old(self).interpreter.cycle_acc,
            final(self).interpreter.timer_acc == old(self).interpreter.timer_acc,
            final(self).interpreter.last_instr == old(self).interpreter.last_instr,
            final(self).interpreter.sound_on == old(self).interpreter.sound_on,
            final(self).last_instr == old(self).last_instr,
            final(self).interpreter.machine@ == match key_for_code_spec(code@) {
                Some(k) => MachineModel {
                    keys: old(self).interpreter.machine@.keys.update(k as int, true),
                    last_key: Some(k),
                    ..old(self).interpreter.machine@
                },
                None => MachineModel { last_key: None, ..old(self).interpreter.machine@ },
            },
    {
        match key_for_code(&code) {
            Some(k) => self.interpreter.press_key(k),
            None => {
                self.interpreter.machine.last_key = None;
            },
        }
    }

    /// Releases the logical key for host code `code`; codes that stand for no
    /// key change nothing.
    pub fn register_key_up(&mut self, code: String)
        requires
            old(self).wf(),
        ensures
            final(self).wf(),
            final(self).step_number == old(self).step_number,
            final(self).interpreter.config == old(self).interpreter.config,
            final(self).interpreter.cycle_acc == old(self).interpreter.cycle_acc,
            final(self).interpreter.timer_acc == old(self).interpreter.timer_acc,
            final(self).interpreter.last_instr == old(self).interpreter.last_instr,
            final(self).interpreter.sound_on == old(self).interpreter.sound_on,
            final(self).last_instr == old(self).last_instr,
            final(self).interpreter.machine@ == match key_for_code_spec(code@) {
                Some(k) => MachineModel {
                    keys: old(self).interpreter.machine@.keys.update(k as int, false),
                    last_key: if old(self).interpreter.machine@.last_key == Some(k) {
                        None
                    } else {
                        old(self).interpreter.machine@.last_key
                    },
                    ..old(self).interpreter.machine@
                },
                None => old(self).interpreter.machine@,
            },
    {
        match key_for_code(&code) {
            Some(k) => self.interpreter.release_key(k),
            None => {},
        }
    }

    /// The mnemonic of `instr` under this engine's quirks; changes nothing.
    pub fn decode_instruction(&self, instr: u16) -> (r: String)
        ensures
            r@ == mnemonic_spec(decode_spec(instr, self.interpreter.config.quirks)),
    {
        decode(instr, self.interpreter.config.quirks).opcode.mnemonic().to_owned()
    }

    /// Registers, timers, stack, memory, the instruction executed last and the
    /// step count.
    pub fn dump_state(&self) -> (r: StateDump)
        ensures
            r.v@ == self.interpreter.machine@.v,
            r.i == self.interpreter.machine@.i,
            r.pc == self.interpreter.machine@.pc,
            r.dt == self.interpreter.machine@.delay,
            r.st == self.interpreter.machine@.sound,
            r.stack@ == self.interpreter.machine@.stack,
            r.memory@ == self.interpreter.machine@.memory,
            r.opcode == self.last_instr.instr,
            r.mnemonic@ == mnemonic_spec(self.last_instr.opcode),
            r.step_number == self.step_number,
    {
        let m: &Machine = &self.interpreter.machine;
        StateDump {
            v: copied(&m.v_regs),
            i: m.i_reg,
            pc: m.pc,
            dt: m.delay_timer,
            st: m.sound_timer,
            stack: copied(&m.stack),
            memory: copied(&m.memory),
            opcode: self.last_instr.instr,
            mnemonic: self.last_instr.opcode.mnemonic().to_owned(),
            step_number: self.step_number,
        }
    }
}

} // verus!
