use vstd::prelude::*;
use crate::opcode::{Opcode, Quirks, opcode_wf};

verus! {

/// Bytes of addressable memory.
pub const MEMORY_SIZE: usize = 4096;
/// Address at which programs are loaded and execution starts.
pub const PROGRAM_START: usize = 0x200;
/// Address of the built-in hexadecimal font.
pub const FONT_START: usize = 0x50;
/// Bytes per font glyph.
pub const FONT_GLYPH_SIZE: usize = 5;
/// Display width in pixels.
pub const RES_X: usize = 64;
/// Display height in pixels.
pub const RES_Y: usize = 32;
/// Pixels on the display.
pub const DISPLAY_SIZE: usize = 2048;
/// Number of general-purpose registers, and of keypad keys.
pub const NUM_REGS: usize = 16;

/// The failures an engine operation reports.
#[derive(Clone, Copy, Debug, PartialEq, Eq, Structural)]
pub enum Chip8Error {
    /// The program does not fit between the entry offset and the end of memory.
    ProgramTooLarge,
    /// A word of no known family was fetched while unknown opcodes are fatal.
    UnknownOpcode { instr: u16 },
    /// A subroutine call with the call stack already at its configured depth.
    StackOverflow,
    /// A return with an empty call stack.
    StackUnderflow,
    /// The program counter, or a memory access relative to `I`, left the memory.
    MemoryOutOfBounds,
}

/// Fixed settings of an engine, chosen at construction.
#[derive(Clone, Copy, Debug, PartialEq, Eq, Structural)]
pub struct Config {
    pub quirks: Quirks,
    /// Instructions executed per second of tick budget.
    pub cpu_hz: u32,
    /// Timer decrements per second of tick budget (60 on real hardware).
    pub timer_hz: u32,
    /// Largest number of return addresses the call stack holds.
    pub stack_depth: usize,
    /// Whether an unknown opcode aborts the step (else it is skipped).
    pub fail_on_unknown: bool,
}

/// The mathematical state of the machine.
pub struct MachineModel {
    pub memory: Seq<u8>,
    pub v: Seq<u8>,
    pub i: u16,
    pub pc: u16,
    pub stack: Seq<u16>,
    pub delay: u8,
    pub sound: u8,
    pub display: Seq<bool>,
    pub keys: Seq<bool>,
    pub last_key: Option<u8>,
    pub awaiting_key: Option<u8>,
}

/// Registers, memory, stack, timers, keypad and display of one CHIP-8 machine.
pub struct Machine {
    pub memory: Vec<u8>,
    pub v_regs: Vec<u8>,
    pub i_reg: u16,
    pub pc: u16,
    pub stack: Vec<u16>,
    pub delay_timer: u8,
    pub sound_timer: u8,
    /// Row-major pixel grid: pixel `(x, y)` is at `y * RES_X + x`.
    pub display: Vec<bool>,
    pub keys: Vec<bool>,
    /// The most recent key pressed since the last key wait began, while it is held.
    pub last_key: Option<u8>,
    /// The register awaiting a key press, while execution is blocked on one.
    pub awaiting_key: Option<u8>,
}

impl View for Machine {
    type V = MachineModel;

    open spec fn view(&self) -> MachineModel {
        MachineModel {
            memory: self.memory@,
            v: self.v_regs@,
            i: self.i_reg,
            pc: self.pc,
            stack: self.stack@,
            delay: self.delay_timer,
            sound: self.sound_timer,
            display: self.display@,
            keys: self.keys@,
            last_key: self.last_key,
            awaiting_key: self.awaiting_key,
        }
    }
}

impl MachineModel {
    /// The fixed sizes of every part, and the stack within its configured depth.
    pub open spec fn wf(self, c: Config) -> bool {
        &&& self.memory.len() == MEMORY_SIZE
        &&& self.v.len() == NUM_REGS
        &&& self.display.len() == DISPLAY_SIZE
        &&& self.keys.len() == NUM_REGS
        &&& self.stack.len() <= c.stack_depth
        &&& (self.last_key matches Some(k) ==> k < 16)
        &&& (self.awaiting_key matches Some(x) ==> x < 16)
    }

    /// Blocked on a key wait that no key press has answered yet.
    pub open spec fn blocked(self) -> bool {
        self.awaiting_key is Some && self.last_key is None
    }

    pub open spec fn set_v(self, x: u8, val: u8) -> MachineModel {
        MachineModel { v: self.v.update(x as int, val), ..self }
    }

    pub open spec fn with_pc(self, pc: int) -> MachineModel {
        MachineModel { pc: pc as u16, ..self }
    }

    /// The machine with the program counter on the next instruction.
    pub open spec fn next(self) -> MachineModel {
        self.with_pc(self.pc + 2)
    }

    /// The machine with the program counter past the next instruction if `cond`.
    pub open spec fn skip_if(self, cond: bool) -> MachineModel {
        if cond {
            self.with_pc(self.pc + 4)
        } else {
            self.next()
        }
    }
}

/// `VX` after an arithmetic or logic opcode, then `VF` set to `flag`.
pub open spec fn with_flag(m: MachineModel, x: u8, val: u8, flag: u8) -> MachineModel {
    m.set_v(x, val).set_v(15, flag)
}

/// `VX` after a bitwise opcode, with `VF` reset under the logic quirk.
pub open spec fn logic_result(m: MachineModel, c: Config, x: u8, val: u8) -> MachineModel {
    if c.quirks.logic_resets_vf {
        m.set_v(x, val).set_v(15, 0)
    } else {
        m.set_v(x, val)
    }
}

/// Whether the sprite of `n` rows at `mem[i..]`, placed at `(vx, vy)`, has a set
/// bit on display pixel `p`. The origin wraps onto the display; the rest of the
/// sprite wraps too when `wrap`, and is clipped at the edges otherwise.
pub open spec fn sprite_pixel(mem: Seq<u8>, i: u16, n: u8, vx: u8, vy: u8, wrap: bool, p: int) -> bool {
    let x = p % 64;
    let y = p / 64;
    let x0 = vx as int % 64;
    let y0 = vy as int % 32;
    let c = if wrap { (x - x0 + 64) % 64 } else { x - x0 };
    let r = if wrap { (y - y0 + 32) % 32 } else { y - y0 };
    &&& 0 <= c < 8
    &&& 0 <= r < n
    &&& (mem[i as int + r] >> ((7 - c) as u8)) & 1u8 == 1u8
}

/// The display after XOR-ing the sprite onto it.
pub open spec fn drawn(d: Seq<bool>, mem: Seq<u8>, i: u16, n: u8, vx: u8, vy: u8, wrap: bool) -> Seq<bool> {
    Seq::new(d.len(), |p: int| d[p] != sprite_pixel(mem, i, n, vx, vy, wrap, p))
}

/// Whether drawing the sprite turns a set pixel off.
pub open spec fn collides(d: Seq<bool>, mem: Seq<u8>, i: u16, n: u8, vx: u8, vy: u8, wrap: bool) -> bool {
    exists|p: int| 0 <= p < d.len() && d[p] && #[trigger] sprite_pixel(mem, i, n, vx, vy, wrap, p)
}

/// The three decimal digits of `b`, hundreds first.
pub open spec fn bcd_digit(b: u8, k: int) -> u8 {
    if k == 0 {
        b / 100
    } else if k == 1 {
        (b / 10) % 10
    } else {
        b % 10
    }
}

/// Effect of executing `op` (fetched as `w` at `m.pc`) on `m`, with `rnd` as the
/// random byte should the opcode need one.
pub open spec fn exec_spec(m: MachineModel, c: Config, op: Opcode, w: u16, rnd: u8) -> Result<MachineModel, Chip8Error> {
    let v = m.v;
    match op {
        Opcode::Cls => Ok(MachineModel { display: Seq::new(DISPLAY_SIZE as nat, |p: int| false), ..m }.next()),
        Opcode::Ret => if m.stack.len() == 0 {
            Err(Chip8Error::StackUnderflow)
        } else {
            Ok(MachineModel { stack: m.stack.drop_last(), ..m }.with_pc(m.stack.last() as int))
        },
        Opcode::Jp { nnn } => Ok(m.with_pc(nnn as int)),
        Opcode::Call { nnn } => if m.stack.len() >= c.stack_depth {
            Err(Chip8Error::StackOverflow)
        } else {
            Ok(MachineModel { stack: m.stack.push((m.pc + 2) as u16), ..m }.with_pc(nnn as int))
        },
        Opcode::SeImm { x, kk } => Ok(m.skip_if(v[x as int] == kk)),
        Opcode::SneImm { x, kk } => Ok(m.skip_if(v[x as int] != kk)),
        Opcode::SeReg { x, y } => Ok(m.skip_if(v[x as int] == v[y as int])),
        Opcode::SneReg { x, y } => Ok(m.skip_if(v[x as int] != v[y as int])),
        Opcode::LdImm { x, kk } => Ok(m.set_v(x, kk).next()),
        Opcode::AddImm { x, kk } => Ok(m.set_v(x, ((v[x as int] + kk) % 256) as u8).next()),
        Opcode::LdReg { x, y } => Ok(m.set_v(x, v[y as int]).next()),
        Opcode::Or { x, y } => Ok(logic_result(m, c, x, v[x as int] | v[y as int]).next()),
        Opcode::And { x, y } => Ok(logic_result(m, c, x, v[x as int] & v[y as int]).next()),
        Opcode::Xor { x, y } => Ok(logic_result(m, c, x, v[x as int] ^ v[y as int]).next()),
        Opcode::AddReg { x, y } => {
            let sum = v[x as int] + v[y as int];
            Ok(with_flag(m, x, (sum % 256) as u8, if sum > 255 { 1 } else { 0 }).next())
        },
        Opcode::Sub { x, y } => Ok(with_flag(
            m,
            x,
            ((v[x as int] - v[y as int] + 256) % 256) as u8,
            if v[x as int] >= v[y as int] { 1 } else { 0 },
        ).next()),
        Opcode::Subn { x, y } => Ok(with_flag(
            m,
            x,
            ((v[y as int] - v[x as int] + 256) % 256) as u8,
            if v[y as int] >= v[x as int] { 1 } else { 0 },
        ).next()),
        Opcode::Shr { x, y } => {
            let src = if c.quirks.shift_uses_vy { v[y as int] } else { v[x as int] };
            Ok(with_flag(m, x, src / 2, src % 2).next())
        },
        Opcode::Shl { x, y } => {
            let src = if c.quirks.shift_uses_vy { v[y as int] } else { v[x as int] };
            Ok(with_flag(m, x, ((src * 2) % 256) as u8, src / 128).next())
        },
        Opcode::LdI { nnn } => Ok(MachineModel { i: nnn, ..m }.next()),
        Opcode::JpOffset { x, nnn } => Ok(m.with_pc(nnn + v[x as int])),
        Opcode::Rnd { x, kk } => Ok(m.set_v(x, rnd & kk).next()),
        Opcode::Drw { x, y, n } => if m.i as int + n as int > MEMORY_SIZE {
            Err(Chip8Error::MemoryOutOfBounds)
        } else {
            let wrap = c.quirks.draw_wraps;
            let (vx, vy) = (v[x as int], v[y as int]);
            let hit = collides(m.display, m.memory, m.i, n, vx, vy, wrap);
            Ok(MachineModel { display: drawn(m.display, m.memory, m.i, n, vx, vy, wrap), ..m }
                .set_v(15, if hit { 1 } else { 0 }).next())
        },
        Opcode::Skp { x } => Ok(m.skip_if(v[x as int] < 16 && m.keys[v[x as int] as int])),
        Opcode::Sknp { x } => Ok(m.skip_if(!(v[x as int] < 16 && m.keys[v[x as int] as int]))),
        Opcode::LdVxDt { x } => Ok(m.set_v(x, m.delay).next()),
        Opcode::LdVxK { x } => Ok(MachineModel { awaiting_key: Some(x), last_key: None, ..m }.next()),
        Opcode::LdDtVx { x } => Ok(MachineModel { delay: v[x as int], ..m }.next()),
        Opcode::LdStVx { x } => Ok(MachineModel { sound: v[x as int], ..m }.next()),
        Opcode::AddI { x } => Ok(MachineModel { i: ((m.i + v[x as int]) % 65536) as u16, ..m }.next()),
        Opcode::LdF { x } => Ok(MachineModel { i: (FONT_START + FONT_GLYPH_SIZE * (v[x as int] % 16)) as u16, ..m }.next()),
        Opcode::Bcd { x } => if m.i as int + 3 > MEMORY_SIZE {
            Err(Chip8Error::MemoryOutOfBounds)
        } else {
            let mem = Seq::new(MEMORY_SIZE as nat, |a: int|
                if m.i <= a < m.i + 3 { bcd_digit(v[x as int], a - m.i) } else { m.memory[a] });
            Ok(MachineModel { memory: mem, ..m }.next())
        },
        Opcode::Store { x } => if m.i as int + x as int + 1 > MEMORY_SIZE {
            Err(Chip8Error::MemoryOutOfBounds)
        } else {
            let mem = Seq::new(MEMORY_SIZE as nat, |a: int|
                if m.i <= a <= m.i + x { v[a - m.i] } else { m.memory[a] });
            let i = if c.quirks.load_store_increments_i { (m.i + x + 1) as u16 } else { m.i };
            Ok(MachineModel { memory: mem, i, ..m }.next())
        },
        Opcode::Load { x } => if m.i as int + x as int + 1 > MEMORY_SIZE {
            Err(Chip8Error::MemoryOutOfBounds)
        } else {
            let regs = Seq::new(NUM_REGS as nat, |k: int|
                if k <= x { m.memory[m.i + k] } else { v[k] });
            let i = if c.quirks.load_store_increments_i { (m.i + x + 1) as u16 } else { m.i };
            Ok(MachineModel { v: regs, i, ..m }.next())
        },
        Opcode::Unknown => if c.fail_on_unknown {
            Err(Chip8Error::UnknownOpcode { instr: w })
        } else {
            Ok(m.next())
        },
    }
}

} // verus!
