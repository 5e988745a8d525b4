use vstd::prelude::*;

verus! {

/// Behavioural variants of a few opcodes that differ between CHIP-8 dialects.
#[derive(Clone, Copy, Debug, PartialEq, Eq, Structural)]
pub struct Quirks {
    /// `8XY6` / `8XYE` shift `VY` (the source) into `VX`; otherwise `VX` is shifted in place.
    pub shift_uses_vy: bool,
    /// `8XY1` / `8XY2` / `8XY3` reset `VF` to zero.
    pub logic_resets_vf: bool,
    /// `FX55` / `FX65` advance `I` by the number of registers transferred.
    pub load_store_increments_i: bool,
    /// `BXNN` jumps to `XNN + VX` rather than `NNN + V0`.
    pub jump_offset_uses_vx: bool,
    /// Sprites wrap around the display edges rather than being clipped.
    pub draw_wraps: bool,
}

impl Quirks {
    /// The behaviour of the first CHIP-8 interpreter, on the COSMAC VIP.
    pub open spec fn cosmac_spec() -> Quirks {
        Quirks {
            shift_uses_vy: true,
            logic_resets_vf: true,
            load_store_increments_i: true,
            jump_offset_uses_vx: false,
            draw_wraps: false,
        }
    }

    pub fn cosmac() -> (r: Quirks)
        ensures
            r == Self::cosmac_spec(),
    {
        Quirks {
            shift_uses_vy: true,
            logic_resets_vf: true,
            load_store_increments_i: true,
            jump_offset_uses_vx: false,
            draw_wraps: false,
        }
    }

    /// The SUPER-CHIP (SCHIP) behaviour.
    pub fn schip() -> (r: Quirks)
        ensures
            !r.shift_uses_vy && !r.logic_resets_vf && !r.load_store_increments_i,
            r.jump_offset_uses_vx && !r.draw_wraps,
    {
        Quirks {
            shift_uses_vy: false,
            logic_resets_vf: false,
            load_store_increments_i: false,
            jump_offset_uses_vx: true,
            draw_wraps: false,
        }
    }
}

/// One CHIP-8 opcode family with its operands.
/// `x` and `y` are register indices, `kk` an 8-bit immediate, `n` a 4-bit immediate
/// and `nnn` a 12-bit address.
#[derive(Clone, Copy, Debug, PartialEq, Eq, Structural)]
pub enum Opcode {
    /// `00E0`
    Cls,
    /// `00EE`
    Ret,
    /// `1NNN`
    Jp { nnn: u16 },
    /// `2NNN`
    Call { nnn: u16 },
    /// `3XKK`
    SeImm { x: u8, kk: u8 },
    /// `4XKK`
    SneImm { x: u8, kk: u8 },
    /// `5XY0`
    SeReg { x: u8, y: u8 },
    /// `6XKK`
    LdImm { x: u8, kk: u8 },
    /// `7XKK`
    AddImm { x: u8, kk: u8 },
    /// `8XY0`
    LdReg { x: u8, y: u8 },
    /// `8XY1`
    Or { x: u8, y: u8 },
    /// `8XY2`
    And { x: u8, y: u8 },
    /// `8XY3`
    Xor { x: u8, y: u8 },
    /// `8XY4`
    AddReg { x: u8, y: u8 },
    /// `8XY5`
    Sub { x: u8, y: u8 },
    /// `8XY6`
    Shr { x: u8, y: u8 },
    /// `8XY7`
    Subn { x: u8, y: u8 },
    /// `8XYE`
    Shl { x: u8, y: u8 },
    /// `9XY0`
    SneReg { x: u8, y: u8 },
    /// `ANNN`
    LdI { nnn: u16 },
    /// `BNNN`: jump to `nnn` plus register `x` (`V0`, or `VX` under the jump quirk).
    JpOffset { x: u8, nnn: u16 },
    /// `CXKK`
    Rnd { x: u8, kk: u8 },
    /// `DXYN`
    Drw { x: u8, y: u8, n: u8 },
    /// `EX9E`
    Skp { x: u8 },
    /// `EXA1`
    Sknp { x: u8 },
    /// `FX07`
    LdVxDt { x: u8 },
    /// `FX0A`
    LdVxK { x: u8 },
    /// `FX15`
    LdDtVx { x: u8 },
    /// `FX18`
    LdStVx { x: u8 },
    /// `FX1E`
    AddI { x: u8 },
    /// `FX29`
    LdF { x: u8 },
    /// `FX33`
    Bcd { x: u8 },
    /// `FX55`
    Store { x: u8 },
    /// `FX65`
    Load { x: u8 },
    /// Any word that matches no family.
    Unknown,
}

/// A fetched instruction word together with its decoded form.
#[derive(Clone, Copy, Debug, PartialEq, Eq, Structural)]
pub struct DecodedInstruction {
    pub instr: u16,
    pub opcode: Opcode,
}

/// The four nibbles of an instruction word, most significant first.
pub open spec fn nib(w: u16, k: int) -> u8 {
    ((w as int / pow16(3 - k)) % 16) as u8
}

pub open spec fn pow16(k: int) -> int {
    if k == 3 {
        4096
    } else if k == 2 {
        256
    } else if k == 1 {
        16
    } else {
        1
    }
}

/// What a word decodes to under the given quirks.
pub open spec fn decode_spec(w: u16, q: Quirks) -> Opcode {
    let x = nib(w, 1);
    let y = nib(w, 2);
    let n = nib(w, 3);
    let kk = (w % 256) as u8;
    let nnn = (w % 4096) as u16;
    let hi = nib(w, 0);
    if w == 0x00E0 {
        Opcode::Cls
    } else if w == 0x00EE {
        Opcode::Ret
    } else if hi == 1 {
        Opcode::Jp { nnn }
    } else if hi == 2 {
        Opcode::Call { nnn }
    } else if hi == 3 {
        Opcode::SeImm { x, kk }
    } else if hi == 4 {
        Opcode::SneImm { x, kk }
    } else if hi == 5 && n == 0 {
        Opcode::SeReg { x, y }
    } else if hi == 6 {
        Opcode::LdImm { x, kk }
    } else if hi == 7 {
        Opcode::AddImm { x, kk }
    } else if hi == 8 && n == 0 {
        Opcode::LdReg { x, y }
    } else if hi == 8 && n == 1 {
        Opcode::Or { x, y }
    } else if hi == 8 && n == 2 {
        Opcode::And { x, y }
    } else if hi == 8 && n == 3 {
        Opcode::Xor { x, y }
    } else if hi == 8 && n == 4 {
        Opcode::AddReg { x, y }
    } else if hi == 8 && n == 5 {
        Opcode::Sub { x, y }
    } else if hi == 8 && n == 6 {
        Opcode::Shr { x, y }
    } else if hi == 8 && n == 7 {
        Opcode::Subn { x, y }
    } else if hi == 8 && n == 0xE {
        Opcode::Shl { x, y }
    } else if hi == 9 && n == 0 {
        Opcode::SneReg { x, y }
    } else if hi == 0xA {
        Opcode::LdI { nnn }
    } else if hi == 0xB {
        if q.jump_offset_uses_vx {
            Opcode::JpOffset { x, nnn }
        } else {
            Opcode::JpOffset { x: 0, nnn }
        }
    } else if hi == 0xC {
        Opcode::Rnd { x, kk }
    } else if hi == 0xD {
        Opcode::Drw { x, y, n }
    } else if hi == 0xE && kk == 0x9E {
        Opcode::Skp { x }
    } else if hi == 0xE && kk == 0xA1 {
        Opcode::Sknp { x }
    } else if hi == 0xF && kk == 0x07 {
        Opcode::LdVxDt { x }
    } else if hi == 0xF && kk == 0x0A {
        Opcode::LdVxK { x }
    } else if hi == 0xF && kk == 0x15 {
        Opcode::LdDtVx { x }
    } else if hi == 0xF && kk == 0x18 {
        Opcode::LdStVx { x }
    } else if hi == 0xF && kk == 0x1E {
        Opcode::AddI { x }
    } else if hi == 0xF && kk == 0x29 {
        Opcode::LdF { x }
    } else if hi == 0xF && kk == 0x33 {
        Opcode::Bcd { x }
    } else if hi == 0xF && kk == 0x55 {
        Opcode::Store { x }
    } else if hi == 0xF && kk == 0x65 {
        Opcode::Load { x }
    } else {
        Opcode::Unknown
    }
}

/// Every register operand names one of `V0`..`VF`, every address fits in 12 bits
/// and every sprite height in 4 bits.
pub open spec fn opcode_wf(op: Opcode) -> bool {
    match op {
        Opcode::Jp { nnn } | Opcode::Call { nnn } | Opcode::LdI { nnn } => nnn < 4096,
        Opcode::JpOffset { x, nnn } => x < 16 && nnn < 4096,
        Opcode::SeImm { x, .. } | Opcode::SneImm { x, .. } | Opcode::LdImm { x, .. }
        | Opcode::AddImm { x, .. } | Opcode::Rnd { x, .. } => x < 16,
        Opcode::SeReg { x, y } | Opcode::LdReg { x, y } | Opcode::Or { x, y }
        | Opcode::And { x, y } | Opcode::Xor { x, y } | Opcode::AddReg { x, y }
        | Opcode::Sub { x, y } | Opcode::Shr { x, y } | Opcode::Subn { x, y }
        | Opcode::Shl { x, y } | Opcode::SneReg { x, y } => x < 16 && y < 16,
        Opcode::Drw { x, y, n } => x < 16 && y < 16 && n < 16,
        Opcode::Skp { x } | Opcode::Sknp { x } | Opcode::LdVxDt { x } | Opcode::LdVxK { x }
        | Opcode::LdDtVx { x } | Opcode::LdStVx { x } | Opcode::AddI { x } | Opcode::LdF { x }
        | Opcode::Bcd { x } | Opcode::Store { x } | Opcode::Load { x } => x < 16,
        _ => true,
    }
}

/// Decodes one instruction word. Never fails: a word of no known family decodes
/// to `Opcode::Unknown`.
pub fn decode(w: u16, q: Quirks) -> (r: DecodedInstruction)
    ensures
        r.instr == w,
        r.opcode == decode_spec(w, q),
        opcode_wf(r.opcode),
{
    let hi: u8 = (w / 4096) as u8;
    let x: u8 = ((w / 256) % 16) as u8;
    let y: u8 = ((w / 16) % 16) as u8;
    let n: u8 = (w % 16) as u8;
    let kk: u8 = (w % 256) as u8;
    let nnn: u16 = w % 4096;
    assert(hi == nib(w, 0) && x == nib(w, 1) && y == nib(w, 2) && n == nib(w, 3));
    let opcode = if w == 0x00E0 {
        Opcode::Cls
    } else if w == 0x00EE {
        Opcode::Ret
    } else if hi == 1 {
        Opcode::Jp { nnn }
    } else if hi == 2 {
        Opcode::Call { nnn }
    } else if hi == 3 {
        Opcode::SeImm { x, kk }
    } else if hi == 4 {
        Opcode::SneImm { x, kk }
    } else if hi == 5 && n == 0 {
        Opcode::SeReg { x, y }
    } else if hi == 6 {
        Opcode::LdImm { x, kk }
    } else if hi == 7 {
        Opcode::AddImm { x, kk }
    } else if hi == 8 {
        if n == 0 {
            Opcode::LdReg { x, y }
        } else if n == 1 {
            Opcode::Or { x, y }
        } else if n == 2 {
            Opcode::And { x, y }
        } else if n == 3 {
            Opcode::Xor { x, y }
        } else if n == 4 {
            Opcode::AddReg { x, y }
        } else if n == 5 {
            Opcode::Sub { x, y }
        } else if n == 6 {
            Opcode::Shr { x, y }
        } else if n == 7 {
            Opcode::Subn { x, y }
        } else if n == 0xE {
            Opcode::Shl { x, y }
        } else {
            Opcode::Unknown
        }
    } else if hi == 9 && n == 0 {
        Opcode::SneReg { x, y }
    } else if hi == 0xA {
        Opcode::LdI { nnn }
    } else if hi == 0xB {
        if q.jump_offset_uses_vx {
            Opcode::JpOffset { x, nnn }
        } else {
            Opcode::JpOffset { x: 0, nnn }
        }
    } else if hi == 0xC {
        Opcode::Rnd { x, kk }
    } else if hi == 0xD {
        Opcode::Drw { x, y, n }
    } else if hi == 0xE {
        if kk == 0x9E {
            Opcode::Skp { x }
        } else if kk == 0xA1 {
            Opcode::Sknp { x }
        } else {
            Opcode::Unknown
        }
    } else if hi == 0xF {
        if kk == 0x07 {
            Opcode::LdVxDt { x }
        } else if kk == 0x0A {
            Opcode::LdVxK { x }
        } else if kk == 0x15 {
            Opcode::LdDtVx { x }
        } else if kk == 0x18 {
            Opcode::LdStVx { x }
        } else if kk == 0x1E {
            Opcode::AddI { x }
        } else if kk == 0x29 {
            Opcode::LdF { x }
        } else if kk == 0x33 {
            Opcode::Bcd { x }
        } else if kk == 0x55 {
            Opcode::Store { x }
        } else if kk == 0x65 {
            Opcode::Load { x }
        } else {
            Opcode::Unknown
        }
    } else {
        Opcode::Unknown
    };
    DecodedInstruction { instr: w, opcode }
}

/// The assembler mnemonic of an opcode family.
pub open spec fn mnemonic_spec(op: Opcode) -> Seq<char> {
    match op {
        Opcode::Cls => "CLS"@,
        Opcode::Ret => "RET"@,
        Opcode::Jp { .. } => "JP"@,
        Opcode::Call { .. } => "CALL"@,
        Opcode::SeImm { .. } => "SE"@,
        Opcode::SneImm { .. } => "SNE"@,
        Opcode::SeReg { .. } => "SE"@,
        Opcode::LdImm { .. } => "LD"@,
        Opcode::AddImm { .. } => "ADD"@,
        Opcode::LdReg { .. } => "LD"@,
        Opcode::Or { .. } => "OR"@,
        Opcode::And { .. } => "AND"@,
        Opcode::Xor { .. } => "XOR"@,
        Opcode::AddReg { .. } => "ADD"@,
        Opcode::Sub { .. } => "SUB"@,
        Opcode::Shr { .. } => "SHR"@,
        Opcode::Subn { .. } => "SUBN"@,
        Opcode::Shl { .. } => "SHL"@,
        Opcode::SneReg { .. } => "SNE"@,
        Opcode::LdI { .. } => "LD"@,
        Opcode::JpOffset { .. } => "JP"@,
        Opcode::Rnd { .. } => "RND"@,
        Opcode::Drw { .. } => "DRW"@,
        Opcode::Skp { .. } => "SKP"@,
        Opcode::Sknp { .. } => "SKNP"@,
        Opcode::LdVxDt { .. } => "LD"@,
        Opcode::LdVxK { .. } => "LD"@,
        Opcode::LdDtVx { .. } => "LD"@,
        Opcode::LdStVx { .. } => "LD"@,
        Opcode::AddI { .. } => "ADD"@,
        Opcode::LdF { .. } => "LD"@,
        Opcode::Bcd { .. } => "LD"@,
        Opcode::Store { .. } => "LD"@,
        Opcode::Load { .. } => "LD"@,
        Opcode::Unknown => "UNKNOWN"@,
    }
}

impl Opcode {
    /// The assembler mnemonic of this opcode's family.
    pub fn mnemonic(&self) -> (r: &'static str)
        ensures
            r@ == mnemonic_spec(*self),
    {
        match self {
            Opcode::Cls => "CLS",
            Opcode::Ret => "RET",
            Opcode::Jp { .. } => "JP",
            Opcode::Call { .. } => "CALL",
            Opcode::SeImm { .. } => "SE",
            Opcode::SneImm { .. } => "SNE",
            Opcode::SeReg { .. } => "SE",
            Opcode::LdImm { .. } => "LD",
            Opcode::AddImm { .. } => "ADD",
            Opcode::LdReg { .. } => "LD",
            Opcode::Or { .. } => "OR",
            Opcode::And { .. } => "AND",
            Opcode::Xor { .. } => "XOR",
            Opcode::AddReg { .. } => "ADD",
            Opcode::Sub { .. } => "SUB",
            Opcode::Shr { .. } => "SHR",
            Opcode::Subn { .. } => "SUBN",
            Opcode::Shl { .. } => "SHL",
            Opcode::SneReg { .. } => "SNE",
            Opcode::LdI { .. } => "LD",
            Opcode::JpOffset { .. } => "JP",
            Opcode::Rnd { .. } => "RND",
            Opcode::Drw { .. } => "DRW",
            Opcode::Skp { .. } => "SKP",
            Opcode::Sknp { .. } => "SKNP",
            Opcode::LdVxDt { .. } => "LD",
            Opcode::LdVxK { .. } => "LD",
            Opcode::LdDtVx { .. } => "LD",
            Opcode::LdStVx { .. } => "LD",
            Opcode::AddI { .. } => "ADD",
            Opcode::LdF { .. } => "LD",
            Opcode::Bcd { .. } => "LD",
            Opcode::Store { .. } => "LD",
            Opcode::Load { .. } => "LD",
            Opcode::Unknown => "UNKNOWN",
        }
    }
}

} // verus!
