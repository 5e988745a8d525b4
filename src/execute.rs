use vstd::prelude::*;
use crate::machine::{Machine, MachineModel, Chip8Error, Config, MEMORY_SIZE, DISPLAY_SIZE, NUM_REGS, FONT_START, FONT_GLYPH_SIZE, sprite_pixel, drawn, collides, exec_spec, bcd_digit};
use crate::opcode::{Opcode, opcode_wf};

verus! {

impl Machine {
    pub(crate) fn set_reg(&mut self, x: u8, val: u8)
        requires
            x < 16,
            old(self).v_regs@.len() == NUM_REGS,
        ensures
            final(self)@ == old(self)@.set_v(x, val),
    {
        self.v_regs.set(x as usize, val);
    }

    /// Whether the sprite has a set bit on pixel `p`; see `sprite_pixel`.
    fn sprite_pixel_at(&self, n: u8, vx: u8, vy: u8, wrap: bool, p: usize) -> (r: bool)
        requires
            p < DISPLAY_SIZE,
            n < 16,
            self.memory@.len() == MEMORY_SIZE,
            self.i_reg as int + n as int <= MEMORY_SIZE,
        ensures
            r == sprite_pixel(self.memory@, self.i_reg, n, vx, vy, wrap, p as int),
    {
        let x: usize = p % 64;
        let y: usize = p / 64;
        let x0: usize = (vx % 64) as usize;
        let y0: usize = (vy % 32) as usize;
        let c: usize;
        let r: usize;
        if wrap {
            c = (x + 64 - x0) % 64;
            r = (y + 32 - y0) % 32;
        } else {
            if x < x0 || y < y0 {
                return false;
            }
            c = x - x0;
            r = y - y0;
        }
        if c < 8 && r < n as usize {
            let row: u8 = self.memory[self.i_reg as usize + r];
            (row >> ((7 - c) as u8)) & 1u8 == 1u8
        } else {
            false
        }
    }

    /// XORs the `n`-row sprite at `I` onto the display at `(vx, vy)` and returns
    /// whether a set pixel was turned off.
    pub fn draw_sprite(&mut self, n: u8, vx: u8, vy: u8, wrap: bool) -> (hit: bool)
        requires
            n < 16,
            old(self).memory@.len() == MEMORY_SIZE,
            old(self).display@.len() == DISPLAY_SIZE,
            old(self).i_reg as int + n as int <= MEMORY_SIZE,
        ensures
            hit == collides(old(self).display@, old(self).memory@, old(self).i_reg, n, vx, vy, wrap),
            final(self)@ == (MachineModel {
                display: drawn(old(self).display@, old(self).memory@, old(self).i_reg, n, vx, vy, wrap),
                ..old(self)@
            }),
    {
        let ghost d0 = self.display@;
        let ghost mem = self.memory@;
        let ghost i = self.i_reg;
        let mut hit = false;
        let mut p: usize = 0;
        while p < DISPLAY_SIZE
            invariant
                p <= DISPLAY_SIZE,
                n < 16,
                self.memory@ == mem,
                self.i_reg == i,
                mem.len() == MEMORY_SIZE,
                i as int + n as int <= MEMORY_SIZE,
                d0.len() == DISPLAY_SIZE,
                self.display@.len() == DISPLAY_SIZE,
                self@ == (MachineModel { display: self.display@, ..old(self)@ }),
                forall|q: int| 0 <= q < p ==> self.display@[q] == (d0[q] != sprite_pixel(mem, i, n, vx, vy, wrap, q)),
                forall|q: int| p <= q < DISPLAY_SIZE ==> self.display@[q] == d0[q],
                hit == exists|q: int| 0 <= q < p && d0[q] && #[trigger] sprite_pixel(mem, i, n, vx, vy, wrap, q),
            decreases DISPLAY_SIZE - p,
        {
            let on = self.sprite_pixel_at(n, vx, vy, wrap, p);
            if on {
                let was = self.display[p];
                if was {
                    hit = true;
                }
                self.display.set(p, !was);
            }
            assert(hit == exists|q: int| 0 <= q < p + 1 && d0[q] && #[trigger] sprite_pixel(mem, i, n, vx, vy, wrap, q)) by {
                if on && d0[p as int] {
                    assert(sprite_pixel(mem, i, n, vx, vy, wrap, p as int));
                }
            }
            p += 1;
        }
        assert(self.display@ =~= drawn(d0, mem, i, n, vx, vy, wrap));
        hit
    }

    /// Control flow: clear screen, jumps, calls, returns and skips.
    fn exec_flow(&mut self, c: Config, op: Opcode, w: u16, rnd: u8) -> (r: Result<(), Chip8Error>)
        requires
            old(self)@.wf(c),
            opcode_wf(op),
            old(self).pc as int + 1 < MEMORY_SIZE,
            matches!(op, Opcode::Cls | Opcode::Ret | Opcode::Jp { .. } | Opcode::Call { .. } | Opcode::SeImm { .. } | Opcode::SneImm { .. } | Opcode::SeReg { .. } | Opcode::SneReg { .. } | Opcode::JpOffset { .. }),
        ensures
            r is Ok ==> exec_spec(old(self)@, c, op, w, rnd) == Ok::<MachineModel, Chip8Error>(final(self)@),
            r matches Err(e) ==> exec_spec(old(self)@, c, op, w, rnd) == Err::<MachineModel, Chip8Error>(e)
                && final(self)@ == old(self)@,
            r is Ok ==> final(self)@.wf(c),
    {
        let next: u16 = self.pc + 2;
        match op {
            Opcode::Cls => {
                let mut p: usize = 0;
                while p < DISPLAY_SIZE
                    invariant
                        p <= DISPLAY_SIZE,
                        self.display@.len() == DISPLAY_SIZE,
                        self@ == (MachineModel { display: self.display@, ..old(self)@ }),
                        forall|q: int| 0 <= q < p ==> !self.display@[q],
                    decreases DISPLAY_SIZE - p,
                {
                    self.display.set(p, false);
                    p += 1;
                }
                assert(self.display@ =~= Seq::new(DISPLAY_SIZE as nat, |p: int| false));
                self.pc = next;
            },
            Opcode::Ret => {
                if self.stack.len() == 0 {
                    return Err(Chip8Error::StackUnderflow);
                }
                let top = self.stack.pop();
                match top {
                    Some(a) => { self.pc = a; },
                    None => {},
                }
            },
            Opcode::Jp { nnn } => { self.pc = nnn; },
            Opcode::Call { nnn } => {
                if self.stack.len() >= c.stack_depth {
                    return Err(Chip8Error::StackOverflow);
                }
                self.stack.push(next);
                self.pc = nnn;
            },
            Opcode::SeImm { x, kk } => {
                self.pc = if self.v_regs[x as usize] == kk { next + 2 } else { next };
            },
            Opcode::SneImm { x, kk } => {
                self.pc = if self.v_regs[x as usize] != kk { next + 2 } else { next };
            },
            Opcode::SeReg { x, y } => {
                self.pc = if self.v_regs[x as usize] == self.v_regs[y as usize] { next + 2 } else { next };
            },
            Opcode::SneReg { x, y } => {
                self.pc = if self.v_regs[x as usize] != self.v_regs[y as usize] { next + 2 } else { next };
            },
            Opcode::JpOffset { x, nnn } => {
                self.pc = nnn + self.v_regs[x as usize] as u16;
            },
            _ => {},
        }
        Ok(())
    }

    /// Register loads, arithmetic and logic.
    fn exec_alu(&mut self, c: Config, op: Opcode, w: u16, rnd: u8) -> (r: Result<(), Chip8Error>)
        requires
            old(self)@.wf(c),
            opcode_wf(op),
            old(self).pc as int + 1 < MEMORY_SIZE,
            matches!(op, Opcode::LdImm { .. } | Opcode::AddImm { .. } | Opcode::LdReg { .. } | Opcode::Or { .. } | Opcode::And { .. } | Opcode::Xor { .. } | Opcode::AddReg { .. } | Opcode::Sub { .. } | Opcode::Subn { .. } | Opcode::Shr { .. } | Opcode::Shl { .. } | Opcode::Rnd { .. }),
        ensures
            r is Ok ==> exec_spec(old(self)@, c, op, w, rnd) == Ok::<MachineModel, Chip8Error>(final(self)@),
            r matches Err(e) ==> exec_spec(old(self)@, c, op, w, rnd) == Err::<MachineModel, Chip8Error>(e)
                && final(self)@ == old(self)@,
            r is Ok ==> final(self)@.wf(c),
    {
        let next: u16 = self.pc + 2;
        match op {
            Opcode::LdImm { x, kk } => {
                self.set_reg(x, kk);
                self.pc = next;
            },
            Opcode::AddImm { x, kk } => {
                let val = ((self.v_regs[x as usize] as u16 + kk as u16) % 256) as u8;
                self.set_reg(x, val);
                self.pc = next;
            },
            Opcode::LdReg { x, y } => {
                let val = self.v_regs[y as usize];
                self.set_reg(x, val);
                self.pc = next;
            },
            Opcode::Or { x, y } | Opcode::And { x, y } | Opcode::Xor { x, y } => {
                let a = self.v_regs[x as usize];
                let b = self.v_regs[y as usize];
                let val = match op {
                    Opcode::Or { .. } => a | b,
                    Opcode::And { .. } => a & b,
                    _ => a ^ b,
                };
                self.set_reg(x, val);
                if c.quirks.logic_resets_vf {
                    self.set_reg(15, 0);
                }
                self.pc = next;
            },
            Opcode::AddReg { x, y } => {
                let sum: u16 = self.v_regs[x as usize] as u16 + self.v_regs[y as usize] as u16;
                self.set_reg(x, (sum % 256) as u8);
                self.set_reg(15, if sum > 255 { 1 } else { 0 });
                self.pc = next;
            },
            Opcode::Sub { x, y } | Opcode::Subn { x, y } => {
                let (a, b) = match op {
                    Opcode::Sub { .. } => (self.v_regs[x as usize], self.v_regs[y as usize]),
                    _ => (self.v_regs[y as usize], self.v_regs[x as usize]),
                };
                let val = ((a as u16 + 256 - b as u16) % 256) as u8;
                self.set_reg(x, val);
                self.set_reg(15, if a >= b { 1 } else { 0 });
                self.pc = next;
            },
            Opcode::Shr { x, y } | Opcode::Shl { x, y } => {
                let src = if c.quirks.shift_uses_vy { self.v_regs[y as usize] } else { self.v_regs[x as usize] };
                let (val, flag) = match op {
                    Opcode::Shr { .. } => (src / 2, src % 2),
                    _ => (((src as u16 * 2) % 256) as u8, src / 128),
                };
                self.set_reg(x, val);
                self.set_reg(15, flag);
                self.pc = next;
            },
            Opcode::Rnd { x, kk } => {
                self.set_reg(x, rnd & kk);
                self.pc = next;
            },
            _ => {},
        }
        Ok(())
    }

    /// Keypad, timers, the index register and sprite drawing.
    fn exec_misc(&mut self, c: Config, op: Opcode, w: u16, rnd: u8) -> (r: Result<(), Chip8Error>)
        requires
            old(self)@.wf(c),
            opcode_wf(op),
            old(self).pc as int + 1 < MEMORY_SIZE,
            matches!(op, Opcode::Skp { .. } | Opcode::Sknp { .. } | Opcode::LdVxDt { .. } | Opcode::LdVxK { .. } | Opcode::LdDtVx { .. } | Opcode::LdStVx { .. } | Opcode::AddI { .. } | Opcode::LdF { .. } | Opcode::LdI { .. } | Opcode::Drw { .. }),
        ensures
            r is Ok ==> exec_spec(old(self)@, c, op, w, rnd) == Ok::<MachineModel, Chip8Error>(final(self)@),
            r matches Err(e) ==> exec_spec(old(self)@, c, op, w, rnd) == Err::<MachineModel, Chip8Error>(e)
                && final(self)@ == old(self)@,
            r is Ok ==> final(self)@.wf(c),
    {
        let next: u16 = self.pc + 2;
        match op {
            Opcode::Skp { x } | Opcode::Sknp { x } => {
                let k = self.v_regs[x as usize];
                let down = k < 16 && self.keys[k as usize];
                let cond = match op {
                    Opcode::Skp { .. } => down,
                    _ => !down,
                };
                self.pc = if cond { next + 2 } else { next };
            },
            Opcode::LdVxDt { x } => {
                let val = self.delay_timer;
                self.set_reg(x, val);
                self.pc = next;
            },
            Opcode::LdVxK { x } => {
                self.awaiting_key = Some(x);
                self.last_key = None;
                self.pc = next;
            },
            Opcode::LdDtVx { x } => {
                self.delay_timer = self.v_regs[x as usize];
                self.pc = next;
            },
            Opcode::LdStVx { x } => {
                self.sound_timer = self.v_regs[x as usize];
                self.pc = next;
            },
            Opcode::AddI { x } => {
                self.i_reg = ((self.i_reg as u32 + self.v_regs[x as usize] as u32) % 65536) as u16;
                self.pc = next;
            },
            Opcode::LdI { nnn } => {
                self.i_reg = nnn;
                self.pc = next;
            },
            Opcode::LdF { x } => {
                self.i_reg = (FONT_START + FONT_GLYPH_SIZE * (self.v_regs[x as usize] % 16) as usize) as u16;
                self.pc = next;
            },
            Opcode::Drw { x, y, n } => {
                if self.i_reg as usize + n as usize > MEMORY_SIZE {
                    return Err(Chip8Error::MemoryOutOfBounds);
                }
                let vx = self.v_regs[x as usize];
                let vy = self.v_regs[y as usize];
                let hit = self.draw_sprite(n, vx, vy, c.quirks.draw_wraps);
                self.set_reg(15, if hit { 1 } else { 0 });
                self.pc = next;
            },
            _ => {},
        }
        Ok(())
    }

    /// Block transfers between registers and memory, and unknown words.
    fn exec_mem(&mut self, c: Config, op: Opcode, w: u16, rnd: u8) -> (r: Result<(), Chip8Error>)
        requires
            old(self)@.wf(c),
            opcode_wf(op),
            old(self).pc as int + 1 < MEMORY_SIZE,
            matches!(op, Opcode::Bcd { .. } | Opcode::Store { .. } | Opcode::Load { .. } | Opcode::Unknown),
        ensures
            r is Ok ==> exec_spec(old(self)@, c, op, w, rnd) == Ok::<MachineModel, Chip8Error>(final(self)@),
            r matches Err(e) ==> exec_spec(old(self)@, c, op, w, rnd) == Err::<MachineModel, Chip8Error>(e)
                && final(self)@ == old(self)@,
            r is Ok ==> final(self)@.wf(c),
    {
        let next: u16 = self.pc + 2;
        match op {
            Opcode::Bcd { x } => {
                let i = self.i_reg as usize;
                if i + 3 > MEMORY_SIZE {
                    return Err(Chip8Error::MemoryOutOfBounds);
                }
                let b = self.v_regs[x as usize];
                self.memory.set(i, b / 100);
                self.memory.set(i + 1, (b / 10) % 10);
                self.memory.set(i + 2, b % 10);
                assert(self.memory@ =~= Seq::new(MEMORY_SIZE as nat, |a: int|
                    if i <= a < i + 3 { bcd_digit(b, a - i) } else { old(self).memory@[a] }));
                self.pc = next;
            },
            Opcode::Store { x } => {
                let i = self.i_reg as usize;
                if i + x as usize + 1 > MEMORY_SIZE {
                    return Err(Chip8Error::MemoryOutOfBounds);
                }
                let mut k: usize = 0;
                while k <= x as usize
                    invariant
                        k <= x as usize + 1,
                        x < 16,
                        i + x + 1 <= MEMORY_SIZE,
                        i == old(self).i_reg,
                        self.memory@.len() == MEMORY_SIZE,
                        self.v_regs@.len() == NUM_REGS,
                        self@ == (MachineModel { memory: self.memory@, ..old(self)@ }),
                        forall|a: int| 0 <= a < MEMORY_SIZE ==> self.memory@[a] ==
                            if i <= a < i + k { old(self).v_regs@[a - i] } else { old(self).memory@[a] },
                    decreases x as usize + 1 - k,
                {
                    let val = self.v_regs[k];
                    self.memory.set(i + k, val);
                    k += 1;
                }
                assert(self.memory@ =~= Seq::new(MEMORY_SIZE as nat, |a: int|
                    if i <= a <= i + x { old(self).v_regs@[a - i] } else { old(self).memory@[a] }));
                if c.quirks.load_store_increments_i {
                    self.i_reg = (i + x as usize + 1) as u16;
                }
                self.pc = next;
            },
            Opcode::Load { x } => {
                let i = self.i_reg as usize;
                if i + x as usize + 1 > MEMORY_SIZE {
                    return Err(Chip8Error::MemoryOutOfBounds);
                }
                let mut k: usize = 0;
                while k <= x as usize
                    invariant
                        k <= x as usize + 1,
                        x < 16,
                        i + x + 1 <= MEMORY_SIZE,
                        i == old(self).i_reg,
                        self.v_regs@.len() == NUM_REGS,
                        self.memory@.len() == MEMORY_SIZE,
                        self@ == (MachineModel { v: self.v_regs@, ..old(self)@ }),
                        forall|r: int| 0 <= r < NUM_REGS ==> self.v_regs@[r] ==
                            if r < k { old(self).memory@[i + r] } else { old(self).v_regs@[r] },
                    decreases x as usize + 1 - k,
                {
                    let val = self.memory[i + k];
                    self.v_regs.set(k, val);
                    k += 1;
                }
                assert(self.v_regs@ =~= Seq::new(NUM_REGS as nat, |r: int|
                    if r <= x { old(self).memory@[i + r] } else { old(self).v_regs@[r] }));
                if c.quirks.load_store_increments_i {
                    self.i_reg = (i + x as usize + 1) as u16;
                }
                self.pc = next;
            },
            Opcode::Unknown => {
                if c.fail_on_unknown {
                    return Err(Chip8Error::UnknownOpcode { instr: w });
                }
                self.pc = next;
            },

            _ => {},
        }
        Ok(())
    }

    /// Executes `op`, fetched as `w` at the program counter, using `rnd` should
    /// the opcode draw a random byte. On failure nothing changes.
    pub fn execute(&mut self, c: Config, op: Opcode, w: u16, rnd: u8) -> (r: Result<(), Chip8Error>)
        requires
            old(self)@.wf(c),
            opcode_wf(op),
            old(self).pc as int + 1 < MEMORY_SIZE,
        ensures
            r is Ok ==> exec_spec(old(self)@, c, op, w, rnd) == Ok::<MachineModel, Chip8Error>(final(self)@),
            r matches Err(e) ==> exec_spec(old(self)@, c, op, w, rnd) == Err::<MachineModel, Chip8Error>(e)
                && final(self)@ == old(self)@,
            r is Ok ==> final(self)@.wf(c),
    {
        match op {
            Opcode::Cls | Opcode::Ret | Opcode::Jp { .. } | Opcode::Call { .. } | Opcode::SeImm { .. } | Opcode::SneImm { .. } | Opcode::SeReg { .. } | Opcode::SneReg { .. } | Opcode::JpOffset { .. } => self.exec_flow(c, op, w, rnd),
            Opcode::LdImm { .. } | Opcode::AddImm { .. } | Opcode::LdReg { .. } | Opcode::Or { .. } | Opcode::And { .. } | Opcode::Xor { .. } | Opcode::AddReg { .. } | Opcode::Sub { .. } | Opcode::Subn { .. } | Opcode::Shr { .. } | Opcode::Shl { .. } | Opcode::Rnd { .. } => self.exec_alu(c, op, w, rnd),
            Opcode::Skp { .. } | Opcode::Sknp { .. } | Opcode::LdVxDt { .. } | Opcode::LdVxK { .. } | Opcode::LdDtVx { .. } | Opcode::LdStVx { .. } | Opcode::AddI { .. } | Opcode::LdF { .. } | Opcode::LdI { .. } | Opcode::Drw { .. } => self.exec_misc(c, op, w, rnd),
            Opcode::Bcd { .. } | Opcode::Store { .. } | Opcode::Load { .. } | Opcode::Unknown => self.exec_mem(c, op, w, rnd),
        }
    }
}

} // verus!
