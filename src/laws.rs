use vstd::prelude::*;
use crate::engine::{
    TICKS_PER_SECOND, TIMER_HZ, apply_timers, cycle_spec, fetched, periods_due, resolve_wait, trace,
};
use crate::machine::{
    Chip8Error, Config, MachineModel, DISPLAY_SIZE, MEMORY_SIZE, collides, drawn, exec_spec, sprite_pixel,
};
use crate::opcode::{Opcode, Quirks, decode_spec, nib, opcode_wf};

verus! {

/// The operands of `op` are the fields of word `w` that its family names:
/// `x`, `y` and `n` the second, third and fourth nibbles, `kk` the low byte and
/// `nnn` the low twelve bits (the offset register of `BNNN` is `V0` unless the
/// jump quirk names `VX`).
pub open spec fn operands_agree(op: Opcode, w: u16, q: Quirks) -> bool {
    let x = nib(w, 1);
    let y = nib(w, 2);
    match op {
        Opcode::Jp { nnn } | Opcode::Call { nnn } | Opcode::LdI { nnn } => nnn == w % 4096,
        Opcode::JpOffset { x: r, nnn } => nnn == w % 4096 && r == (if q.jump_offset_uses_vx { x } else { 0 }),
        Opcode::SeImm { x: a, kk } | Opcode::SneImm { x: a, kk } | Opcode::LdImm { x: a, kk }
        | Opcode::AddImm { x: a, kk } | Opcode::Rnd { x: a, kk } => a == x && kk == w % 256,
        Opcode::SeReg { x: a, y: b } | Opcode::LdReg { x: a, y: b } | Opcode::Or { x: a, y: b }
        | Opcode::And { x: a, y: b } | Opcode::Xor { x: a, y: b } | Opcode::AddReg { x: a, y: b }
        | Opcode::Sub { x: a, y: b } | Opcode::Shr { x: a, y: b } | Opcode::Subn { x: a, y: b }
        | Opcode::Shl { x: a, y: b } | Opcode::SneReg { x: a, y: b } => a == x && b == y,
        Opcode::Drw { x: a, y: b, n } => a == x && b == y && n == nib(w, 3),
        Opcode::Skp { x: a } | Opcode::Sknp { x: a } | Opcode::LdVxDt { x: a } | Opcode::LdVxK { x: a }
        | Opcode::LdDtVx { x: a } | Opcode::LdStVx { x: a } | Opcode::AddI { x: a } | Opcode::LdF { x: a }
        | Opcode::Bcd { x: a } | Opcode::Store { x: a } | Opcode::Load { x: a } => a == x,
        _ => true,
    }
}

/// Decoding is total and deterministic: every 16-bit word, under any quirks,
/// decodes to exactly one opcode (possibly `Unknown`), the same one each time,
/// with its operands extracted from the word's fields and in range.
pub proof fn lemma_decode_total(w: u16, w2: u16, q: Quirks)
    requires
        w == w2,
    ensures
        decode_spec(w, q) == decode_spec(w2, q),
        opcode_wf(decode_spec(w, q)),
        operands_agree(decode_spec(w, q), w, q),
{
}

/// Clearing the screen leaves every pixel unset.
pub proof fn lemma_clear_screen(m: MachineModel, c: Config, w: u16, rnd: u8)
    requires
        m.wf(c),
    ensures
        exec_spec(m, c, Opcode::Cls, w, rnd) matches Ok(m2)
            && m2.display.len() == DISPLAY_SIZE
            && forall|p: int| 0 <= p < DISPLAY_SIZE ==> !#[trigger] m2.display[p],
{
}

/// A call succeeds, pushing one return address, while the stack is below its
/// configured depth, and fails with `StackOverflow` once the stack is full; a
/// return fails with `StackUnderflow` on an empty stack.
pub proof fn lemma_stack_bounds(m: MachineModel, c: Config, nnn: u16, w: u16, rnd: u8)
    requires
        m.wf(c),
    ensures
        m.stack.len() < c.stack_depth ==> (exec_spec(m, c, Opcode::Call { nnn }, w, rnd) matches Ok(m2)
            && m2.stack == m.stack.push((m.pc + 2) as u16)),
        m.stack.len() == c.stack_depth ==> exec_spec(m, c, Opcode::Call { nnn }, w, rnd)
            == Err::<MachineModel, Chip8Error>(Chip8Error::StackOverflow),
        m.stack.len() == 0 ==> exec_spec(m, c, Opcode::Ret, w, rnd)
            == Err::<MachineModel, Chip8Error>(Chip8Error::StackUnderflow),
{
}

/// A budget of one second at the standard 60 Hz timer rate applies exactly 60
/// timer ticks, whatever was carried over and whatever the instruction rate, and
/// so lowers the delay timer by 60, stopping at zero.
pub proof fn lemma_one_second_of_timers(m: MachineModel, acc: u64)
    requires
        acc < TICKS_PER_SECOND,
    ensures
        periods_due(acc, TICKS_PER_SECOND, TIMER_HZ) == 60,
        apply_timers(m, 60).delay == if m.delay >= 60 { m.delay - 60 } else { 0 },
{
}

/// Drawing the same sprite twice at the same place (with neither coordinate
/// register being `VF`) restores the display, and the second draw reports a
/// collision exactly when the sprite lit some pixel that was unset before.
pub proof fn lemma_draw_twice(m: MachineModel, c: Config, x: u8, y: u8, n: u8, w: u16, rnd: u8)
    requires
        m.wf(c),
        x < 15,
        y < 15,
        n < 16,
        m.i as int + n as int <= MEMORY_SIZE,
    ensures
        exec_spec(m, c, Opcode::Drw { x, y, n }, w, rnd) matches Ok(m1)
            && exec_spec(m1, c, Opcode::Drw { x, y, n }, w, rnd) matches Ok(m2)
            && m2.display == m.display
            && (m2.v[15] == 1 <==> exists|p: int| 0 <= p < DISPLAY_SIZE && !m.display[p]
                && #[trigger] sprite_pixel(m.memory, m.i, n, m.v[x as int], m.v[y as int], c.quirks.draw_wraps, p))
            && (m2.v[15] == 0 || m2.v[15] == 1),
{
    let wrap = c.quirks.draw_wraps;
    let (vx, vy) = (m.v[x as int], m.v[y as int]);
    let d0 = m.display;
    let d1 = drawn(d0, m.memory, m.i, n, vx, vy, wrap);
    let m1 = match exec_spec(m, c, Opcode::Drw { x, y, n }, w, rnd) {
        Ok(m1) => m1,
        Err(_) => m,
    };
    assert(m1.v[x as int] == vx && m1.v[y as int] == vy);
    assert(m1.display == d1);
    assert(drawn(d1, m.memory, m.i, n, vx, vy, wrap) =~= d0);
    if collides(d1, m.memory, m.i, n, vx, vy, wrap) {
        let p = choose|p: int| 0 <= p < d1.len() && d1[p] && #[trigger] sprite_pixel(m.memory, m.i, n, vx, vy, wrap, p);
        assert(!d0[p]);
    }
    if exists|p: int| 0 <= p < DISPLAY_SIZE && !d0[p] && #[trigger] sprite_pixel(m.memory, m.i, n, vx, vy, wrap, p) {
        let p = choose|p: int| 0 <= p < DISPLAY_SIZE && !d0[p] && #[trigger] sprite_pixel(m.memory, m.i, n, vx, vy, wrap, p);
        assert(d1[p]);
    }
}

/// The outcome of executing `k` calls to `nnn` in a row, with no return between
/// them; stops at the first failure.
pub open spec fn call_chain(m: MachineModel, c: Config, nnn: u16, k: nat) -> Result<MachineModel, Chip8Error>
    decreases k,
{
    if k == 0 {
        Ok(m)
    } else {
        match call_chain(m, c, nnn, (k - 1) as nat) {
            Ok(m1) => exec_spec(m1, c, Opcode::Call { nnn }, (0x2000u16 + nnn) as u16, 0),
            Err(e) => Err(e),
        }
    }
}

/// Calls without returns succeed, one return address each, until the stack
/// holds its configured depth; the call after that fails with `StackOverflow`.
pub proof fn lemma_calls_overflow(m: MachineModel, c: Config, nnn: u16, k: nat)
    requires
        m.wf(c),
        m.stack.len() + k <= c.stack_depth + 1,
    ensures
        m.stack.len() + k <= c.stack_depth ==> (call_chain(m, c, nnn, k) matches Ok(mk)
            && mk.wf(c) && mk.stack.len() == m.stack.len() + k),
        m.stack.len() + k == c.stack_depth + 1 ==> call_chain(m, c, nnn, k)
            == Err::<MachineModel, Chip8Error>(Chip8Error::StackOverflow),
    decreases k,
{
    if k > 0 {
        lemma_calls_overflow(m, c, nnn, (k - 1) as nat);
    }
}

/// No cycle of `trace(start, c, rs)` executes `FX15`, the opcode that sets the
/// delay timer.
pub open spec fn sets_no_delay(start: MachineModel, c: Config, rs: Seq<u8>) -> bool {
    forall|j: int| 0 <= j < rs.len() ==> (#[trigger] trace(start, c, rs.take(j)) matches Ok(mj)
        ==> !(fetched(mj, c).opcode is LdDtVx))
}

/// Every cycle of `trace(start, c, rs)` fetches, from within memory, a
/// subroutine call.
pub open spec fn all_calls(start: MachineModel, c: Config, rs: Seq<u8>) -> bool {
    forall|j: int| 0 <= j < rs.len() ==> (#[trigger] trace(start, c, rs.take(j)) matches Ok(mj)
        ==> fetched(mj, c).opcode is Call && resolve_wait(mj).pc + 1 < MEMORY_SIZE)
}

proof fn lemma_cycle_keeps_delay(m: MachineModel, c: Config, rnd: u8)
    requires
        !(fetched(m, c).opcode is LdDtVx),
    ensures
        cycle_spec(m, c, rnd) matches Ok(m2) ==> m2.delay == m.delay,
{
    reveal(cycle_spec);
    reveal(fetched);
}

proof fn lemma_cycle_call(m: MachineModel, c: Config, rnd: u8)
    requires
        fetched(m, c).opcode is Call,
        resolve_wait(m).pc + 1 < MEMORY_SIZE,
    ensures
        m.stack.len() < c.stack_depth ==> (cycle_spec(m, c, rnd) matches Ok(m2)
            && m2.stack.len() == m.stack.len() + 1),
        m.stack.len() >= c.stack_depth ==> (cycle_spec(m, c, rnd) matches Err(p)
            && p.0 == Chip8Error::StackOverflow),
{
    reveal(cycle_spec);
    reveal(fetched);
}

/// Cycles that never execute `FX15` leave the delay timer as they found it.
/// With the ticks that a step applies first, this makes a one-second budget at
/// 60 Hz lower the delay timer by exactly 60 (see `lemma_one_second_of_timers`)
/// whatever the number of cycles the budget allows.
pub proof fn lemma_cycles_keep_delay(start: MachineModel, c: Config, rs: Seq<u8>)
    requires
        sets_no_delay(start, c, rs),
    ensures
        trace(start, c, rs) matches Ok(fin) ==> fin.delay == start.delay,
    decreases rs.len(),
{
    if rs.len() > 0 {
        let rs0 = rs.drop_last();
        assert forall|j: int| 0 <= j < rs0.len() implies (#[trigger] trace(start, c, rs0.take(j)) matches Ok(mj)
            ==> !(fetched(mj, c).opcode is LdDtVx)) by {
            assert(rs0.take(j) =~= rs.take(j));
            assert(trace(start, c, rs.take(j)) matches Ok(mj) ==> !(fetched(mj, c).opcode is LdDtVx));
        }
        lemma_cycles_keep_delay(start, c, rs0);
        assert(rs.take(rs0.len() as int) =~= rs0);
        assert(trace(start, c, rs.take(rs0.len() as int)) matches Ok(mj) ==> !(fetched(mj, c).opcode is LdDtVx));
        if let Ok(m1) = trace(start, c, rs0) {
            lemma_cycle_keeps_delay(m1, c, rs.last());
        }
    }
}

/// A step whose budget is one second at the 60 Hz timer rate, and whose cycles
/// all succeed without executing `FX15`, lowers the delay timer by exactly 60,
/// stopping at zero, whatever the instruction rate.
pub proof fn lemma_one_second_step(m: MachineModel, c: Config, acc: u64, rs: Seq<u8>)
    requires
        acc < TICKS_PER_SECOND,
        c.timer_hz == TIMER_HZ,
        sets_no_delay(apply_timers(m, periods_due(acc, TICKS_PER_SECOND, c.timer_hz)), c, rs),
    ensures
        trace(apply_timers(m, periods_due(acc, TICKS_PER_SECOND, c.timer_hz)), c, rs) matches Ok(fin)
            ==> fin.delay == if m.delay >= 60 { m.delay - 60 } else { 0 },
{
    lemma_one_second_of_timers(m, acc);
    lemma_cycles_keep_delay(apply_timers(m, periods_due(acc, TICKS_PER_SECOND, c.timer_hz)), c, rs);
}

/// A run of cycles that are all subroutine calls, with no return between them,
/// pushes one return address per call while the stack has room, and fails with
/// `StackOverflow` on the first call past the configured depth.
#[verifier::rlimit(50)]
pub proof fn lemma_call_cycles_overflow(start: MachineModel, c: Config, rs: Seq<u8>)
    requires
        all_calls(start, c, rs),
        start.stack.len() <= c.stack_depth,
        start.stack.len() + rs.len() <= c.stack_depth + 1,
    ensures
        start.stack.len() + rs.len() <= c.stack_depth ==> (trace(start, c, rs) matches Ok(fin)
            && fin.stack.len() == start.stack.len() + rs.len()),
        start.stack.len() + rs.len() == c.stack_depth + 1 ==> (trace(start, c, rs) matches Err(p)
            && p.0 == Chip8Error::StackOverflow),
    decreases rs.len(),
{
    if rs.len() > 0 {
        let rs0 = rs.drop_last();
        assert forall|j: int| 0 <= j < rs0.len() implies (#[trigger] trace(start, c, rs0.take(j)) matches Ok(mj)
            ==> fetched(mj, c).opcode is Call && resolve_wait(mj).pc + 1 < MEMORY_SIZE) by {
            assert(rs0.take(j) =~= rs.take(j));
            assert(trace(start, c, rs.take(j)) matches Ok(mj)
                ==> fetched(mj, c).opcode is Call && resolve_wait(mj).pc + 1 < MEMORY_SIZE);
        }
        lemma_call_cycles_overflow(start, c, rs0);
        assert(rs.take(rs0.len() as int) =~= rs0);
        assert(trace(start, c, rs.take(rs0.len() as int)) matches Ok(mj)
            ==> fetched(mj, c).opcode is Call && resolve_wait(mj).pc + 1 < MEMORY_SIZE);
        if let Ok(m1) = trace(start, c, rs0) {
            lemma_cycle_call(m1, c, rs.last());
            assert(trace(start, c, rs) == cycle_spec(m1, c, rs.last()));
        }
    }
}

} // verus!
