//! Properties of the machine that span instructions or hold for every
//! program, proved from the semantics of one cycle.
use vstd::prelude::*;

use crate::cpu::{blank_display, MachineState, STACK_DEPTH};
use crate::instruction::{decode_spec, field_nn, field_nnn, field_x, field_y, Instruction};
use crate::semantics::{any_pressed, first_pressed, step_spec};

verus! {

/// A jump `1nnn` sets `PC` to `nnn`, whatever `PC` was.
pub proof fn jump_sets_pc(s: MachineState, rnd: u8)
    requires
        s.wf(),
        s.can_fetch(),
        s.word_at_pc() / 4096 == 1,
    ensures
        step_spec(s, rnd).1 is Ok,
        step_spec(s, rnd).0.pc == field_nnn(s.word_at_pc()),
{
}

/// `3xnn` moves `PC` past itself and, when `Vx == nn`, past the next
/// instruction too.
pub proof fn skip_if_equal(s: MachineState, rnd: u8)
    requires
        s.wf(),
        s.can_fetch(),
        s.word_at_pc() / 4096 == 3,
    ensures
        step_spec(s, rnd).1 is Ok,
        step_spec(s, rnd).0.pc == if s.v[field_x(s.word_at_pc()) as int] == field_nn(s.word_at_pc()) {
            s.pc + 4
        } else {
            s.pc + 2
        },
{
}

/// `7xnn` adds modulo 256 and touches no other register, the flag included.
pub proof fn add_immediate_wraps(s: MachineState, rnd: u8)
    requires
        s.wf(),
        s.can_fetch(),
        s.word_at_pc() / 4096 == 7,
    ensures
        step_spec(s, rnd).1 is Ok,
        step_spec(s, rnd).0.v == s.v.update(
            field_x(s.word_at_pc()) as int,
            ((s.v[field_x(s.word_at_pc()) as int] + field_nn(s.word_at_pc())) % 256) as u8,
        ),
{
}

/// `8xy4` with `x` other than `F` leaves the sum modulo 256 in `Vx` and sets
/// `VF` exactly when the sum exceeds 255.
pub proof fn add_registers_carry(s: MachineState, rnd: u8)
    requires
        s.wf(),
        s.can_fetch(),
        s.word_at_pc() / 4096 == 8,
        s.word_at_pc() % 16 == 4,
        field_x(s.word_at_pc()) != 15,
    ensures
        ({
            let (x, y) = (field_x(s.word_at_pc()) as int, field_y(s.word_at_pc()) as int);
            let t = step_spec(s, rnd).0;
            &&& step_spec(s, rnd).1 is Ok
            &&& t.v[x] == (s.v[x] + s.v[y]) % 256
            &&& t.v[15] == if s.v[x] + s.v[y] > 255 { 1u8 } else { 0u8 }
        }),
{
}

/// `8xy1`, `8xy2` and `8xy3` always leave `VF` at 0.
pub proof fn bitwise_clears_flag(s: MachineState, rnd: u8)
    requires
        s.wf(),
        s.can_fetch(),
        s.word_at_pc() / 4096 == 8,
        1 <= s.word_at_pc() % 16 <= 3,
    ensures
        step_spec(s, rnd).1 is Ok,
        step_spec(s, rnd).0.v[15] == 0,
{
}

/// A call followed by a return comes back to the instruction after the call,
/// with the return address pushed in between and `SP` restored.
pub proof fn call_then_return(s: MachineState, r1: u8, r2: u8)
    requires
        s.wf(),
        s.can_fetch(),
        s.word_at_pc() / 4096 == 2,
        s.sp < STACK_DEPTH,
        step_spec(s, r1).0.can_fetch(),
        step_spec(s, r1).0.word_at_pc() == 0x00EE,
    ensures
        ({
            let s1 = step_spec(s, r1).0;
            let s2 = step_spec(s1, r2).0;
            &&& step_spec(s, r1).1 is Ok
            &&& s1.pc == field_nnn(s.word_at_pc())
            &&& s1.sp == s.sp + 1
            &&& s1.stack[s.sp as int] == s.pc + 2
            &&& step_spec(s1, r2).1 is Ok
            &&& s2.pc == s.pc + 2
            &&& s2.sp == s.sp
        }),
{
}

/// Clearing the screen after a draw leaves every pixel off.
pub proof fn clear_after_draw(s: MachineState, r1: u8, r2: u8)
    requires
        s.wf(),
        s.can_fetch(),
        s.word_at_pc() / 4096 == 0xD,
        step_spec(s, r1).0.can_fetch(),
        step_spec(s, r1).0.word_at_pc() == 0x00E0,
    ensures
        step_spec(step_spec(s, r1).0, r2).0.display == blank_display(),
{
}

/// Every cycle keeps every part of the machine at its size and the stack
/// pointer within the stack.
pub proof fn step_preserves_wf(s: MachineState, rnd: u8)
    requires
        s.wf(),
    ensures
        step_spec(s, rnd).0.wf(),
{
}

/// An instruction that neither jumps, calls, returns, skips nor waits for a
/// key leaves `PC` just past itself; a skip moves it past itself or past the
/// next instruction too.
pub proof fn pc_advances_by_fetch(s: MachineState, rnd: u8)
    requires
        s.wf(),
        s.can_fetch(),
        step_spec(s, rnd).1 is Ok,
    ensures
        ({
            let ins = decode_spec(s.word_at_pc());
            let pc = step_spec(s, rnd).0.pc;
            &&& is_skip(ins) ==> pc == s.pc + 2 || pc == s.pc + 4
            &&& !is_skip(ins) && !sets_pc(ins) ==> pc == s.pc + 2
        }),
{
}

/// The instruction sets `PC` itself: a jump, call, return or key wait.
pub open spec fn sets_pc(ins: Instruction) -> bool {
    match ins {
        Instruction::Ret | Instruction::Jp { .. } | Instruction::Call { .. }
        | Instruction::JpV0 { .. } | Instruction::LdVxK { .. } => true,
        _ => false,
    }
}

/// The instruction may skip the one after it.
pub open spec fn is_skip(ins: Instruction) -> bool {
    match ins {
        Instruction::SeVx { .. } | Instruction::SneVx { .. } | Instruction::SeVxVy { .. }
        | Instruction::SneVxVy { .. } | Instruction::SkpVx { .. } | Instruction::SknpVx { .. } => true,
        _ => false,
    }
}

/// With no key pressed, `Fx0A` leaves `PC` on itself and everything but the
/// tick counter and the timers as it was, so the next cycle runs it again.
pub proof fn key_wait_repeats(s: MachineState, rnd: u8)
    requires
        s.wf(),
        s.can_fetch(),
        s.word_at_pc() / 4096 == 0xF,
        s.word_at_pc() % 256 == 0x0A,
        !any_pressed(s.keyboard),
    ensures
        step_spec(s, rnd).1 is Ok,
        same_but_time(step_spec(s, rnd).0, s),
{
}

/// The two states differ at most in the tick counter and the timers.
pub open spec fn same_but_time(t: MachineState, s: MachineState) -> bool {
    t == (MachineState { ticks: t.ticks, dt: t.dt, st: t.st, ..s })
}

/// The state after one cycle per byte of `rnds`, each byte serving as the
/// random byte of its cycle; the cycles go on past a fault.
pub open spec fn steps(s: MachineState, rnds: Seq<u8>) -> MachineState
    decreases rnds.len(),
{
    if rnds.len() == 0 {
        s
    } else {
        steps(step_spec(s, rnds[0]).0, rnds.drop_first())
    }
}

/// With no key pressed, any number of cycles on `Fx0A` keep `PC` on it and
/// change nothing but the tick counter and the timers.
pub proof fn key_wait_holds(s: MachineState, rnds: Seq<u8>)
    requires
        s.wf(),
        s.can_fetch(),
        s.word_at_pc() / 4096 == 0xF,
        s.word_at_pc() % 256 == 0x0A,
        !any_pressed(s.keyboard),
    ensures
        same_but_time(steps(s, rnds), s),
    decreases rnds.len(),
{
    if rnds.len() > 0 {
        key_wait_repeats(s, rnds[0]);
        let t = step_spec(s, rnds[0]).0;
        key_wait_holds(t, rnds.drop_first());
    }
}

/// With a key pressed, `Fx0A` stores the lowest pressed key in `Vx` and
/// moves on to the next instruction.
pub proof fn key_wait_proceeds(s: MachineState, rnd: u8)
    requires
        s.wf(),
        s.can_fetch(),
        s.word_at_pc() / 4096 == 0xF,
        s.word_at_pc() % 256 == 0x0A,
        any_pressed(s.keyboard),
    ensures
        ({
            let t = step_spec(s, rnd).0;
            &&& step_spec(s, rnd).1 is Ok
            &&& t.pc == s.pc + 2
            &&& t.v[field_x(s.word_at_pc()) as int] == first_pressed(s.keyboard) as u8
        }),
{
}

} // verus!
