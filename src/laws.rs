//! Properties of the machine that relate several steps or hold of every
//! state, proved over the step semantics.

use vstd::prelude::*;
use crate::isa::{
    arith_value, is_arith, is_compare, Instruction, VmError, RANDOM_REGISTER,
};
use crate::vm::{
    current, draw_allowed, state_wf, in_vram, runnable, step, timer_after, vblank_spec, write_spec,
    VmState,
};

verus! {

/// Pushing `a`, pushing `b`, then an arithmetic instruction leaves exactly
/// `a op b` on top of the original stack, with overflow wrapping around; a
/// division or remainder by zero instead halts with `DivisionByZero`.
pub proof fn lemma_push_push_arith(s: VmState, a: i32, b: i32, d: i32)
    requires
        state_wf(s),
        !s.halted,
        s.pc + 2 < s.program.len(),
        s.program[s.pc as int] == Instruction::Push(a),
        s.program[s.pc + 1] == Instruction::Push(b),
        is_arith(s.program[s.pc + 2]),
    ensures
        ({
            let s3 = step(step(step(s, d).0, d).0, d);
            match arith_value(s.program[s.pc + 2], a, b) {
                Some(v) => s3.1 is Ok && !s3.0.halted && s3.0.pc == s.pc + 3 && s3.0.stack
                    == s.stack.push(v),
                None => s3.1 == Err::<(), VmError>(VmError::DivisionByZero) && s3.0.halted
                    && s3.0.stack == s.stack.push(a).push(b),
            }
        }),
{
    let s2 = step(step(s, d).0, d).0;
    assert(s2.stack == s.stack.push(a).push(b));
    assert(s2.stack.drop_last().drop_last() =~= s.stack);
}

/// A comparison with two operands replaces them by exactly 0 or 1.
pub proof fn lemma_compare_yields_bit(s: VmState, d: i32)
    requires
        state_wf(s),
        runnable(s),
        is_compare(current(s)),
        s.stack.len() >= 2,
    ensures
        step(s, d).1 is Ok,
        step(s, d).0.stack.len() == s.stack.len() - 1,
        step(s, d).0.stack.last() == 0 || step(s, d).0.stack.last() == 1,
{
}

/// A write inside video memory marks the screen dirty, and an interrupt tick
/// always leaves it clean.
pub proof fn lemma_screen_dirty(s: VmState, addr: usize, value: u8)
    ensures
        in_vram(addr as int) ==> write_spec(s, addr, value).screen_dirty,
        !vblank_spec(s).screen_dirty,
{
}

/// A `Call` whose target is in the program, followed later by a `Ret` that
/// finds the call stack as the `Call` left it, resumes at the instruction
/// after the `Call` and restores the call stack.
pub proof fn lemma_call_then_ret(s: VmState, t: VmState, addr: usize, d1: i32, d2: i32)
    requires
        state_wf(s),
        runnable(s),
        current(s) == Instruction::Call(addr),
        addr < s.program.len(),
        state_wf(t),
        runnable(t),
        current(t) == Instruction::Ret,
        t.call_stack == step(s, d1).0.call_stack,
    ensures
        step(s, d1).1 is Ok,
        step(s, d1).0.pc == addr,
        step(t, d2).1 is Ok,
        step(t, d2).0.pc == s.pc + 1,
        step(t, d2).0.call_stack == s.call_stack,
{
    assert(t.call_stack.drop_last() =~= s.call_stack);
}

/// A two-operand instruction on a stack of fewer than two values leaves the
/// stack as it was, does not halt, and moves on to the next instruction.
pub proof fn lemma_underflow_is_noop(s: VmState, d: i32)
    requires
        state_wf(s),
        runnable(s),
        is_arith(current(s)) || is_compare(current(s)),
        s.stack.len() < 2,
    ensures
        step(s, d).1 is Ok,
        step(s, d).0.stack == s.stack,
        !step(s, d).0.halted,
        step(s, d).0.pc == s.pc + 1,
{
}

/// Once `Halt` has executed, every further step changes nothing.
pub proof fn lemma_halt_is_final(s: VmState, d: i32, e: i32)
    requires
        state_wf(s),
        runnable(s),
        current(s) == Instruction::Halt,
    ensures
        step(s, d).0.halted,
        step(s, d).0.pc == s.pc,
        step(step(s, d).0, e) == (step(s, d).0, Ok::<(), VmError>(())),
{
}

/// A halted machine stays as it is under a step.
pub proof fn lemma_halted_is_fixed(s: VmState, d: i32)
    requires
        s.halted,
    ensures
        step(s, d) == (s, Ok::<(), VmError>(())),
{
}

pub open spec fn within(v: i32, min: i32, max: i32) -> bool {
    min <= v <= max
}

/// `RandomNum(min, max)` with `min <= max`, given a number that it may
/// draw, writes to the random register the low byte of a value in
/// `[min, max]`.
pub proof fn lemma_random_in_range(s: VmState, min: i32, max: i32, d: i32)
    requires
        state_wf(s),
        runnable(s),
        current(s) == Instruction::RandomNum(min, max),
        min <= max,
        draw_allowed(s, d),
    ensures
        step(s, d).1 is Ok,
        exists|v: i32|
            #[trigger] within(v, min, max) && step(s, d).0.memory[RANDOM_REGISTER as int] == v as u8,
{
    assert(within(d, min, max) && step(s, d).0.memory[RANDOM_REGISTER as int] == d as u8);
}

/// The timer after wall-clock updates of `deltas` milliseconds, in order.
pub open spec fn timer_after_all(timer: u64, deltas: Seq<u64>) -> u64
    decreases deltas.len(),
{
    if deltas.len() == 0 {
        timer
    } else {
        timer_after_all(timer_after(timer, deltas[0]), deltas.drop_first())
    }
}

/// The timer never increases under an update, stays at zero once there, and
/// reaches zero after at least `timer` updates of one millisecond or more.
pub proof fn lemma_timer_reaches_zero(timer: u64, deltas: Seq<u64>)
    ensures
        forall|delta: u64| timer_after(timer, delta) <= timer,
        timer == 0 ==> timer_after_all(timer, deltas) == 0,
        (forall|k: int| 0 <= k < deltas.len() ==> deltas[k] >= 1) && deltas.len() >= timer
            ==> timer_after_all(timer, deltas) == 0,
    decreases deltas.len(),
{
    if deltas.len() > 0 {
        let next = timer_after(timer, deltas[0]);
        lemma_timer_reaches_zero(next, deltas.drop_first());
        if forall|k: int| 0 <= k < deltas.len() ==> deltas[k] >= 1 {
            assert forall|k: int| 0 <= k < deltas.drop_first().len() implies deltas.drop_first()[k]
                >= 1 by {
                assert(deltas.drop_first()[k] == deltas[k + 1]);
            }
        }
    }
}

/// An interrupt tick never takes the timer below zero: it goes down by one
/// and stays at zero once there.
pub proof fn lemma_vblank_timer(s: VmState)
    ensures
        s.timer == 0 ==> vblank_spec(s).timer == 0,
        s.timer > 0 ==> vblank_spec(s).timer == s.timer - 1,
{
}

} // verus!
