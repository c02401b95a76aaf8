use vstd::prelude::*;
use crate::kernel::Systim;

verus! {

/// The number of rounds of the busy loop whose duration is measured.
pub const LOOP_REF: u32 = 1000000;

/// The time, in milliseconds, that a task's busy loop is meant to take.
pub const TASK_LOOP_MS: u32 = 400;

/// `x`, through `std::hint::black_box`: the documented identity function,
/// which keeps the compiler from assuming anything of the value, and so from
/// removing a busy loop.
#[verifier::external_body]
fn black_box_u32(x: u32) -> (r: u32)
    ensures
        r == x,
{
    std::hint::black_box(x)
}

/// Spins until a counter that starts at zero exceeds `count`; gives the
/// counter's final value.
pub fn empty_loop(count: u32) -> (last: u32)
    requires
        count < u32::MAX,
    ensures
        last == count + 1,
{
    let mut i: u32 = 0;
    loop
        invariant_except_break
            i <= count,
        invariant
            count < u32::MAX,
        ensures
            i == count + 1,
        decreases count - i,
    {
        i = black_box_u32(i + 1);
        if black_box_u32(i) > count {
            break;
        }
    }
    i
}

/// The busy loop lengths that the tasks and the task exception routine use.
#[derive(PartialEq, Eq, Structural, Clone, Copy, Debug)]
pub struct LoopCounts {
    /// Rounds for about 0.4 s of busy waiting in a task.
    pub task_loop: u32,
    /// A quarter of that, for the task exception routine.
    pub tex_loop: u32,
}

/// The busy loop lengths, from the system times read just before (`time1`)
/// and just after (`time2`) `LOOP_REF` rounds of the busy loop.
pub fn loop_counts(time1: Systim, time2: Systim) -> (lc: LoopCounts)
    requires
        time1 < time2,
    ensures
        lc.task_loop == (LOOP_REF * TASK_LOOP_MS) / (time2 - time1),
        lc.tex_loop == lc.task_loop / 4,
{
    let task_loop: u32 = LOOP_REF * TASK_LOOP_MS / (time2 - time1);
    LoopCounts { task_loop, tex_loop: task_loop / 4 }
}

} // verus!
