use vstd::prelude::*;

verus! {

/// An object ID (`ID`): of a task, a cyclic handler, an alarm handler.
pub type Id = i32;

/// A task priority (`PRI`): the smaller, the more urgent.
pub type Pri = i32;

/// A task exception pattern (`TEXPTN`): one bit per exception cause.
pub type TexPtn = u32;

/// A relative time, in milliseconds (`RELTIM`).
pub type RelTim = u32;

/// The system time, in milliseconds (`SYSTIM`).
pub type Systim = u32;

/// The three priorities that the sample's tasks move between.
pub const HIGH_PRIORITY: Pri = 9;
pub const MID_PRIORITY: Pri = 10;
pub const LOW_PRIORITY: Pri = 11;

/// The priorities whose ready queues are rotated, in the order in which they
/// are rotated: by the cyclic handler, by the alarm handler and on the
/// console's `r`.
pub fn ready_queue_rotation() -> (prios: [Pri; 3])
    ensures
        prios@ == seq![HIGH_PRIORITY, MID_PRIORITY, LOW_PRIORITY],
{
    let prios: [Pri; 3] = [HIGH_PRIORITY, MID_PRIORITY, LOW_PRIORITY];
    assert(prios@ =~= seq![HIGH_PRIORITY, MID_PRIORITY, LOW_PRIORITY]);
    prios
}

} // verus!
