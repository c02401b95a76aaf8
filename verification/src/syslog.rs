use vstd::prelude::*;

verus! {

/// System log priorities, from the most to the least urgent.
pub const LOG_EMERG: u32 = 0;
pub const LOG_ALERT: u32 = 1;
pub const LOG_CRIT: u32 = 2;
pub const LOG_ERROR: u32 = 3;
pub const LOG_WARNING: u32 = 4;
pub const LOG_NOTICE: u32 = 5;
pub const LOG_INFO: u32 = 6;
pub const LOG_DEBUG: u32 = 7;

/// Whether bit `level` of `mask` is set.
pub open spec fn mask_has(mask: u32, level: u32) -> bool {
    (mask >> level) & 1u32 == 1u32
}

/// The log mask (`LOG_UPTO`) that lets through every priority up to and
/// including `prio`, and no other.
pub fn log_upto(prio: u32) -> (mask: u32)
    requires
        prio < 32,
    ensures
        forall|level: u32| level < 32 ==> (mask_has(mask, level) <==> level <= prio),
{
    if prio == 31 {
        let mask: u32 = 0xffff_ffffu32;
        assert forall|level: u32| level < 32 implies (mask_has(mask, level) <==> level <= prio) by {
            assert(((mask >> level) & 1u32 == 1u32) <==> level <= 31) by (bit_vector)
                requires
                    level < 32,
                    mask == 0xffff_ffffu32,
            ;
        }
        mask
    } else {
        let shift: u32 = prio + 1;
        assert(1u32 << shift >= 1u32) by (bit_vector)
            requires
                shift < 32,
        ;
        let bit: u32 = 1u32 << shift;
        let mask: u32 = bit - 1;
        assert forall|level: u32| level < 32 implies (mask_has(mask, level) <==> level <= prio) by {
            assert(((mask >> level) & 1u32 == 1u32) <==> level <= prio) by (bit_vector)
                requires
                    level < 32,
                    prio < 31,
                    shift == prio + 1,
                    bit == 1u32 << shift,
                    mask + 1 == bit,
            ;
        }
        mask
    }
}

} // verus!
