use vstd::prelude::*;
use crate::kernel::TexPtn;

verus! {

/// The task exception pattern that the CPU exception handler raises, and at
/// which the task exception routine ends its task.
pub const TEX_EXIT_PATTERN: TexPtn = 0x8000;

/// Whether the exception pattern `texptn` holds the exit bit (bit 15).
pub open spec fn has_exit_bit(texptn: TexPtn) -> bool {
    (texptn / 0x8000) % 2 == 1
}

/// Whether the task exception routine, handed `texptn`, ends its task.
pub fn tex_routine_exits(texptn: TexPtn) -> (exits: bool)
    ensures
        exits <==> has_exit_bit(texptn),
        exits <==> (texptn & 0x8000u32) != 0u32,
{
    assert(((texptn & 0x8000u32) != 0u32) <==> ((texptn / 0x8000u32) % 2u32 == 1u32)) by (bit_vector);
    (texptn & 0x8000u32) != 0u32
}

/// What the CPU exception handler found out about the context of the
/// exception.
#[derive(PartialEq, Eq, Structural, Clone, Copy, Debug)]
pub struct CpuExcContext {
    /// `sns_ctx`: whether the handler runs in non-task context.
    pub in_handler_context: bool,
    /// `sns_dpn`: whether dispatching is pending.
    pub dispatch_pending: bool,
    /// `xsns_xpn`: whether task exception handling is pending for the
    /// exception.
    pub exception_pending: bool,
}

/// How the CPU exception handler ends.
#[derive(PartialEq, Eq, Structural, Clone, Copy, Debug)]
pub enum CpuExcOutcome {
    /// The sample ends: the kernel is shut down (`ext_ker`).
    EndProgram,
    /// The running task is sent the given task exception (`iras_tex`).
    RaiseTaskException(TexPtn),
}

/// The CPU exception handler's answer to an exception: the warnings it logs
/// and how it ends.
#[derive(PartialEq, Eq, Structural, Clone, Copy, Debug)]
pub struct CpuExcResponse {
    /// Warn that the handler does not run in non-task context.
    pub warn_context: bool,
    /// Warn that dispatching is not pending.
    pub warn_dispatch: bool,
    pub outcome: CpuExcOutcome,
}

/// Decides the CPU exception handler's answer: it warns of each of the two
/// states it expects and does not find, ends the sample when task exception
/// handling is pending, and otherwise raises the exit exception in the
/// running task.
pub fn cpu_exception_response(ctx: CpuExcContext) -> (r: CpuExcResponse)
    ensures
        r.warn_context == !ctx.in_handler_context,
        r.warn_dispatch == !ctx.dispatch_pending,
        r.outcome == (if ctx.exception_pending {
            CpuExcOutcome::EndProgram
        } else {
            CpuExcOutcome::RaiseTaskException(TEX_EXIT_PATTERN)
        }),
{
    let outcome: CpuExcOutcome = if ctx.exception_pending {
        CpuExcOutcome::EndProgram
    } else {
        CpuExcOutcome::RaiseTaskException(TEX_EXIT_PATTERN)
    };
    CpuExcResponse {
        warn_context: !ctx.in_handler_context,
        warn_dispatch: !ctx.dispatch_pending,
        outcome,
    }
}

} // verus!
