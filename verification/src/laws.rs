use vstd::prelude::*;
use crate::console::{KernelObjects, ConsoleAction, action_of, message_of, selection_of, task_id_of, CTRL_C, ALARM_DELAY};
use crate::syslog::{LOG_EMERG, LOG_INFO, LOG_NOTICE};
use crate::handlers::{has_exit_bit, TEX_EXIT_PATTERN};
use crate::kernel::{Id, TexPtn, HIGH_PRIORITY, MID_PRIORITY, LOW_PRIORITY};
use crate::mailbox::{valid_task_no, NO_MESSAGE};
use crate::task::task_command_of;

verus! {

/// The console leaves a task exactly the messages that a task acts on: every
/// message byte carries a task command, and every task command has a byte
/// that sends it.
pub proof fn law_console_messages_are_task_commands()
    ensures
        forall|b: u8| #[trigger] message_of(b) matches Some(c) ==> task_command_of(c) is Some,
        forall|c: char| #[trigger] task_command_of(c) is Some ==> exists|b: u8| message_of(b) == Some(c),
{
    assert forall|c: char| #[trigger] task_command_of(c) is Some implies exists|b: u8| message_of(b) == Some(c) by {
        if c == 'e' {
            assert(message_of(0x65) == Some(c));
        } else if c == 's' {
            assert(message_of(0x73) == Some(c));
        } else if c == 'S' {
            assert(message_of(0x53) == Some(c));
        } else if c == 'd' {
            assert(message_of(0x64) == Some(c));
        } else if c == 'y' {
            assert(message_of(0x79) == Some(c));
        } else if c == 'Y' {
            assert(message_of(0x59) == Some(c));
        } else if c == 'z' {
            assert(message_of(0x7a) == Some(c));
        } else {
            assert(message_of(0x5a) == Some(c));
        }
    }
}

/// A message that the console leaves while task `tskno` is selected is the
/// command that task `tskno` takes next, and no other task's slot changes.
pub proof fn law_message_reaches_selected_task(mb: Seq<char>, tskno: usize, b: u8)
    requires
        mb.len() == 3,
        valid_task_no(tskno as int),
        message_of(b) is Some,
    ensures
        ({
            let after = mb.update(tskno - 1, message_of(b)->0);
            &&& task_command_of(after[tskno - 1]) == task_command_of(message_of(b)->0)
            &&& task_command_of(after[tskno - 1]) is Some
            &&& forall|k: int| 0 <= k < 3 && k != tskno - 1 ==> after[k] == mb[k]
        }),
{
    law_console_messages_are_task_commands();
    assert(message_of(b) matches Some(c) ==> task_command_of(c) is Some);
}

/// A slot that a task has emptied asks nothing of it: taking twice in a row
/// gives no command the second time.
pub proof fn law_taken_slot_is_no_command()
    ensures
        task_command_of(NO_MESSAGE) is None,
{
}

/// Each byte does at most one thing: it leaves a message, or selects a task,
/// or asks something of the kernel, or nothing.
pub proof fn law_console_bytes_do_one_thing(objs: KernelObjects, tskid: Id, b: u8)
    ensures
        message_of(b) is Some ==> selection_of(b) is None && action_of(objs, tskid, b) == ConsoleAction::Idle,
        selection_of(b) is Some ==> message_of(b) is None && action_of(objs, tskid, b) == ConsoleAction::Idle,
{
}

/// Only `Q` and Ctrl-C end the console loop.
pub proof fn law_quit_bytes(objs: KernelObjects, tskid: Id, b: u8)
    ensures
        action_of(objs, tskid, b) == ConsoleAction::Quit <==> (b == 0x51 || b == CTRL_C),
{
}

/// The task exceptions that the console raises never end a task; the one
/// that the CPU exception handler raises (`TEX_EXIT_PATTERN`) always does.
pub proof fn law_exit_exception_comes_from_cpu_exceptions(objs: KernelObjects, tskid: Id, b: u8)
    ensures
        action_of(objs, tskid, b) matches ConsoleAction::RaiseTaskException(_, p) ==> !has_exit_bit(p),
        has_exit_bit(TEX_EXIT_PATTERN),
{
}

/// The task-control bytes act on the selected task, whichever it is, and
/// never on another: `a` activates it, `A` cancels its activations, `t`
/// terminates it, `w` wakes it, `W` cancels its wake-ups, `l` releases its
/// wait, `u` suspends it and `m` resumes it.
pub proof fn law_task_commands_act_on_selected_task(objs: KernelObjects, tskid: Id)
    ensures
        action_of(objs, tskid, 0x61) == ConsoleAction::ActivateTask(tskid),
        action_of(objs, tskid, 0x41) == ConsoleAction::CancelActivations(tskid),
        action_of(objs, tskid, 0x74) == ConsoleAction::TerminateTask(tskid),
        action_of(objs, tskid, 0x77) == ConsoleAction::WakeUpTask(tskid),
        action_of(objs, tskid, 0x57) == ConsoleAction::CancelWakeups(tskid),
        action_of(objs, tskid, 0x6c) == ConsoleAction::ReleaseWait(tskid),
        action_of(objs, tskid, 0x75) == ConsoleAction::SuspendTask(tskid),
        action_of(objs, tskid, 0x6d) == ConsoleAction::ResumeTask(tskid),
        action_of(objs, tskid, 0x47) == ConsoleAction::GetPriority(tskid),
{
}

/// After `1`, `2` or `3` selects task `n`, a task-control byte acts on the
/// configured ID of task `n`.
pub proof fn law_selection_then_command(objs: KernelObjects, select: u8, b: u8)
    requires
        selection_of(select) is Some,
    ensures
        ({
            let id = task_id_of(objs, selection_of(select)->0 as int);
            &&& b == 0x61 ==> action_of(objs, id, b) == ConsoleAction::ActivateTask(id)
            &&& b == 0x41 ==> action_of(objs, id, b) == ConsoleAction::CancelActivations(id)
            &&& b == 0x74 ==> action_of(objs, id, b) == ConsoleAction::TerminateTask(id)
            &&& b == 0x77 ==> action_of(objs, id, b) == ConsoleAction::WakeUpTask(id)
            &&& b == 0x57 ==> action_of(objs, id, b) == ConsoleAction::CancelWakeups(id)
            &&& b == 0x6c ==> action_of(objs, id, b) == ConsoleAction::ReleaseWait(id)
            &&& b == 0x75 ==> action_of(objs, id, b) == ConsoleAction::SuspendTask(id)
            &&& b == 0x6d ==> action_of(objs, id, b) == ConsoleAction::ResumeTask(id)
        }),
        select == 0x31 ==> task_id_of(objs, selection_of(select)->0 as int) == objs.task1,
        select == 0x32 ==> task_id_of(objs, selection_of(select)->0 as int) == objs.task2,
        select == 0x33 ==> task_id_of(objs, selection_of(select)->0 as int) == objs.task3,
{
    law_task_commands_act_on_selected_task(objs, task_id_of(objs, selection_of(select)->0 as int));
}

/// `>`, `=` and `<` move the selected task to the high (9), middle (10) and
/// low (11) priority: the priority depends on the byte alone, and the three
/// are distinct, from the most to the least urgent.
pub proof fn law_priority_commands(objs: KernelObjects, tskid: Id)
    ensures
        action_of(objs, tskid, 0x3e) == ConsoleAction::ChangePriority(tskid, 9),
        action_of(objs, tskid, 0x3d) == ConsoleAction::ChangePriority(tskid, 10),
        action_of(objs, tskid, 0x3c) == ConsoleAction::ChangePriority(tskid, 11),
        HIGH_PRIORITY == 9 && MID_PRIORITY == 10 && LOW_PRIORITY == 11,
        HIGH_PRIORITY < MID_PRIORITY < LOW_PRIORITY,
{
}

/// `x` raises task exception pattern 0x0001 and `X` pattern 0x0002 in the
/// selected task, whichever it is; the two patterns are distinct bits.
pub proof fn law_task_exception_commands(objs: KernelObjects, tskid: Id)
    ensures
        action_of(objs, tskid, 0x78) == ConsoleAction::RaiseTaskException(tskid, 0x0001),
        action_of(objs, tskid, 0x58) == ConsoleAction::RaiseTaskException(tskid, 0x0002),
{
}

/// The system commands do not depend on which task is selected: `c` starts
/// and `C` stops the cyclic handler, `b` starts the alarm handler with its
/// 5000 ms delay and `B` stops it, `r` rotates the ready queues, `v` and `q`
/// set the log masks, `V` reads the performance counter.
pub proof fn law_system_commands_ignore_selection(objs: KernelObjects, tskid: Id, other: Id)
    ensures
        action_of(objs, tskid, 0x63) == ConsoleAction::StartCyclic(objs.cyclic_handler),
        action_of(objs, tskid, 0x43) == ConsoleAction::StopCyclic(objs.cyclic_handler),
        action_of(objs, tskid, 0x62) == ConsoleAction::StartAlarm(objs.alarm_handler, 5000),
        action_of(objs, tskid, 0x42) == ConsoleAction::StopAlarm(objs.alarm_handler),
        action_of(objs, tskid, 0x72) == ConsoleAction::RotateReadyQueues,
        action_of(objs, tskid, 0x76) == ConsoleAction::SetLogMask(LOG_INFO, LOG_EMERG),
        action_of(objs, tskid, 0x71) == ConsoleAction::SetLogMask(LOG_NOTICE, LOG_EMERG),
        action_of(objs, tskid, 0x56) == ConsoleAction::ReadUtm,
        ALARM_DELAY == 5000,
        forall|b: u8|
            (b == 0x63 || b == 0x43 || b == 0x62 || b == 0x42 || b == 0x72 || b == 0x76 || b == 0x71
                || b == 0x56 || b == 0x51 || b == CTRL_C) ==> #[trigger] action_of(objs, tskid, b) == action_of(objs, other, b),
{
}

/// The task exception routine ends its task exactly when bit 15 of the
/// pattern is set; patterns accumulate by union, so a pending set of causes
/// ends the task exactly when one of them does; and no pattern made of the
/// console's bits (0x0001, 0x0002) alone ends it.
pub proof fn law_exit_bit(p: TexPtn, q: TexPtn)
    ensures
        has_exit_bit(p) <==> (p & 0x8000u32) != 0u32,
        has_exit_bit(p | q) <==> (has_exit_bit(p) || has_exit_bit(q)),
        (p & 0xfffffffcu32) == 0u32 ==> !has_exit_bit(p),
        has_exit_bit(p | TEX_EXIT_PATTERN),
{
    assert(((p / 0x8000u32) % 2u32 == 1u32) <==> ((p & 0x8000u32) != 0u32)) by (bit_vector);
    assert(((q / 0x8000u32) % 2u32 == 1u32) <==> ((q & 0x8000u32) != 0u32)) by (bit_vector);
    assert((((p | q) / 0x8000u32) % 2u32 == 1u32) <==> ((p & 0x8000u32) != 0u32 || (q & 0x8000u32) != 0u32)) by (bit_vector);
    assert((p & 0xfffffffcu32) == 0u32 ==> (p & 0x8000u32) == 0u32) by (bit_vector);
    assert(((p | 0x8000u32) / 0x8000u32) % 2u32 == 1u32) by (bit_vector);
}

/// A message byte leaves its own character: the console posts the byte `b`
/// as the character `b` exactly when a task reads a command from that
/// character, and posts nothing otherwise.
pub proof fn law_message_is_the_byte_itself(b: u8)
    ensures
        message_of(b) == (if task_command_of(b as char) is Some { Some(b as char) } else { None::<char> }),
{
}

} // verus!
