use vstd::prelude::*;
use crate::ercd::Er;
use crate::kernel::{Id, Pri, TexPtn, RelTim, HIGH_PRIORITY, MID_PRIORITY, LOW_PRIORITY};
use crate::mailbox::{Mailbox, valid_task_no};
use crate::syslog::{LOG_EMERG, LOG_ERROR, LOG_INFO, LOG_NOTICE};

verus! {

/// The alarm handler's delay, in milliseconds, when the console starts it.
pub const ALARM_DELAY: RelTim = 5000;

/// The serial port that the console reads commands from.
pub const TASK_PORTID: Id = 1;

/// The byte with which a terminal sends Ctrl-C.
pub const CTRL_C: u8 = 3;

/// The IDs that the kernel configuration gave the sample's objects.
#[derive(PartialEq, Eq, Structural, Clone, Copy, Debug)]
pub struct KernelObjects {
    pub task1: Id,
    pub task2: Id,
    pub task3: Id,
    pub cyclic_handler: Id,
    pub alarm_handler: Id,
}

/// The ID of task `tskno` (numbered from 1).
pub open spec fn task_id_of(objs: KernelObjects, tskno: int) -> Id {
    if tskno == 1 {
        objs.task1
    } else if tskno == 2 {
        objs.task2
    } else {
        objs.task3
    }
}

/// What the main task asks of the kernel in answer to one input byte.
#[derive(PartialEq, Eq, Structural, Clone, Copy, Debug)]
pub enum ConsoleAction {
    /// Nothing: the byte selected a task, left a message, or means nothing.
    Idle,
    /// `a`: activate the task (`act_tsk`).
    ActivateTask(Id),
    /// `A`: cancel the task's queued activations (`can_act`).
    CancelActivations(Id),
    /// `t`: terminate the task (`ter_tsk`).
    TerminateTask(Id),
    /// `>`, `=`, `<`: change the task's priority (`chg_pri`).
    ChangePriority(Id, Pri),
    /// `G`: read the task's priority (`get_pri`).
    GetPriority(Id),
    /// `W`: cancel the task's queued wake-up requests (`can_wup`).
    CancelWakeups(Id),
    /// `w`: wake the task up (`wup_tsk`).
    WakeUpTask(Id),
    /// `l`: release the task from waiting (`rel_wai`).
    ReleaseWait(Id),
    /// `u`: suspend the task (`sus_tsk`).
    SuspendTask(Id),
    /// `m`: resume the task (`rsm_tsk`).
    ResumeTask(Id),
    /// `x`, `X`: raise a task exception (`ras_tex`).
    RaiseTaskException(Id, TexPtn),
    /// `r`: rotate the ready queues of the three priorities (`rot_rdq`).
    RotateReadyQueues,
    /// `c`: start the cyclic handler (`sta_cyc`).
    StartCyclic(Id),
    /// `C`: stop the cyclic handler (`stp_cyc`).
    StopCyclic(Id),
    /// `b`: start the alarm handler (`sta_alm`).
    StartAlarm(Id, RelTim),
    /// `B`: stop the alarm handler (`stp_alm`).
    StopAlarm(Id),
    /// `v`, `q`: set the system log's masks (`syslog_msk_log`): the log
    /// records priorities up to the first, and prints at once those up to the
    /// second.
    SetLogMask(u32, u32),
    /// `V`: read the performance counter twice (`get_utm`).
    ReadUtm,
    /// `Q` or Ctrl-C: leave the loop and end the sample.
    Quit,
}

/// The message that the byte `b` leaves for the selected task, if any.
pub open spec fn message_of(b: u8) -> Option<char> {
    if b == 0x65 {  // 'e'
        Some('e')
    } else if b == 0x73 {  // 's'
        Some('s')
    } else if b == 0x53 {  // 'S'
        Some('S')
    } else if b == 0x64 {  // 'd'
        Some('d')
    } else if b == 0x79 {  // 'y'
        Some('y')
    } else if b == 0x59 {  // 'Y'
        Some('Y')
    } else if b == 0x7a {  // 'z'
        Some('z')
    } else if b == 0x5a {  // 'Z'
        Some('Z')
    } else {
        None
    }
}

/// The task that the byte `b` selects, if any: `1`, `2` or `3`.
pub open spec fn selection_of(b: u8) -> Option<usize> {
    if b == 0x31 {  // '1'
        Some(1usize)
    } else if b == 0x32 {  // '2'
        Some(2usize)
    } else if b == 0x33 {  // '3'
        Some(3usize)
    } else {
        None
    }
}

/// What the byte `b` asks of the kernel, while the task with ID `tskid` is
/// selected.
pub open spec fn action_of(objs: KernelObjects, tskid: Id, b: u8) -> ConsoleAction {
    if b == 0x61 {  // 'a'
        ConsoleAction::ActivateTask(tskid)
    } else if b == 0x41 {  // 'A'
        ConsoleAction::CancelActivations(tskid)
    } else if b == 0x74 {  // 't'
        ConsoleAction::TerminateTask(tskid)
    } else if b == 0x3e {  // '>'
        ConsoleAction::ChangePriority(tskid, HIGH_PRIORITY)
    } else if b == 0x3d {  // '='
        ConsoleAction::ChangePriority(tskid, MID_PRIORITY)
    } else if b == 0x3c {  // '<'
        ConsoleAction::ChangePriority(tskid, LOW_PRIORITY)
    } else if b == 0x47 {  // 'G'
        ConsoleAction::GetPriority(tskid)
    } else if b == 0x57 {  // 'W'
        ConsoleAction::CancelWakeups(tskid)
    } else if b == 0x77 {  // 'w'
        ConsoleAction::WakeUpTask(tskid)
    } else if b == 0x6c {  // 'l'
        ConsoleAction::ReleaseWait(tskid)
    } else if b == 0x75 {  // 'u'
        ConsoleAction::SuspendTask(tskid)
    } else if b == 0x6d {  // 'm'
        ConsoleAction::ResumeTask(tskid)
    } else if b == 0x78 {  // 'x'
        ConsoleAction::RaiseTaskException(tskid, 0x0001)
    } else if b == 0x58 {  // 'X'
        ConsoleAction::RaiseTaskException(tskid, 0x0002)
    } else if b == 0x72 {  // 'r'
        ConsoleAction::RotateReadyQueues
    } else if b == 0x63 {  // 'c'
        ConsoleAction::StartCyclic(objs.cyclic_handler)
    } else if b == 0x43 {  // 'C'
        ConsoleAction::StopCyclic(objs.cyclic_handler)
    } else if b == 0x62 {  // 'b'
        ConsoleAction::StartAlarm(objs.alarm_handler, ALARM_DELAY)
    } else if b == 0x42 {  // 'B'
        ConsoleAction::StopAlarm(objs.alarm_handler)
    } else if b == 0x76 {  // 'v'
        ConsoleAction::SetLogMask(LOG_INFO, LOG_EMERG)
    } else if b == 0x71 {  // 'q'
        ConsoleAction::SetLogMask(LOG_NOTICE, LOG_EMERG)
    } else if b == 0x56 {  // 'V'
        ConsoleAction::ReadUtm
    } else if b == 0x51 || b == CTRL_C {  // 'Q'
        ConsoleAction::Quit
    } else {
        ConsoleAction::Idle
    }
}

/// The main task's console: which task the commands read from the serial
/// port are aimed at.
pub struct Console {
    tskno: usize,
    tskid: Id,
    objs: KernelObjects,
}

impl Console {
    /// The selected task is one of the three, and the ID in use is its ID.
    #[verifier::type_invariant]
    spec fn well_formed(self) -> bool {
        &&& valid_task_no(self.tskno as int)
        &&& self.tskid == task_id_of(self.objs, self.tskno as int)
    }

    /// The number of the selected task.
    pub closed spec fn task_no(&self) -> usize {
        self.tskno
    }

    /// The ID of the selected task.
    pub closed spec fn task_id(&self) -> Id {
        self.tskid
    }

    /// The IDs of the kernel objects.
    pub closed spec fn objects(&self) -> KernelObjects {
        self.objs
    }

    /// A console with task 1 selected.
    pub fn new(objs: KernelObjects) -> (c: Console)
        ensures
            c.task_no() == 1,
            c.task_id() == objs.task1,
            c.objects() == objs,
    {
        Console { tskno: 1, tskid: objs.task1, objs }
    }

    /// The number of the selected task.
    pub fn tskno(&self) -> (n: usize)
        ensures
            n == self.task_no(),
            valid_task_no(n as int),
    {
        proof {
            use_type_invariant(self);
        }
        self.tskno
    }

    /// The ID of the selected task.
    pub fn tskid(&self) -> (id: Id)
        ensures
            id == self.task_id(),
            id == task_id_of(self.objects(), self.task_no() as int),
    {
        proof {
            use_type_invariant(self);
        }
        self.tskid
    }

    /// Selects task `tskno`.
    fn select(&mut self, tskno: usize)
        requires
            valid_task_no(tskno as int),
        ensures
            final(self).task_no() == tskno,
            final(self).objects() == old(self).objects(),
    {
        let objs: KernelObjects = self.objs;
        let tskid: Id = if tskno == 1 {
            objs.task1
        } else if tskno == 2 {
            objs.task2
        } else {
            objs.task3
        };
        *self = Console { tskno, tskid, objs };
    }

    /// Handles one byte read from the serial port: selects a task, leaves a
    /// message in the selected task's slot, or names what to ask of the
    /// kernel.
    pub fn handle_input(&mut self, mailbox: &mut Mailbox, b: u8) -> (action: ConsoleAction)
        ensures
            action == action_of(old(self).objects(), old(self).task_id(), b),
            old(self).task_id() == task_id_of(old(self).objects(), old(self).task_no() as int),
            final(self).task_id() == task_id_of(final(self).objects(), final(self).task_no() as int),
            final(self).objects() == old(self).objects(),
            final(self).task_no() == (match selection_of(b) {
                Some(n) => n,
                None => old(self).task_no(),
            }),
            final(mailbox)@ == (match message_of(b) {
                Some(c) => old(mailbox)@.update(old(self).task_no() - 1, c),
                None => old(mailbox)@,
            }),
    {
        proof {
            use_type_invariant(&*self);
        }
        let tskid: Id = self.tskid;
        let objs: KernelObjects = self.objs;
        let action: ConsoleAction = match b {
            0x65 | 0x73 | 0x53 | 0x64 | 0x79 | 0x59 | 0x7a | 0x5a => {
                let c: char = match b {
                    0x65 => 'e',
                    0x73 => 's',
                    0x53 => 'S',
                    0x64 => 'd',
                    0x79 => 'y',
                    0x59 => 'Y',
                    0x7a => 'z',
                    _ => 'Z',
                };
                mailbox.post(self.tskno, c);
                ConsoleAction::Idle
            },
            0x31 => {  // '1'
                self.select(1);
                ConsoleAction::Idle
            },
            0x32 => {  // '2'
                self.select(2);
                ConsoleAction::Idle
            },
            0x33 => {  // '3'
                self.select(3);
                ConsoleAction::Idle
            },
            0x61 => ConsoleAction::ActivateTask(tskid),  // 'a'
            0x41 => ConsoleAction::CancelActivations(tskid),  // 'A'
            0x74 => ConsoleAction::TerminateTask(tskid),  // 't'
            0x3e => ConsoleAction::ChangePriority(tskid, HIGH_PRIORITY),  // '>'
            0x3d => ConsoleAction::ChangePriority(tskid, MID_PRIORITY),  // '='
            0x3c => ConsoleAction::ChangePriority(tskid, LOW_PRIORITY),  // '<'
            0x47 => ConsoleAction::GetPriority(tskid),  // 'G'
            0x57 => ConsoleAction::CancelWakeups(tskid),  // 'W'
            0x77 => ConsoleAction::WakeUpTask(tskid),  // 'w'
            0x6c => ConsoleAction::ReleaseWait(tskid),  // 'l'
            0x75 => ConsoleAction::SuspendTask(tskid),  // 'u'
            0x6d => ConsoleAction::ResumeTask(tskid),  // 'm'
            0x78 => ConsoleAction::RaiseTaskException(tskid, 0x0001),  // 'x'
            0x58 => ConsoleAction::RaiseTaskException(tskid, 0x0002),  // 'X'
            0x72 => ConsoleAction::RotateReadyQueues,  // 'r'
            0x63 => ConsoleAction::StartCyclic(objs.cyclic_handler),  // 'c'
            0x43 => ConsoleAction::StopCyclic(objs.cyclic_handler),  // 'C'
            0x62 => ConsoleAction::StartAlarm(objs.alarm_handler, ALARM_DELAY),  // 'b'
            0x42 => ConsoleAction::StopAlarm(objs.alarm_handler),  // 'B'
            0x76 => ConsoleAction::SetLogMask(LOG_INFO, LOG_EMERG),  // 'v'
            0x71 => ConsoleAction::SetLogMask(LOG_NOTICE, LOG_EMERG),  // 'q'
            0x56 => ConsoleAction::ReadUtm,  // 'V'
            0x51 | CTRL_C => ConsoleAction::Quit,
            _ => ConsoleAction::Idle,
        };
        proof {
            use_type_invariant(&*self);
        }
        action
    }
}

/// The priority at which the result of cancelling activations is logged:
/// notice when the call succeeded, error when it failed.
pub fn cancel_result_prio(ercd: Er) -> (prio: u32)
    ensures
        ercd >= 0 ==> prio == LOG_NOTICE,
        ercd < 0 ==> prio == LOG_ERROR,
{
    if ercd >= 0 {
        LOG_NOTICE
    } else {
        LOG_ERROR
    }
}

/// The count to print after cancelling a task's wake-up requests: the
/// number of requests cancelled, when the call succeeded, and none when it
/// failed.
pub fn wakeups_to_print(ercd: Er) -> (shown: Option<Er>)
    ensures
        shown == (if ercd >= 0 { Some(ercd) } else { None::<Er> }),
{
    if ercd >= 0 {
        Some(ercd)
    } else {
        None
    }
}

/// The priority to print after reading a task's priority: the one read, when
/// the call succeeded, and none when it failed.
pub fn priority_to_print(ercd: Er, tskpri: Pri) -> (shown: Option<Pri>)
    ensures
        shown == (if ercd >= 0 { Some(tskpri) } else { None::<Pri> }),
{
    if ercd >= 0 {
        Some(tskpri)
    } else {
        None
    }
}

} // verus!
