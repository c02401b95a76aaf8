use vstd::prelude::*;
use crate::mailbox::{Mailbox, valid_task_no};

verus! {

/// The timeout, in milliseconds, of a timed sleep, and the length of a delay.
pub const TASK_TIMEOUT: u32 = 10000;

/// What a task does with the message it found in its slot.
#[derive(PartialEq, Eq, Structural, Clone, Copy, Debug)]
pub enum TaskCommand {
    /// `e`: end the task (`ext_tsk`).
    Exit,
    /// `s`: sleep until woken (`slp_tsk`).
    Sleep,
    /// `S`: sleep, with a timeout (`tslp_tsk`).
    SleepTimeout(u32),
    /// `d`: delay for a while (`dly_tsk`).
    Delay(u32),
    /// `y`: disable task exceptions (`dis_tex`).
    DisableTex,
    /// `Y`: enable task exceptions (`ena_tex`).
    EnableTex,
    /// `z`: raise a CPU exception.
    RaiseCpuException,
    /// `Z`: raise a CPU exception with the CPU locked (`loc_cpu`, then
    /// `unl_cpu` after it).
    RaiseCpuExceptionLocked,
}

/// The command that a task reads from the character `c`, if any.
pub open spec fn task_command_of(c: char) -> Option<TaskCommand> {
    if c == 'e' {
        Some(TaskCommand::Exit)
    } else if c == 's' {
        Some(TaskCommand::Sleep)
    } else if c == 'S' {
        Some(TaskCommand::SleepTimeout(TASK_TIMEOUT))
    } else if c == 'd' {
        Some(TaskCommand::Delay(TASK_TIMEOUT))
    } else if c == 'y' {
        Some(TaskCommand::DisableTex)
    } else if c == 'Y' {
        Some(TaskCommand::EnableTex)
    } else if c == 'z' {
        Some(TaskCommand::RaiseCpuException)
    } else if c == 'Z' {
        Some(TaskCommand::RaiseCpuExceptionLocked)
    } else {
        None
    }
}

/// Reads a task command from a message character; any other character,
/// the empty slot among them, asks nothing of the task.
pub fn task_command(c: char) -> (cmd: Option<TaskCommand>)
    ensures
        cmd == task_command_of(c),
{
    match c {
        'e' => Some(TaskCommand::Exit),
        's' => Some(TaskCommand::Sleep),
        'S' => Some(TaskCommand::SleepTimeout(TASK_TIMEOUT)),
        'd' => Some(TaskCommand::Delay(TASK_TIMEOUT)),
        'y' => Some(TaskCommand::DisableTex),
        'Y' => Some(TaskCommand::EnableTex),
        'z' => Some(TaskCommand::RaiseCpuException),
        'Z' => Some(TaskCommand::RaiseCpuExceptionLocked),
        _ => None,
    }
}

/// Whether a command is logged at notice level (the CPU exceptions) rather
/// than at info level.
pub fn command_is_notice(cmd: TaskCommand) -> (notice: bool)
    ensures
        notice <==> (cmd == TaskCommand::RaiseCpuException || cmd == TaskCommand::RaiseCpuExceptionLocked),
{
    match cmd {
        TaskCommand::RaiseCpuException | TaskCommand::RaiseCpuExceptionLocked => true,
        _ => false,
    }
}

/// The bar that a task prints in its running line, indented by task number
/// and ended by a NUL, as the kernel's log expects.
pub fn task_graph(tskno: usize) -> (g: &'static str)
    requires
        valid_task_no(tskno as int),
    ensures
        tskno == 1 ==> g@ == "|\0"@,
        tskno == 2 ==> g@ == "  +\0"@,
        tskno == 3 ==> g@ == "    *\0"@,
{
    if tskno == 1 {
        "|\0"
    } else if tskno == 2 {
        "  +\0"
    } else {
        "    *\0"
    }
}

/// The state of one of the sample's tasks: its number, and how many rounds
/// of its loop it has begun.
pub struct TaskState {
    tskno: usize,
    rounds: u32,
}

impl TaskState {
    /// A task's number always names one of the sample's tasks.
    #[verifier::type_invariant]
    spec fn well_formed(self) -> bool {
        valid_task_no(self.tskno as int)
    }

    /// The task's number (from 1).
    pub closed spec fn task_no(&self) -> usize {
        self.tskno
    }

    /// How many rounds the task has begun.
    pub closed spec fn round_count(&self) -> u32 {
        self.rounds
    }

    /// The state of task `tskno` before its first round.
    pub fn new(tskno: usize) -> (t: TaskState)
        requires
            valid_task_no(tskno as int),
        ensures
            t.task_no() == tskno,
            t.round_count() == 0,
    {
        TaskState { tskno, rounds: 0 }
    }

    /// How many rounds the task has begun.
    pub fn rounds(&self) -> (n: u32)
        ensures
            n == self.round_count(),
    {
        self.rounds
    }

    /// The task's number (from 1).
    pub fn tskno(&self) -> (n: usize)
        ensures
            n == self.task_no(),
            valid_task_no(n as int),
    {
        proof {
            use_type_invariant(self);
        }
        self.tskno
    }

    /// Begins a round: counts it, and gives its number (from 1), which the
    /// round's running line shows.
    pub fn begin_round(&mut self) -> (shown: u32)
        requires
            old(self).round_count() < u32::MAX,
        ensures
            shown == old(self).round_count() + 1,
            final(self).round_count() == shown,
            final(self).task_no() == old(self).task_no(),
    {
        proof {
            use_type_invariant(&*self);
        }
        self.rounds = self.rounds + 1;
        self.rounds
    }

    /// Takes the task's message out of the mailbox, leaving its slot empty,
    /// and reads the command in it.
    pub fn take_command(&self, mailbox: &mut Mailbox) -> (cmd: Option<TaskCommand>)
        ensures
            cmd == task_command_of(old(mailbox)@[self.task_no() - 1]),
            final(mailbox)@ == old(mailbox)@.update(self.task_no() - 1, '\0'),
    {
        proof {
            use_type_invariant(self);
        }
        let c: char = mailbox.take(self.tskno);
        task_command(c)
    }
}

} // verus!
