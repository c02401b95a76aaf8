use vstd::prelude::*;

verus! {

/// The number of tasks that the sample runs side by side, and that the
/// console can send messages to.
pub const NUM_TASKS: usize = 3;

/// The character that marks an empty message slot.
pub const NO_MESSAGE: char = '\0';

/// Whether `tskno` names one of the sample's tasks (numbered from 1).
pub open spec fn valid_task_no(tskno: int) -> bool {
    1 <= tskno <= NUM_TASKS
}

/// One message slot per task: the console writes a command character into
/// the slot of the selected task, and the task takes it out, leaving the slot
/// empty.
pub struct Mailbox {
    slots: [char; 3],
}

impl View for Mailbox {
    type V = Seq<char>;

    /// The slots in task order: task `n` reads slot `n - 1`.
    closed spec fn view(&self) -> Seq<char> {
        self.slots@
    }
}

impl Mailbox {
    /// Every slot of a mailbox holds one message or none.
    pub proof fn lemma_len(&self)
        ensures
            self@.len() == NUM_TASKS,
    {
    }

    /// A mailbox with every slot empty.
    pub fn new() -> (mb: Mailbox)
        ensures
            mb@ == seq![NO_MESSAGE, NO_MESSAGE, NO_MESSAGE],
    {
        Mailbox { slots: [NO_MESSAGE, NO_MESSAGE, NO_MESSAGE] }
    }

    /// The message waiting for task `tskno`, without taking it.
    pub fn peek(&self, tskno: usize) -> (c: char)
        requires
            valid_task_no(tskno as int),
        ensures
            c == self@[tskno - 1],
    {
        self.slots[tskno - 1]
    }

    /// Leaves `c` in the slot of task `tskno`, in place of what was there.
    pub fn post(&mut self, tskno: usize, c: char)
        requires
            valid_task_no(tskno as int),
        ensures
            final(self)@ == old(self)@.update(tskno - 1, c),
    {
        self.slots[tskno - 1] = c;
    }

    /// Takes the message out of the slot of task `tskno` and leaves the slot
    /// empty.
    pub fn take(&mut self, tskno: usize) -> (c: char)
        requires
            valid_task_no(tskno as int),
        ensures
            c == old(self)@[tskno - 1],
            final(self)@ == old(self)@.update(tskno - 1, NO_MESSAGE),
    {
        let c: char = self.slots[tskno - 1];
        self.slots[tskno - 1] = NO_MESSAGE;
        c
    }
}

} // verus!
