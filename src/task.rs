use vstd::prelude::*;

verus! {

/// What a task is, seen from contracts: its text and whether it is done.
pub ghost struct TaskView {
    pub description: Seq<char>,
    pub completed: bool,
}

/// A single to-do entry.
pub struct Task {
    pub description: String,
    pub completed: bool,
}

impl View for Task {
    type V = TaskView;

    open spec fn view(&self) -> TaskView {
        TaskView { description: self.description@, completed: self.completed }
    }
}

impl Task {
    /// A task that is not yet completed; any text is accepted, the empty one too.
    pub fn new(description: String) -> (t: Task)
        ensures
            t@ == (TaskView { description: description@, completed: false }),
    {
        Task { description, completed: false }
    }

    /// Marks the task as completed; doing so again changes nothing.
    pub fn complete(&mut self)
        ensures
            final(self)@ == (TaskView { completed: true, ..old(self)@ }),
    {
        self.completed = true;
    }

    pub fn is_completed(&self) -> (r: bool)
        ensures
            r == self@.completed,
    {
        self.completed
    }
}

} // verus!
