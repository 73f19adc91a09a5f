use vstd::prelude::*;
use vstd::string::StringExecFns;

use crate::task::{Task, TaskView};
use crate::text::{decimal, decimal_of};

verus! {

/// The text of each string of `v`, in order.
pub open spec fn text_of(v: Seq<String>) -> Seq<Seq<char>> {
    v.map_values(|s: String| s@)
}

/// The word that shows whether a task is done.
pub open spec fn status_text(completed: bool) -> Seq<char> {
    if completed {
        "completed"@
    } else {
        "not completed"@
    }
}

/// The line that shows the task `t` at position `i`:
/// `<index>: <description> [<completed|not completed>]`.
pub open spec fn task_line(i: nat, t: TaskView) -> Seq<char> {
    decimal_of(i) + ": "@ + t.description + " ["@ + status_text(t.completed) + "]"@
}

/// The lines that list `tasks`, one per task, in order.
pub open spec fn listing(tasks: Seq<TaskView>) -> Seq<Seq<char>> {
    Seq::new(tasks.len(), |i: int| task_line(i as nat, tasks[i]))
}

/// `tasks` with the task at `i` completed and the others as they were.
pub open spec fn completed_at(tasks: Seq<TaskView>, i: int) -> Seq<TaskView> {
    tasks.update(i, TaskView { completed: true, ..tasks[i] })
}

/// The error that completing a task at a position that holds none gives.
pub open spec fn invalid_index_text() -> Seq<char> {
    "Invalid task index"@
}

/// The tasks of `start` followed by those of `added`, pushed at the end one
/// after another, as `add_task` does.
pub open spec fn pushed_all(start: Seq<TaskView>, added: Seq<TaskView>) -> Seq<TaskView>
    decreases added.len(),
{
    if added.len() == 0 {
        start
    } else {
        pushed_all(start, added.drop_last()).push(added.last())
    }
}

/// Adding tasks one after another to an empty list and then listing it gives
/// one line per task added, in the order in which they were added.
pub proof fn lemma_listing_keeps_order(added: Seq<TaskView>)
    ensures
        pushed_all(Seq::empty(), added) == added,
        listing(pushed_all(Seq::empty(), added)).len() == added.len(),
        forall|i: int|
            0 <= i < added.len() ==> #[trigger] listing(pushed_all(Seq::empty(), added))[i]
                == task_line(i as nat, added[i]),
    decreases added.len(),
{
    if added.len() > 0 {
        lemma_listing_keeps_order(added.drop_last());
        assert(added.drop_last().push(added.last()) =~= added);
    } else {
        assert(added =~= Seq::<TaskView>::empty());
    }
}

/// Completing the task at a valid position marks that task done, keeps its
/// text, and leaves every other task as it was; completing it a second time
/// changes nothing more.
pub proof fn lemma_complete_at(tasks: Seq<TaskView>, i: int)
    requires
        0 <= i < tasks.len(),
    ensures
        completed_at(tasks, i).len() == tasks.len(),
        completed_at(tasks, i)[i].completed,
        completed_at(tasks, i)[i].description == tasks[i].description,
        forall|j: int|
            0 <= j < tasks.len() && j != i ==> #[trigger] completed_at(tasks, i)[j] == tasks[j],
        completed_at(completed_at(tasks, i), i) == completed_at(tasks, i),
{
    assert(completed_at(completed_at(tasks, i), i) =~= completed_at(tasks, i));
}

/// An ordered list of tasks, addressed by position from zero.
pub struct ToDoList {
    tasks: Vec<Task>,
}

impl View for ToDoList {
    type V = Seq<TaskView>;

    closed spec fn view(&self) -> Seq<TaskView> {
        self.tasks@.map_values(|t: Task| t@)
    }
}

impl ToDoList {
    pub fn new() -> (l: ToDoList)
        ensures
            l@ == Seq::<TaskView>::empty(),
    {
        ToDoList { tasks: Vec::new() }
    }

    /// Appends `task` at the end.
    pub fn add_task(&mut self, task: Task)
        ensures
            final(self)@ == old(self)@.push(task@),
    {
        self.tasks.push(task);
        assert(self@ =~= old(self)@.push(task@));
    }

    /// Completes the task at `index`, or fails and changes nothing where
    /// there is no task there.
    pub fn complete_task(&mut self, index: usize) -> (r: Result<(), String>)
        ensures
            index < old(self)@.len() ==> r is Ok && final(self)@ == completed_at(
                old(self)@,
                index as int,
            ),
            index >= old(self)@.len() ==> (r matches Err(e) && e@ == invalid_index_text())
                && final(self)@ == old(self)@,
    {
        if index < self.tasks.len() {
            self.tasks[index].complete();
            assert(self@ =~= completed_at(old(self)@, index as int));
            Ok(())
        } else {
            Err("Invalid task index".to_string())
        }
    }

    /// The listing of the tasks, one line per task, in order of insertion.
    pub fn list_tasks(&self) -> (lines: Vec<String>)
        ensures
            text_of(lines@) == listing(self@),
    {
        let mut lines: Vec<String> = Vec::new();
        let n = self.tasks.len();
        for i in 0..n
            invariant
                n == self.tasks.len(),
                n == self@.len(),
                lines.len() == i,
                text_of(lines@) =~= listing(self@).take(i as int),
        {
            let task = &self.tasks[i];
            let status = if task.completed {
                "completed"
            } else {
                "not completed"
            };
            let mut line = decimal(i);
            line.append(": ");
            line.append(task.description.as_str());
            line.append(" [");
            line.append(status);
            line.append("]");
            assert(status@ == status_text(self@[i as int].completed));
            assert(line@ == task_line(i as nat, self@[i as int]));
            lines.push(line);
            assert(text_of(lines@) =~= listing(self@).take(i + 1));
        }
        assert(listing(self@).take(n as int) =~= listing(self@));
        lines
    }

    pub fn len(&self) -> (n: usize)
        ensures
            n == self@.len(),
    {
        self.tasks.len()
    }

    /// The task at position `i`.
    pub fn task(&self, i: usize) -> (t: &Task)
        requires
            i < self@.len(),
        ensures
            t@ == self@[i as int],
    {
        &self.tasks[i]
    }
}

} // verus!
