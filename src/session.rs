use vstd::prelude::*;
use vstd::string::StringExecFns;

use crate::task::{Task, TaskView};
use crate::text::{number_or_zero, parse_decimal, read_choice, read_index, trim, trimmed};
use crate::todo_list::{completed_at, invalid_index_text, listing, text_of, ToDoList};

verus! {

/// What the session waits for next.
#[derive(Clone, Copy, PartialEq, Eq, Structural, Debug)]
pub enum Mode {
    /// A menu choice.
    Choosing,
    /// The description of a task to add.
    Describing,
    /// The position of a task to complete.
    Indexing,
}

/// A session seen from contracts: the tasks and what comes next.
pub ghost struct SessionView {
    pub tasks: Seq<TaskView>,
    pub mode: Mode,
}

/// What to show the user after a line of input: whole lines, then a prompt
/// left open on its line; or the end of the session.
pub struct Reply {
    pub lines: Vec<String>,
    pub prompt: String,
    pub exit: bool,
}

pub ghost struct ReplyView {
    pub lines: Seq<Seq<char>>,
    pub prompt: Seq<char>,
    pub exit: bool,
}

impl View for Reply {
    type V = ReplyView;

    open spec fn view(&self) -> ReplyView {
        ReplyView { lines: text_of(self.lines@), prompt: self.prompt@, exit: self.exit }
    }
}

pub open spec fn menu_text() -> Seq<Seq<char>> {
    seq!["1. Add task"@, "2. Complete task"@, "3. List tasks"@, "4. Exit"@]
}

pub open spec fn choice_prompt() -> Seq<char> {
    "Enter your choice: "@
}

/// The menu, then the prompt for a choice.
pub open spec fn menu_reply(before: Seq<Seq<char>>) -> ReplyView {
    ReplyView { lines: before + menu_text(), prompt: choice_prompt(), exit: false }
}

/// A reply that asks for one more line with `prompt`.
pub open spec fn ask(prompt: Seq<char>) -> ReplyView {
    ReplyView { lines: Seq::empty(), prompt, exit: false }
}

/// The session after the line `line`, and the reply to it.
pub open spec fn next(s: SessionView, line: Seq<char>) -> (SessionView, ReplyView) {
    match s.mode {
        Mode::Choosing => {
            let c = number_or_zero(line, u32::MAX as nat);
            if c == 1 {
                (
                    SessionView { mode: Mode::Describing, ..s },
                    ask("Enter task description: "@),
                )
            } else if c == 2 {
                (
                    SessionView { mode: Mode::Indexing, ..s },
                    ask("Enter task number to complete: "@),
                )
            } else if c == 3 {
                (s, menu_reply(listing(s.tasks)))
            } else if c == 4 {
                (s, ReplyView { lines: Seq::empty(), prompt: Seq::empty(), exit: true })
            } else {
                (s, menu_reply(seq!["Invalid choice"@]))
            }
        },
        Mode::Describing => {
            let t = TaskView { description: trimmed(line), completed: false };
            (SessionView { tasks: s.tasks.push(t), mode: Mode::Choosing }, menu_reply(seq![]))
        },
        Mode::Indexing => {
            let i = number_or_zero(line, usize::MAX as nat);
            if i < s.tasks.len() {
                (
                    SessionView { tasks: completed_at(s.tasks, i as int), mode: Mode::Choosing },
                    menu_reply(seq!["Task completed"@]),
                )
            } else {
                (
                    SessionView { mode: Mode::Choosing, ..s },
                    menu_reply(seq!["Error: "@ + invalid_index_text()]),
                )
            }
        },
    }
}

/// A menu choice that is no number, or a number that names no entry of the
/// menu, is answered with `Invalid choice` and the menu again, and changes
/// nothing.
pub proof fn lemma_invalid_choice(s: SessionView, line: Seq<char>)
    requires
        s.mode == Mode::Choosing,
        parse_decimal(trimmed(line), u32::MAX as nat) is None || !(1 <= number_or_zero(
            line,
            u32::MAX as nat,
        ) <= 4),
    ensures
        next(s, line) == (s, menu_reply(seq!["Invalid choice"@])),
{
}

/// The interactive to-do list: the tasks, and what the user is asked for next.
pub struct Session {
    list: ToDoList,
    mode: Mode,
}

impl View for Session {
    type V = SessionView;

    closed spec fn view(&self) -> SessionView {
        SessionView { tasks: self.list@, mode: self.mode }
    }
}

/// Appends the menu's lines to `lines`.
fn push_menu(lines: &mut Vec<String>)
    ensures
        text_of(final(lines)@) == text_of(old(lines)@) + menu_text(),
{
    let ghost start = lines@;
    lines.push("1. Add task".to_string());
    lines.push("2. Complete task".to_string());
    lines.push("3. List tasks".to_string());
    lines.push("4. Exit".to_string());
    assert(text_of(lines@) =~= text_of(start) + menu_text());
}

/// The menu and the prompt for a choice, after `lines`.
fn menu_after(lines: Vec<String>) -> (r: Reply)
    ensures
        r@ == menu_reply(text_of(lines@)),
{
    let mut lines = lines;
    push_menu(&mut lines);
    Reply { lines, prompt: "Enter your choice: ".to_string(), exit: false }
}

/// What is shown when a session begins: the menu and the prompt for a choice.
pub fn welcome() -> (r: Reply)
    ensures
        r@ == menu_reply(Seq::empty()),
{
    let none: Vec<String> = Vec::new();
    assert(text_of(none@) =~= Seq::<Seq<char>>::empty());
    menu_after(none)
}

impl Session {
    /// A session with no tasks, waiting for a menu choice.
    pub fn new() -> (s: Session)
        ensures
            s@ == (SessionView { tasks: Seq::empty(), mode: Mode::Choosing }),
    {
        Session { list: ToDoList::new(), mode: Mode::Choosing }
    }

    /// Handles one line of input.
    pub fn step(&mut self, line: &str) -> (r: Reply)
        ensures
            (final(self)@, r@) == next(old(self)@, line@),
    {
        match self.mode {
            Mode::Choosing => {
                let c = read_choice(line);
                if c == 1 {
                    self.mode = Mode::Describing;
                    let r = Reply {
                        lines: Vec::new(),
                        prompt: "Enter task description: ".to_string(),
                        exit: false,
                    };
                    assert(r@.lines =~= Seq::empty());
                    r
                } else if c == 2 {
                    self.mode = Mode::Indexing;
                    let r = Reply {
                        lines: Vec::new(),
                        prompt: "Enter task number to complete: ".to_string(),
                        exit: false,
                    };
                    assert(r@.lines =~= Seq::empty());
                    r
                } else if c == 3 {
                    menu_after(self.list.list_tasks())
                } else if c == 4 {
                    let r = Reply { lines: Vec::new(), prompt: String::new(), exit: true };
                    assert(r@.lines =~= Seq::empty());
                    assert(r@.prompt =~= Seq::empty());
                    r
                } else {
                    let before = vec!["Invalid choice".to_string()];
                    assert(text_of(before@) =~= seq!["Invalid choice"@]);
                    menu_after(before)
                }
            },
            Mode::Describing => {
                self.list.add_task(Task::new(trim(line).to_string()));
                self.mode = Mode::Choosing;
                let none: Vec<String> = Vec::new();
                assert(text_of(none@) =~= Seq::<Seq<char>>::empty());
                menu_after(none)
            },
            Mode::Indexing => {
                let index = read_index(line);
                self.mode = Mode::Choosing;
                match self.list.complete_task(index) {
                    Ok(()) => {
                        let before = vec!["Task completed".to_string()];
                        assert(text_of(before@) =~= seq!["Task completed"@]);
                        menu_after(before)
                    },
                    Err(e) => {
                        let mut msg = "Error: ".to_string();
                        msg.append(e.as_str());
                        let before = vec![msg];
                        assert(text_of(before@) =~= seq!["Error: "@ + invalid_index_text()]);
                        menu_after(before)
                    },
                }
            },
        }
    }

    pub fn mode(&self) -> (m: Mode)
        ensures
            m == self@.mode,
    {
        self.mode
    }

    /// The list of tasks.
    pub fn list(&self) -> (l: &ToDoList)
        ensures
            l@ == self@.tasks,
    {
        &self.list
    }
}

} // verus!
