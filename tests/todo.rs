use todo_app::session::{welcome, Mode, Reply, Session};
use todo_app::task::Task;
use todo_app::text::{read_choice, read_index};
use todo_app::todo_list::ToDoList;

const MENU: [&str; 4] = ["1. Add task", "2. Complete task", "3. List tasks", "4. Exit"];

fn menu_after(before: &[&str]) -> Vec<String> {
    let mut v: Vec<String> = before.iter().map(|s| s.to_string()).collect();
    v.extend(MENU.iter().map(|s| s.to_string()));
    v
}

fn add(list: &mut ToDoList, text: &str) {
    list.add_task(Task::new(text.to_string()));
}

fn assert_menu(r: &Reply, before: &[&str]) {
    assert_eq!(r.lines, menu_after(before));
    assert_eq!(r.prompt, "Enter your choice: ");
    assert!(!r.exit);
}

#[test]
fn new_task_is_not_completed() {
    let t = Task::new("Buy milk".to_string());
    assert!(!t.is_completed());
    assert_eq!(t.description, "Buy milk");
    let empty = Task::new(String::new());
    assert!(!empty.is_completed());
    assert_eq!(empty.description, "");
}

#[test]
fn task_complete_is_idempotent() {
    let mut t = Task::new("Walk dog".to_string());
    t.complete();
    assert!(t.is_completed());
    t.complete();
    assert!(t.is_completed());
    assert_eq!(t.description, "Walk dog");
}

#[test]
fn new_list_is_empty() {
    let list = ToDoList::new();
    assert_eq!(list.len(), 0);
    assert!(list.list_tasks().is_empty());
}

#[test]
fn listing_keeps_insertion_order() {
    let mut list = ToDoList::new();
    let names = ["a", "b", "c", "d", "e", "f", "g", "h", "i", "j", "k", "l"];
    for n in names.iter() {
        add(&mut list, n);
    }
    let lines = list.list_tasks();
    assert_eq!(lines.len(), names.len());
    for (i, n) in names.iter().enumerate() {
        assert_eq!(lines[i], format!("{}: {} [not completed]", i, n));
    }
    assert_eq!(lines[10], "10: k [not completed]");
    assert_eq!(lines[11], "11: l [not completed]");
}

#[test]
fn complete_out_of_range_changes_nothing() {
    let mut list = ToDoList::new();
    add(&mut list, "Buy milk");
    add(&mut list, "Walk dog");
    list.complete_task(1).unwrap();
    assert_eq!(list.complete_task(2), Err("Invalid task index".to_string()));
    assert_eq!(list.complete_task(usize::MAX), Err("Invalid task index".to_string()));
    assert!(!list.task(0).is_completed());
    assert!(list.task(1).is_completed());
    assert_eq!(list.len(), 2);
}

#[test]
fn complete_valid_index_marks_only_that_task() {
    let mut list = ToDoList::new();
    add(&mut list, "Buy milk");
    add(&mut list, "Walk dog");
    add(&mut list, "Read");
    assert_eq!(list.complete_task(1), Ok(()));
    assert!(!list.task(0).is_completed());
    assert!(list.task(1).is_completed());
    assert!(!list.task(2).is_completed());
    let once = list.list_tasks();
    assert_eq!(list.complete_task(1), Ok(()));
    assert_eq!(list.list_tasks(), once);
    assert_eq!(
        once,
        vec!["0: Buy milk [not completed]", "1: Walk dog [completed]", "2: Read [not completed]"]
    );
}

#[test]
fn scenario_add_two_and_list() {
    let mut list = ToDoList::new();
    add(&mut list, "Buy milk");
    add(&mut list, "Walk dog");
    assert_eq!(
        list.list_tasks(),
        vec!["0: Buy milk [not completed]", "1: Walk dog [not completed]"]
    );
}

#[test]
fn scenario_add_complete_and_list() {
    let mut list = ToDoList::new();
    add(&mut list, "Buy milk");
    assert_eq!(list.complete_task(0), Ok(()));
    assert_eq!(list.list_tasks(), vec!["0: Buy milk [completed]"]);
}

#[test]
fn scenario_complete_on_empty_list() {
    let mut list = ToDoList::new();
    assert_eq!(list.complete_task(0), Err("Invalid task index".to_string()));
    assert_eq!(list.len(), 0);
}

#[test]
fn scenario_non_numeric_choice() {
    let mut s = Session::new();
    s.step("1\n");
    s.step("Buy milk\n");
    let r = s.step("abc\n");
    assert_menu(&r, &["Invalid choice"]);
    assert_eq!(s.mode(), Mode::Choosing);
    assert_eq!(s.list().list_tasks(), vec!["0: Buy milk [not completed]"]);
    let r = s.step("\n");
    assert_menu(&r, &["Invalid choice"]);
    let r = s.step("7\n");
    assert_menu(&r, &["Invalid choice"]);
    assert_eq!(s.list().len(), 1);
}

#[test]
fn session_welcome_shows_menu() {
    assert_menu(&welcome(), &[]);
}

#[test]
fn session_full_run() {
    let mut s = Session::new();
    let r = s.step("1\n");
    assert!(r.lines.is_empty());
    assert_eq!(r.prompt, "Enter task description: ");
    assert_eq!(s.mode(), Mode::Describing);
    let r = s.step("  Buy milk \n");
    assert_menu(&r, &[]);
    let r = s.step(" 1");
    assert_eq!(r.prompt, "Enter task description: ");
    assert_menu(&s.step("Walk dog\r\n"), &[]);
    let r = s.step("3\n");
    assert_menu(&r, &["0: Buy milk [not completed]", "1: Walk dog [not completed]"]);
    let r = s.step("2\n");
    assert!(r.lines.is_empty());
    assert_eq!(r.prompt, "Enter task number to complete: ");
    assert_eq!(s.mode(), Mode::Indexing);
    assert_menu(&s.step("1\n"), &["Task completed"]);
    s.step("2\n");
    assert_menu(&s.step("5\n"), &["Error: Invalid task index"]);
    s.step("2\n");
    assert_menu(&s.step("x\n"), &["Task completed"]);
    let r = s.step("3\n");
    assert_menu(&r, &["0: Buy milk [completed]", "1: Walk dog [completed]"]);
    let r = s.step("4\n");
    assert!(r.exit);
    assert!(r.lines.is_empty());
    assert_eq!(r.prompt, "");
}

#[test]
fn session_empty_description_is_kept() {
    let mut s = Session::new();
    s.step("1");
    s.step("   \n");
    assert_eq!(s.list().list_tasks(), vec!["0:  [not completed]"]);
}

#[test]
fn choice_reading() {
    assert_eq!(read_choice("3\n"), 3);
    assert_eq!(read_choice("  4  "), 4);
    assert_eq!(read_choice("+2"), 2);
    assert_eq!(read_choice("007"), 7);
    assert_eq!(read_choice("4294967295"), 4294967295);
    assert_eq!(read_choice("4294967296"), 0);
    assert_eq!(read_choice("-1"), 0);
    assert_eq!(read_choice("+"), 0);
    assert_eq!(read_choice("1 2"), 0);
    assert_eq!(read_choice("abc"), 0);
    assert_eq!(read_choice(""), 0);
}

#[test]
fn index_reading() {
    assert_eq!(read_index("12\n"), 12);
    assert_eq!(read_index("\t5"), 5);
    assert_eq!(read_index("five"), 0);
    assert_eq!(read_index("18446744073709551616"), 0);
}
