pub mod task;
pub mod text;
pub mod todo_list;
pub mod session;
