// A todo list kept in one table: rows owned by an email and password pair,
// with the ownership check that guards every change, and the table's
// operations stated and proved over a model of its rows.

pub mod laws;
pub mod owner;
pub mod record;
pub mod table;
pub mod time;

pub use owner::{check_owner, due_date, prepare_new};
pub use record::{NewRow, Todo, TodoDelete, TodoError, TodoNew, TodoUpdate, TodoView};
pub use table::{TableView, TodoTable};
pub use time::DateTime;
