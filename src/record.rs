use crate::time::DateTime;
use vstd::prelude::*;

verus! {

/// One row of the `todos` table.
#[derive(Clone, Debug)]
pub struct Todo {
    pub id: i32,
    pub note: String,
    pub date_time_created: DateTime,
    pub date_time_to_complete_task: DateTime,
    pub owner_email: String,
    pub owner_password: String,
    pub is_started: bool,
    pub is_finished: bool,
}

/// What a row holds, with its strings as character sequences.
pub struct TodoView {
    pub id: int,
    pub note: Seq<char>,
    pub date_time_created: DateTime,
    pub date_time_to_complete_task: DateTime,
    pub owner_email: Seq<char>,
    pub owner_password: Seq<char>,
    pub is_started: bool,
    pub is_finished: bool,
}

impl View for Todo {
    type V = TodoView;

    open spec fn view(&self) -> TodoView {
        TodoView {
            id: self.id as int,
            note: self.note@,
            date_time_created: self.date_time_created,
            date_time_to_complete_task: self.date_time_to_complete_task,
            owner_email: self.owner_email@,
            owner_password: self.owner_password@,
            is_started: self.is_started,
            is_finished: self.is_finished,
        }
    }
}

impl Todo {
    /// A copy of the row, field by field.
    pub fn duplicate(&self) -> (r: Todo)
        ensures
            r@ == self@,
    {
        Todo {
            id: self.id,
            note: self.note.clone(),
            date_time_created: self.date_time_created,
            date_time_to_complete_task: self.date_time_to_complete_task,
            owner_email: self.owner_email.clone(),
            owner_password: self.owner_password.clone(),
            is_started: self.is_started,
            is_finished: self.is_finished,
        }
    }
}

/// The body of a request that creates a row.
#[derive(Clone, Debug)]
pub struct TodoNew {
    pub note: String,
    pub date_time_to_complete_task_timestamp: i64,
    pub owner_email: String,
    pub owner_password: String,
}

/// The body of a request that changes a row.
#[derive(Clone, Debug)]
pub struct TodoUpdate {
    pub note: String,
    pub is_started: bool,
    pub is_finished: bool,
    pub owner_email: String,
    pub owner_password: String,
}

/// The body of a request that deletes a row.
#[derive(Clone, Debug)]
pub struct TodoDelete {
    pub owner_email: String,
    pub owner_password: String,
}

/// The values that an insert writes; the store assigns the id.
#[derive(Clone, Debug)]
pub struct NewRow {
    pub note: String,
    pub date_time_created: DateTime,
    pub date_time_to_complete_task: DateTime,
    pub owner_email: String,
    pub owner_password: String,
    pub is_started: bool,
    pub is_finished: bool,
}

/// Why a request on the table fails.
#[derive(Clone, Copy, Debug, PartialEq, Eq, Structural)]
pub enum TodoError {
    /// Malformed input, such as a timestamp with no calendar date-time.
    Validation,
    /// No row has the requested id.
    NotFound,
    /// The owner's email or password does not match the row's.
    Forbidden,
    /// The store could not carry out the statement.
    Internal,
}

impl TodoError {
    pub open spec fn message_spec(self) -> Seq<char> {
        match self {
            TodoError::Validation => "Invalid timestamp"@,
            TodoError::NotFound => "Todo not found"@,
            TodoError::Forbidden => "Invalid owner credentials"@,
            TodoError::Internal => "Internal error"@,
        }
    }

    /// The text sent back to the caller for this error.
    pub fn message(&self) -> (r: String)
        ensures
            r@ == self.message_spec(),
    {
        let s: &str = match self {
            TodoError::Validation => "Invalid timestamp",
            TodoError::NotFound => "Todo not found",
            TodoError::Forbidden => "Invalid owner credentials",
            TodoError::Internal => "Internal error",
        };
        s.to_owned()
    }
}

} // verus!
