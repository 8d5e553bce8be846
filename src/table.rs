use crate::laws::{lemma_index_of, lemma_remove_keeps_wf};
use crate::owner::{check_owner, credentials_match, prepare_new};
use crate::record::{NewRow, Todo, TodoDelete, TodoError, TodoNew, TodoUpdate, TodoView};
use crate::time::{timestamp_in_range, utc_now, DateTime};
use vstd::prelude::*;

verus! {

/// The largest id that the table's integer key can hold.
pub const MAX_ID: i32 = 2147483647;

/// The `todos` table as a whole: its rows in the order they were inserted, and
/// the id that the next insert receives.
pub struct TableView {
    pub rows: Seq<TodoView>,
    pub next_id: int,
}

impl TableView {
    /// Ids are positive, below the next one to hand out, and rise with each row,
    /// so no two rows share one.
    pub open spec fn wf(self) -> bool {
        &&& 1 <= self.next_id <= MAX_ID + 1
        &&& forall|i: int| 0 <= i < self.rows.len() ==> 1 <= #[trigger] self.rows[i].id < self.next_id
        &&& forall|i: int, j: int|
            0 <= i < j < self.rows.len() ==> #[trigger] self.rows[i].id < #[trigger] self.rows[j].id
    }

    pub open spec fn has(self, id: int) -> bool {
        exists|i: int| 0 <= i < self.rows.len() && #[trigger] self.rows[i].id == id
    }

    pub open spec fn index_of(self, id: int) -> int {
        choose|i: int| 0 <= i < self.rows.len() && #[trigger] self.rows[i].id == id
    }

    /// The row with this id, if there is one.
    pub open spec fn lookup(self, id: int) -> Option<TodoView> {
        if self.has(id) {
            Some(self.rows[self.index_of(id)])
        } else {
            None
        }
    }

    /// Why creating a row from `new` fails: a timestamp with no calendar
    /// date-time, or no id left to hand out.
    pub open spec fn create_error(self, new: TodoNew) -> Option<TodoError> {
        if !timestamp_in_range(new.date_time_to_complete_task_timestamp as int) {
            Some(TodoError::Validation)
        } else if self.next_id > MAX_ID {
            Some(TodoError::Internal)
        } else {
            None
        }
    }

    /// The row that creating from `new` at time `now` inserts.
    pub open spec fn created(self, new: TodoNew, now: DateTime) -> TodoView {
        TodoView {
            id: self.next_id,
            note: new.note@,
            date_time_created: now,
            date_time_to_complete_task: DateTime {
                secs: new.date_time_to_complete_task_timestamp,
                nanos: 0,
            },
            owner_email: new.owner_email@,
            owner_password: new.owner_password@,
            is_started: false,
            is_finished: false,
        }
    }

    pub open spec fn create(self, new: TodoNew, now: DateTime) -> TableView {
        if self.create_error(new) is Some {
            self
        } else {
            TableView { rows: self.rows.push(self.created(new, now)), next_id: self.next_id + 1 }
        }
    }

    /// Why a change to row `id` by the given owner pair is refused.
    pub open spec fn change_error(self, id: int, owner_email: Seq<char>, owner_password: Seq<char>) -> Option<
        TodoError,
    > {
        match self.lookup(id) {
            None => Some(TodoError::NotFound),
            Some(row) => if credentials_match(
                row.owner_email,
                row.owner_password,
                owner_email,
                owner_password,
            ) {
                None
            } else {
                Some(TodoError::Forbidden)
            },
        }
    }

    pub open spec fn update_error(self, id: int, u: TodoUpdate) -> Option<TodoError> {
        self.change_error(id, u.owner_email@, u.owner_password@)
    }

    /// A row with its note and both flags taken from `u`, and nothing else changed.
    pub open spec fn updated(row: TodoView, u: TodoUpdate) -> TodoView {
        TodoView {
            id: row.id,
            note: u.note@,
            date_time_created: row.date_time_created,
            date_time_to_complete_task: row.date_time_to_complete_task,
            owner_email: row.owner_email,
            owner_password: row.owner_password,
            is_started: u.is_started,
            is_finished: u.is_finished,
        }
    }

    pub open spec fn update(self, id: int, u: TodoUpdate) -> TableView {
        if self.update_error(id, u) is Some {
            self
        } else {
            TableView {
                rows: self.rows.update(
                    self.index_of(id),
                    Self::updated(self.rows[self.index_of(id)], u),
                ),
                next_id: self.next_id,
            }
        }
    }

    pub open spec fn delete_error(self, id: int, d: TodoDelete) -> Option<TodoError> {
        self.change_error(id, d.owner_email@, d.owner_password@)
    }

    pub open spec fn delete(self, id: int, d: TodoDelete) -> TableView {
        if self.delete_error(id, d) is Some {
            self
        } else {
            TableView { rows: self.rows.remove(self.index_of(id)), next_id: self.next_id }
        }
    }

    /// The table as the schema creates it: no rows, and ids starting at one.
    pub open spec fn empty() -> TableView {
        TableView { rows: Seq::empty(), next_id: 1 }
    }

    /// The table after every row is dropped; ids already handed out stay used.
    pub open spec fn reset(self) -> TableView {
        TableView { rows: Seq::empty(), next_id: self.next_id }
    }
}

/// The `todos` table held in memory.
pub struct TodoTable {
    rows: Vec<Todo>,
    next_id: i64,
}

impl View for TodoTable {
    type V = TableView;

    closed spec fn view(&self) -> TableView {
        TableView { rows: self.rows@.map_values(|t: Todo| t@), next_id: self.next_id as int }
    }
}

impl TodoTable {
    /// A table with no rows, as the schema creates it.
    pub fn new() -> (r: TodoTable)
        ensures
            r@ == TableView::empty(),
            r@.wf(),
    {
        let r = TodoTable { rows: Vec::new(), next_id: 1 };
        assert(r@.rows =~= Seq::empty());
        r
    }

    /// Where the row with this id stands in the table.
    fn position(&self, id: i32) -> (r: Option<usize>)
        requires
            self@.wf(),
        ensures
            r is None <==> !self@.has(id as int),
            r matches Some(i) ==> i < self.rows.len() && i == self@.index_of(id as int),
    {
        let mut i: usize = 0;
        while i < self.rows.len()
            invariant
                i <= self.rows.len(),
                self@.wf(),
                forall|j: int| 0 <= j < i ==> #[trigger] self@.rows[j].id != id as int,
            decreases self.rows.len() - i,
        {
            if self.rows[i].id == id {
                proof {
                    lemma_index_of(self@, i as int, id as int);
                }
                return Some(i);
            }
            i += 1;
        }
        assert(!self@.has(id as int)) by {
            if self@.has(id as int) {
                let j = choose|j: int| 0 <= j < self@.rows.len() && #[trigger] self@.rows[j].id == id as int;
                assert(self@.rows[j].id != id as int);
            }
        }
        None
    }

    /// Every row, in no promised order; here, the order of insertion.
    pub fn list(&self) -> (r: Vec<Todo>)
        ensures
            r@.map_values(|t: Todo| t@) == self@.rows,
    {
        let mut r: Vec<Todo> = Vec::new();
        let mut i: usize = 0;
        while i < self.rows.len()
            invariant
                i <= self.rows.len(),
                r@.len() == i,
                forall|j: int| 0 <= j < i ==> #[trigger] r@[j]@ == self.rows@[j]@,
            decreases self.rows.len() - i,
        {
            r.push(self.rows[i].duplicate());
            i += 1;
        }
        assert(r@.map_values(|t: Todo| t@) =~= self@.rows);
        r
    }

    /// The row with this id. A missing row fails like any failed single-row
    /// fetch, as an internal error.
    pub fn get(&self, id: i32) -> (r: Result<Todo, TodoError>)
        requires
            self@.wf(),
        ensures
            match r {
                Ok(t) => self@.lookup(id as int) == Some(t@),
                Err(e) => self@.lookup(id as int) is None && e == TodoError::Internal,
            },
    {
        match self.position(id) {
            Some(i) => Ok(self.rows[i].duplicate()),
            None => Err(TodoError::Internal),
        }
    }

    /// The stored owner pair of the row with this id, if there is such a row.
    pub fn credentials(&self, id: i32) -> (r: Option<(String, String)>)
        requires
            self@.wf(),
        ensures
            match r {
                Some(pair) => self@.lookup(id as int) matches Some(row) && pair.0@ == row.owner_email
                    && pair.1@ == row.owner_password,
                None => self@.lookup(id as int) is None,
            },
    {
        match self.position(id) {
            Some(i) => Some((self.rows[i].owner_email.clone(), self.rows[i].owner_password.clone())),
            None => None,
        }
    }
    /// Inserts a row made from `new`, created at `now`, under the next id.
    pub fn create_at(&mut self, new: &TodoNew, now: DateTime) -> (r: Result<Todo, TodoError>)
        requires
            old(self)@.wf(),
        ensures
            final(self)@.wf(),
            final(self)@ == old(self)@.create(*new, now),
            match r {
                Ok(t) => old(self)@.create_error(*new) is None && t@ == old(self)@.created(*new, now),
                Err(e) => old(self)@.create_error(*new) == Some(e),
            },
    {
        let row: NewRow = match prepare_new(new, now) {
            Err(e) => return Err(e),
            Ok(row) => row,
        };
        if self.next_id > MAX_ID as i64 {
            return Err(TodoError::Internal);
        }
        let t = Todo {
            id: self.next_id as i32,
            note: row.note,
            date_time_created: row.date_time_created,
            date_time_to_complete_task: row.date_time_to_complete_task,
            owner_email: row.owner_email,
            owner_password: row.owner_password,
            is_started: row.is_started,
            is_finished: row.is_finished,
        };
        self.rows.push(t.duplicate());
        self.next_id = self.next_id + 1;
        assert(self@.rows =~= old(self)@.rows.push(t@));
        Ok(t)
    }

    /// Inserts a row made from `new`, created now by the system clock.
    pub fn create(&mut self, new: &TodoNew) -> (r: Result<Todo, TodoError>)
        requires
            old(self)@.wf(),
        ensures
            final(self)@.wf(),
            exists|now: DateTime|
                {
                    &&& now.valid()
                    &&& final(self)@ == old(self)@.create(*new, now)
                    &&& match r {
                        Ok(t) => old(self)@.create_error(*new) is None && t@ == old(self)@.created(
                            *new,
                            now,
                        ),
                        Err(e) => old(self)@.create_error(*new) == Some(e),
                    }
                },
    {
        let now = utc_now();
        self.create_at(new, now)
    }

    /// Sets the note and both flags of row `id`, once its owner pair is checked.
    pub fn update(&mut self, id: i32, u: &TodoUpdate) -> (r: Result<Todo, TodoError>)
        requires
            old(self)@.wf(),
        ensures
            final(self)@.wf(),
            final(self)@ == old(self)@.update(id as int, *u),
            match r {
                Ok(t) => old(self)@.update_error(id as int, *u) is None && t@ == TableView::updated(
                    old(self)@.lookup(id as int)->Some_0,
                    *u,
                ) && final(self)@.lookup(id as int) == Some(t@),
                Err(e) => old(self)@.update_error(id as int, *u) == Some(e),
            },
    {
        let stored = self.credentials(id);
        if let Err(e) = check_owner(&stored, &u.owner_email, &u.owner_password) {
            return Err(e);
        }
        let i = match self.position(id) {
            Some(i) => i,
            None => return Err(TodoError::NotFound),
        };
        let t = Todo {
            id: self.rows[i].id,
            note: u.note.clone(),
            date_time_created: self.rows[i].date_time_created,
            date_time_to_complete_task: self.rows[i].date_time_to_complete_task,
            owner_email: self.rows[i].owner_email.clone(),
            owner_password: self.rows[i].owner_password.clone(),
            is_started: u.is_started,
            is_finished: u.is_finished,
        };
        let ghost before = self@;
        self.rows.set(i, t.duplicate());
        assert(self@.rows =~= before.rows.update(i as int, t@));
        proof {
            lemma_index_of(self@, i as int, id as int);
        }
        Ok(t)
    }

    /// Removes row `id`, once its owner pair is checked.
    pub fn delete(&mut self, id: i32, d: &TodoDelete) -> (r: Result<(), TodoError>)
        requires
            old(self)@.wf(),
        ensures
            final(self)@.wf(),
            final(self)@ == old(self)@.delete(id as int, *d),
            match r {
                Ok(()) => old(self)@.delete_error(id as int, *d) is None,
                Err(e) => old(self)@.delete_error(id as int, *d) == Some(e),
            },
    {
        let stored = self.credentials(id);
        if let Err(e) = check_owner(&stored, &d.owner_email, &d.owner_password) {
            return Err(e);
        }
        let i = match self.position(id) {
            Some(i) => i,
            None => return Err(TodoError::NotFound),
        };
        let ghost before = self@;
        let _removed = self.rows.remove(i);
        assert(self@.rows =~= before.rows.remove(i as int));
        proof {
            lemma_remove_keeps_wf(before, i as int);
        }
        Ok(())
    }

    /// Drops every row; the ids go on from where they were, so none is reused.
    pub fn reset_all(&mut self)
        requires
            old(self)@.wf(),
        ensures
            final(self)@ == old(self)@.reset(),
            final(self)@.wf(),
    {
        self.rows = Vec::new();
        assert(self@.rows =~= Seq::empty());
    }
}

} // verus!
