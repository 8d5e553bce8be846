use crate::record::{NewRow, TodoError, TodoNew};
use crate::time::{naive_from_timestamp, timestamp_in_range, DateTime};
use vstd::prelude::*;

verus! {

/// Whether the stored owner pair is exactly the one presented, byte for byte.
pub open spec fn credentials_match(
    stored_email: Seq<char>,
    stored_password: Seq<char>,
    owner_email: Seq<char>,
    owner_password: Seq<char>,
) -> bool {
    stored_email == owner_email && stored_password == owner_password
}

/// The outcome of the ownership check on the stored pair of a row, if one was found.
pub open spec fn owner_outcome(
    stored: Option<(Seq<char>, Seq<char>)>,
    owner_email: Seq<char>,
    owner_password: Seq<char>,
) -> Result<(), TodoError> {
    match stored {
        None => Err(TodoError::NotFound),
        Some(pair) => if credentials_match(pair.0, pair.1, owner_email, owner_password) {
            Ok(())
        } else {
            Err(TodoError::Forbidden)
        },
    }
}

/// The ownership check that guards every change to a row: a missing row is not
/// found, and any difference in either field is forbidden, without saying which.
pub fn check_owner(
    stored: &Option<(String, String)>,
    owner_email: &String,
    owner_password: &String,
) -> (r: Result<(), TodoError>)
    ensures
        r == owner_outcome(
            match stored {
                Some(pair) => Some((pair.0@, pair.1@)),
                None => None,
            },
            owner_email@,
            owner_password@,
        ),
{
    match stored {
        None => Err(TodoError::NotFound),
        Some(pair) => {
            if pair.0 == *owner_email && pair.1 == *owner_password {
                Ok(())
            } else {
                Err(TodoError::Forbidden)
            }
        },
    }
}

/// The due date-time of a new row, from the Unix timestamp that the caller sent.
pub fn due_date(timestamp: i64) -> (r: Result<DateTime, TodoError>)
    ensures
        r is Ok <==> timestamp_in_range(timestamp as int),
        r matches Ok(d) ==> d == (DateTime { secs: timestamp, nanos: 0 }),
        r matches Err(e) ==> e == TodoError::Validation,
{
    match naive_from_timestamp(timestamp) {
        Some(d) => Ok(d),
        None => Err(TodoError::Validation),
    }
}

/// The values that creating a row from `new` at time `now` inserts: the caller's
/// note and owner pair, the due date-time of its timestamp, and neither flag set.
pub fn prepare_new(new: &TodoNew, now: DateTime) -> (r: Result<NewRow, TodoError>)
    ensures
        r is Ok <==> timestamp_in_range(new.date_time_to_complete_task_timestamp as int),
        r matches Err(e) ==> e == TodoError::Validation,
        r matches Ok(row) ==> {
            &&& row.note@ == new.note@
            &&& row.date_time_created == now
            &&& row.date_time_to_complete_task == (DateTime {
                secs: new.date_time_to_complete_task_timestamp,
                nanos: 0,
            })
            &&& row.owner_email@ == new.owner_email@
            &&& row.owner_password@ == new.owner_password@
            &&& !row.is_started
            &&& !row.is_finished
        },
{
    match due_date(new.date_time_to_complete_task_timestamp) {
        Err(e) => Err(e),
        Ok(due) => Ok(
            NewRow {
                note: new.note.clone(),
                date_time_created: now,
                date_time_to_complete_task: due,
                owner_email: new.owner_email.clone(),
                owner_password: new.owner_password.clone(),
                is_started: false,
                is_finished: false,
            },
        ),
    }
}

} // verus!
