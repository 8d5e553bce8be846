use todo_service::time::{MAX_TIMESTAMP, MIN_TIMESTAMP};
use todo_service::{
    check_owner, due_date, prepare_new, DateTime, TodoDelete, TodoError, TodoNew, TodoTable,
    TodoUpdate,
};

fn new_todo(note: &str, ts: i64) -> TodoNew {
    TodoNew {
        note: note.to_string(),
        date_time_to_complete_task_timestamp: ts,
        owner_email: "ann@example.com".to_string(),
        owner_password: "hunter2".to_string(),
    }
}

fn at(secs: i64) -> DateTime {
    DateTime { secs, nanos: 0 }
}

fn owner_update(note: &str, started: bool, finished: bool) -> TodoUpdate {
    TodoUpdate {
        note: note.to_string(),
        is_started: started,
        is_finished: finished,
        owner_email: "ann@example.com".to_string(),
        owner_password: "hunter2".to_string(),
    }
}

#[test]
fn create_then_get_returns_row() {
    let mut t = TodoTable::new();
    let made = t.create_at(&new_todo("buy milk", 1_700_000_000), at(1_600_000_000)).unwrap();
    let got = t.get(made.id).unwrap();
    assert!(got.id > 0);
    assert_eq!(got.id, made.id);
    assert_eq!(got.note, "buy milk");
    assert_eq!(got.owner_email, "ann@example.com");
    assert_eq!(got.owner_password, "hunter2");
    assert!(!got.is_started);
    assert!(!got.is_finished);
    assert_eq!(got.date_time_created, at(1_600_000_000));
    assert_eq!(got.date_time_to_complete_task, at(1_700_000_000));
}

#[test]
fn created_ids_are_fresh() {
    let mut t = TodoTable::new();
    let a = t.create_at(&new_todo("a", 0), at(0)).unwrap();
    let b = t.create_at(&new_todo("b", 0), at(0)).unwrap();
    t.delete(b.id, &TodoDelete { owner_email: "ann@example.com".to_string(), owner_password: "hunter2".to_string() }).unwrap();
    let c = t.create_at(&new_todo("c", 0), at(0)).unwrap();
    assert_eq!(a.id, 1);
    assert_eq!(b.id, 2);
    assert_eq!(c.id, 3);
}

#[test]
fn create_with_clock_sets_creation_time() {
    let mut t = TodoTable::new();
    let made = t.create(&new_todo("now", 1_700_000_000)).unwrap();
    assert!(made.date_time_created.secs > 1_600_000_000);
    assert!(made.date_time_created.nanos < 1_000_000_000);
    assert_eq!(made.date_time_to_complete_task, at(1_700_000_000));
}

#[test]
fn create_with_invalid_timestamp_fails() {
    let mut t = TodoTable::new();
    let r = t.create_at(&new_todo("late", i64::MAX), at(0));
    assert!(matches!(r, Err(TodoError::Validation)));
    let r = t.create_at(&new_todo("early", i64::MIN), at(0));
    assert!(matches!(r, Err(TodoError::Validation)));
    assert_eq!(t.list().len(), 0);
}

#[test]
fn timestamp_range_edges() {
    assert_eq!(due_date(MAX_TIMESTAMP).unwrap(), at(MAX_TIMESTAMP));
    assert_eq!(due_date(MIN_TIMESTAMP).unwrap(), at(MIN_TIMESTAMP));
    assert!(matches!(due_date(MAX_TIMESTAMP + 1), Err(TodoError::Validation)));
    assert!(matches!(due_date(MIN_TIMESTAMP - 1), Err(TodoError::Validation)));
    assert_eq!(due_date(0).unwrap(), at(0));
    assert_eq!(due_date(-86_400).unwrap(), at(-86_400));
}

#[test]
fn update_by_owner_changes_only_note_and_flags() {
    let mut t = TodoTable::new();
    let made = t.create_at(&new_todo("draft", 1_700_000_000), at(1_600_000_000)).unwrap();
    let other = t.create_at(&new_todo("other", 5), at(6)).unwrap();
    let up = t.update(made.id, &owner_update("final", true, true)).unwrap();
    assert_eq!(up.id, made.id);
    assert_eq!(up.note, "final");
    assert!(up.is_started);
    assert!(up.is_finished);
    assert_eq!(up.owner_email, made.owner_email);
    assert_eq!(up.owner_password, made.owner_password);
    assert_eq!(up.date_time_created, made.date_time_created);
    assert_eq!(up.date_time_to_complete_task, made.date_time_to_complete_task);
    let got = t.get(made.id).unwrap();
    assert_eq!(got.note, "final");
    let still = t.get(other.id).unwrap();
    assert_eq!(still.note, "other");
    assert!(!still.is_started);
}

#[test]
fn update_with_wrong_password_is_forbidden() {
    let mut t = TodoTable::new();
    let made = t.create_at(&new_todo("keep", 10), at(20)).unwrap();
    let mut u = owner_update("changed", true, false);
    u.owner_password = "wrong".to_string();
    assert!(matches!(t.update(made.id, &u), Err(TodoError::Forbidden)));
    let got = t.get(made.id).unwrap();
    assert_eq!(got.note, "keep");
    assert!(!got.is_started);
}

#[test]
fn update_with_wrong_email_is_forbidden() {
    let mut t = TodoTable::new();
    let made = t.create_at(&new_todo("keep", 10), at(20)).unwrap();
    let mut u = owner_update("changed", true, false);
    u.owner_email = "Ann@example.com".to_string();
    assert!(matches!(t.update(made.id, &u), Err(TodoError::Forbidden)));
}

#[test]
fn update_missing_id_is_not_found() {
    let mut t = TodoTable::new();
    t.create_at(&new_todo("one", 10), at(20)).unwrap();
    assert!(matches!(t.update(42, &owner_update("x", false, false)), Err(TodoError::NotFound)));
}

#[test]
fn delete_by_owner_removes_row() {
    let mut t = TodoTable::new();
    let made = t.create_at(&new_todo("gone", 10), at(20)).unwrap();
    let keep = t.create_at(&new_todo("kept", 10), at(20)).unwrap();
    let d = TodoDelete { owner_email: "ann@example.com".to_string(), owner_password: "hunter2".to_string() };
    t.delete(made.id, &d).unwrap();
    assert!(matches!(t.get(made.id), Err(TodoError::Internal)));
    assert_eq!(t.get(keep.id).unwrap().note, "kept");
    assert!(matches!(t.delete(made.id, &d), Err(TodoError::NotFound)));
}

#[test]
fn delete_with_wrong_credentials_is_forbidden() {
    let mut t = TodoTable::new();
    let made = t.create_at(&new_todo("stay", 10), at(20)).unwrap();
    let d = TodoDelete { owner_email: "ann@example.com".to_string(), owner_password: "nope".to_string() };
    assert!(matches!(t.delete(made.id, &d), Err(TodoError::Forbidden)));
    assert_eq!(t.list().len(), 1);
}

#[test]
fn reset_then_list_is_empty() {
    let mut t = TodoTable::new();
    t.create_at(&new_todo("a", 1), at(1)).unwrap();
    t.create_at(&new_todo("b", 2), at(2)).unwrap();
    t.reset_all();
    assert!(t.list().is_empty());
    let again = t.create_at(&new_todo("c", 3), at(3)).unwrap();
    assert_eq!(again.id, 3);
}

#[test]
fn list_after_creating_n() {
    let mut t = TodoTable::new();
    for k in 0..5 {
        t.create_at(&new_todo("n", k), at(k)).unwrap();
    }
    let all = t.list();
    assert_eq!(all.len(), 5);
    let ids: Vec<i32> = all.iter().map(|r| r.id).collect();
    assert_eq!(ids, vec![1, 2, 3, 4, 5]);
}

#[test]
fn get_missing_fails() {
    let t = TodoTable::new();
    assert!(matches!(t.get(1), Err(TodoError::Internal)));
    assert!(t.credentials(1).is_none());
}

#[test]
fn credentials_of_a_row() {
    let mut t = TodoTable::new();
    let made = t.create_at(&new_todo("c", 1), at(1)).unwrap();
    let (e, p) = t.credentials(made.id).unwrap();
    assert_eq!(e, "ann@example.com");
    assert_eq!(p, "hunter2");
}

#[test]
fn owner_check_outcomes() {
    let e = "a@b.c".to_string();
    let p = "pw".to_string();
    assert!(matches!(check_owner(&None, &e, &p), Err(TodoError::NotFound)));
    assert!(check_owner(&Some((e.clone(), p.clone())), &e, &p).is_ok());
    assert!(matches!(
        check_owner(&Some((e.clone(), "PW".to_string())), &e, &p),
        Err(TodoError::Forbidden)
    ));
    assert!(matches!(
        check_owner(&Some(("x@b.c".to_string(), p.clone())), &e, &p),
        Err(TodoError::Forbidden)
    ));
}

#[test]
fn prepare_new_fills_defaults() {
    let row = prepare_new(&new_todo("walk", 86_400), at(7)).unwrap();
    assert_eq!(row.note, "walk");
    assert_eq!(row.date_time_created, at(7));
    assert_eq!(row.date_time_to_complete_task, at(86_400));
    assert_eq!(row.owner_email, "ann@example.com");
    assert_eq!(row.owner_password, "hunter2");
    assert!(!row.is_started && !row.is_finished);
    assert!(matches!(prepare_new(&new_todo("x", i64::MAX), at(7)), Err(TodoError::Validation)));
}

#[test]
fn error_messages() {
    assert_eq!(TodoError::Validation.message(), "Invalid timestamp");
    assert_eq!(TodoError::NotFound.message(), "Todo not found");
    assert_eq!(TodoError::Forbidden.message(), "Invalid owner credentials");
    assert_eq!(TodoError::Internal.message(), "Internal error");
}

#[test]
fn duplicate_copies_every_field() {
    let mut t = TodoTable::new();
    let made = t.create_at(&new_todo("dup", 9), at(8)).unwrap();
    let d = made.duplicate();
    assert_eq!(d.id, made.id);
    assert_eq!(d.note, made.note);
    assert_eq!(d.owner_password, made.owner_password);
    assert_eq!(d.date_time_created, made.date_time_created);
}

#[test]
fn deleted_id_stays_gone_after_reset() {
    let mut t = TodoTable::new();
    let made = t.create_at(&new_todo("old", 1), at(1)).unwrap();
    let d = TodoDelete { owner_email: "ann@example.com".to_string(), owner_password: "hunter2".to_string() };
    t.delete(made.id, &d).unwrap();
    t.reset_all();
    let fresh = t.create_at(&new_todo("new", 2), at(2)).unwrap();
    assert_ne!(fresh.id, made.id);
    assert!(matches!(t.get(made.id), Err(TodoError::Internal)));
}

#[test]
fn list_after_creating_at_different_times() {
    let mut t = TodoTable::new();
    t.reset_all();
    for k in 0..3 {
        t.create_at(&new_todo("n", 100), at(1_000 * k)).unwrap();
    }
    let all = t.list();
    assert_eq!(all.len(), 3);
    assert_eq!(all[2].date_time_created, at(2_000));
}
