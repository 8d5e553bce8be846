use crate::owner::credentials_match;
use crate::record::{TodoDelete, TodoError, TodoNew, TodoUpdate};
use crate::table::{TableView, MAX_ID};
use crate::time::{timestamp_in_range, DateTime};
use vstd::prelude::*;

verus! {

/// Ids rise along the rows, so the row found at `i` is the one `index_of` picks.
pub(crate) proof fn lemma_index_of(t: TableView, i: int, id: int)
    requires
        t.wf(),
        0 <= i < t.rows.len(),
        t.rows[i].id == id,
    ensures
        t.has(id),
        t.index_of(id) == i,
        t.lookup(id) == Some(t.rows[i]),
{
    assert(t.rows[i].id == id);
    let j = t.index_of(id);
    if j < i {
        assert(t.rows[j].id < t.rows[i].id);
    } else if i < j {
        assert(t.rows[i].id < t.rows[j].id);
    }
}

/// Creating a row keeps the table well formed: the new id is above every other.
proof fn lemma_create_wf(t: TableView, new: TodoNew, now: DateTime)
    requires
        t.wf(),
    ensures
        t.create(new, now).wf(),
{
}

/// Removing the row at `i` keeps the table well formed, and leaves no id that was
/// not there before; the removed row's id is gone.
pub(crate) proof fn lemma_remove_keeps_wf(t: TableView, i: int)
    requires
        t.wf(),
        0 <= i < t.rows.len(),
    ensures
        (TableView { rows: t.rows.remove(i), next_id: t.next_id }).wf(),
        !(TableView { rows: t.rows.remove(i), next_id: t.next_id }).has(t.rows[i].id),
        forall|k: int|
            #[trigger] (TableView { rows: t.rows.remove(i), next_id: t.next_id }).has(k) ==> t.has(k),
{
    let after = TableView { rows: t.rows.remove(i), next_id: t.next_id };
    assert forall|a: int, b: int| 0 <= a < b < after.rows.len() implies #[trigger] after.rows[a].id
        < #[trigger] after.rows[b].id by {
        let a0 = if a < i { a } else { a + 1 };
        let b0 = if b < i { b } else { b + 1 };
        assert(t.rows[a0].id < t.rows[b0].id);
    }
    assert forall|a: int| 0 <= a < after.rows.len() implies 1 <= #[trigger] after.rows[a].id
        < after.next_id by {
        let a0 = if a < i { a } else { a + 1 };
        assert(after.rows[a] == t.rows[a0]);
    }
    assert forall|k: int| #[trigger] after.has(k) implies t.has(k) by {
        let j = choose|j: int| 0 <= j < after.rows.len() && #[trigger] after.rows[j].id == k;
        let j0 = if j < i { j } else { j + 1 };
        assert(after.rows[j] == t.rows[j0]);
    }
    if after.has(t.rows[i].id) {
        let j = choose|j: int| 0 <= j < after.rows.len() && #[trigger] after.rows[j].id == t.rows[i].id;
        let j0 = if j < i { j } else { j + 1 };
        assert(after.rows[j] == t.rows[j0]);
        if j0 < i {
            assert(t.rows[j0].id < t.rows[i].id);
        } else {
            assert(t.rows[i].id < t.rows[j0].id);
        }
    }
}

/// Applying each creation in turn, from first to last, the k-th at time `nows[k]`.
pub open spec fn create_all(t: TableView, news: Seq<TodoNew>, nows: Seq<DateTime>) -> TableView
    decreases news.len(),
{
    if news.len() == 0 {
        t
    } else {
        create_all(t.create(news[0], nows[0]), news.drop_first(), nows.drop_first())
    }
}

/// Creating a row with a valid timestamp, then looking up the id it was given,
/// finds that row: the caller's note and owner pair, neither flag set, and an
/// id that is positive and above every id in the table before.
pub proof fn lemma_create_then_get(t: TableView, new: TodoNew, now: DateTime)
    requires
        t.wf(),
        timestamp_in_range(new.date_time_to_complete_task_timestamp as int),
        t.next_id <= MAX_ID,
    ensures
        t.create_error(new) is None,
        t.create(new, now).wf(),
        t.create(new, now).lookup(t.next_id) == Some(t.created(new, now)),
        t.created(new, now).id >= 1,
        t.created(new, now).note == new.note@,
        t.created(new, now).owner_email == new.owner_email@,
        t.created(new, now).owner_password == new.owner_password@,
        !t.created(new, now).is_started,
        !t.created(new, now).is_finished,
        !t.has(t.created(new, now).id),
        forall|i: int| 0 <= i < t.rows.len() ==> #[trigger] t.rows[i].id < t.created(new, now).id,
{
    let after = t.create(new, now);
    lemma_create_wf(t, new, now);
    assert(after.rows[t.rows.len() as int] == t.created(new, now));
    lemma_index_of(after, t.rows.len() as int, t.next_id);
    if t.has(t.next_id) {
        let i = choose|i: int| 0 <= i < t.rows.len() && #[trigger] t.rows[i].id == t.next_id;
        assert(t.rows[i].id < t.next_id);
    }
}

/// Creating a row from a timestamp with no calendar date-time fails as invalid
/// and leaves the table as it was.
pub proof fn lemma_create_invalid_timestamp(t: TableView, new: TodoNew, now: DateTime)
    requires
        !timestamp_in_range(new.date_time_to_complete_task_timestamp as int),
    ensures
        t.create_error(new) == Some(TodoError::Validation),
        t.create(new, now) == t,
{
}

/// An update by the row's owner changes its note and both flags to the new
/// values and nothing else: not its id, owner pair or date-times, and no other row.
pub proof fn lemma_update_by_owner(t: TableView, id: int, u: TodoUpdate)
    requires
        t.wf(),
        t.has(id),
        credentials_match(
            t.lookup(id)->Some_0.owner_email,
            t.lookup(id)->Some_0.owner_password,
            u.owner_email@,
            u.owner_password@,
        ),
    ensures
        t.update_error(id, u) is None,
        t.update(id, u).wf(),
        t.update(id, u).lookup(id) matches Some(row) && {
            let before = t.lookup(id)->Some_0;
            &&& row.id == id
            &&& row.note == u.note@
            &&& row.is_started == u.is_started
            &&& row.is_finished == u.is_finished
            &&& row.owner_email == before.owner_email
            &&& row.owner_password == before.owner_password
            &&& row.date_time_created == before.date_time_created
            &&& row.date_time_to_complete_task == before.date_time_to_complete_task
        },
        forall|k: int| k != id ==> #[trigger] t.update(id, u).lookup(k) == t.lookup(k),
{
    let i = t.index_of(id);
    let after = t.update(id, u);
    lemma_index_of(t, i, id);
    assert(after.wf()) by {
        assert forall|a: int| 0 <= a < after.rows.len() implies #[trigger] after.rows[a].id
            == t.rows[a].id by {}
    }
    lemma_index_of(after, i, id);
    assert forall|k: int| k != id implies #[trigger] after.lookup(k) == t.lookup(k) by {
        if t.has(k) {
            let j = t.index_of(k);
            lemma_index_of(t, j, k);
            assert(after.rows[j] == t.rows[j]);
            lemma_index_of(after, j, k);
        } else if after.has(k) {
            let j = choose|j: int| 0 <= j < after.rows.len() && #[trigger] after.rows[j].id == k;
            assert(after.rows[j].id == t.rows[j].id);
        }
    }
}

/// An update whose email is the owner's but whose password is not is forbidden,
/// and leaves the table as it was.
pub proof fn lemma_update_wrong_password(t: TableView, id: int, u: TodoUpdate)
    requires
        t.has(id),
        u.owner_email@ == t.lookup(id)->Some_0.owner_email,
        u.owner_password@ != t.lookup(id)->Some_0.owner_password,
    ensures
        t.update_error(id, u) == Some(TodoError::Forbidden),
        t.update(id, u) == t,
{
}

/// An update of an id that no row has is not found, and leaves the table as it was.
pub proof fn lemma_update_missing(t: TableView, id: int, u: TodoUpdate)
    requires
        !t.has(id),
    ensures
        t.update_error(id, u) == Some(TodoError::NotFound),
        t.update(id, u) == t,
{
}

/// A delete by the row's owner removes the row: looking up its id then finds nothing.
pub proof fn lemma_delete_then_get(t: TableView, id: int, d: TodoDelete)
    requires
        t.wf(),
        t.has(id),
        credentials_match(
            t.lookup(id)->Some_0.owner_email,
            t.lookup(id)->Some_0.owner_password,
            d.owner_email@,
            d.owner_password@,
        ),
    ensures
        t.delete_error(id, d) is None,
        t.delete(id, d).wf(),
        t.delete(id, d).lookup(id) is None,
{
    let i = t.index_of(id);
    lemma_index_of(t, i, id);
    lemma_remove_keeps_wf(t, i);
}

/// After a reset the table holds no rows, so listing it gives nothing; the next
/// id is kept, so no id handed out before comes back.
pub proof fn lemma_reset_then_list(t: TableView)
    requires
        t.wf(),
    ensures
        t.reset().wf(),
        t.reset().rows.len() == 0,
        t.reset().next_id == t.next_id,
{
}

/// No operation lowers the next id, and every row's id lies below it, so an id
/// once handed out is never handed out again.
pub proof fn lemma_next_id_never_falls(
    t: TableView,
    new: TodoNew,
    now: DateTime,
    id: int,
    u: TodoUpdate,
    d: TodoDelete,
)
    ensures
        t.create(new, now).next_id >= t.next_id,
        t.create_error(new) is None ==> t.create(new, now).next_id == t.created(new, now).id + 1,
        t.update(id, u).next_id == t.next_id,
        t.delete(id, d).next_id == t.next_id,
        t.reset().next_id == t.next_id,
{
}

/// Creating rows from `news`, the k-th at time `nows[k]`, each with a valid
/// timestamp and while ids remain, adds exactly one row per creation: from an
/// empty table, listing gives as many rows as were created.
pub proof fn lemma_create_count(t: TableView, news: Seq<TodoNew>, nows: Seq<DateTime>)
    requires
        t.wf(),
        nows.len() == news.len(),
        forall|k: int|
            0 <= k < news.len() ==> timestamp_in_range(
                #[trigger] news[k].date_time_to_complete_task_timestamp as int,
            ),
        t.next_id + news.len() <= MAX_ID + 1,
    ensures
        create_all(t, news, nows).wf(),
        create_all(t, news, nows).rows.len() == t.rows.len() + news.len(),
    decreases news.len(),
{
    if news.len() > 0 {
        let next = t.create(news[0], nows[0]);
        lemma_create_wf(t, news[0], nows[0]);
        assert forall|k: int| 0 <= k < news.drop_first().len() implies timestamp_in_range(
            #[trigger] news.drop_first()[k].date_time_to_complete_task_timestamp as int,
        ) by {
            assert(news.drop_first()[k] == news[k + 1]);
        }
        lemma_create_count(next, news.drop_first(), nows.drop_first());
    }
}

/// One call on the table, as a caller makes it.
pub enum Call {
    Create(TodoNew, DateTime),
    Update(int, TodoUpdate),
    Delete(int, TodoDelete),
    Reset,
}

/// The table after one call.
pub open spec fn apply(t: TableView, c: Call) -> TableView {
    match c {
        Call::Create(new, now) => t.create(new, now),
        Call::Update(id, u) => t.update(id, u),
        Call::Delete(id, d) => t.delete(id, d),
        Call::Reset => t.reset(),
    }
}

/// The table after every call in turn, from first to last.
pub open spec fn run(t: TableView, calls: Seq<Call>) -> TableView
    decreases calls.len(),
{
    if calls.len() == 0 {
        t
    } else {
        run(apply(t, calls[0]), calls.drop_first())
    }
}

/// The ids that the successful creations among `calls` hand out, in order.
pub open spec fn issued(t: TableView, calls: Seq<Call>) -> Seq<int>
    decreases calls.len(),
{
    if calls.len() == 0 {
        Seq::empty()
    } else {
        let head = match calls[0] {
            Call::Create(new, now) => if t.create_error(new) is None {
                seq![t.next_id]
            } else {
                Seq::empty()
            },
            _ => Seq::empty(),
        };
        head + issued(apply(t, calls[0]), calls.drop_first())
    }
}

/// One call keeps the table well formed, never lowers the next id, and brings
/// back no id below the old next id that the table did not hold.
proof fn lemma_call_step(t: TableView, c: Call)
    requires
        t.wf(),
    ensures
        apply(t, c).wf(),
        apply(t, c).next_id >= t.next_id,
        forall|k: int| k < t.next_id && #[trigger] apply(t, c).has(k) ==> t.has(k),
{
    let after = apply(t, c);
    match c {
        Call::Create(new, now) => {
            lemma_create_wf(t, new, now);
            assert forall|k: int| k < t.next_id && #[trigger] after.has(k) implies t.has(k) by {
                let j = choose|j: int| 0 <= j < after.rows.len() && #[trigger] after.rows[j].id == k;
                if t.create_error(new) is None {
                    assert(j < t.rows.len());
                    assert(after.rows[j] == t.rows[j]);
                }
            }
        },
        Call::Update(id, u) => {
            if t.update_error(id, u) is None {
                lemma_update_by_owner(t, id, u);
                assert forall|k: int| k < t.next_id && #[trigger] after.has(k) implies t.has(k) by {
                    let j = choose|j: int| 0 <= j < after.rows.len() && #[trigger] after.rows[j].id == k;
                    assert(after.rows[j].id == t.rows[j].id);
                }
            }
        },
        Call::Delete(id, d) => {
            if t.delete_error(id, d) is None {
                lemma_remove_keeps_wf(t, t.index_of(id));
            }
        },
        Call::Reset => {},
    }
}

/// Over any sequence of calls, resets included, the table stays well formed,
/// the next id never falls, and every id handed out lies below it.
proof fn lemma_run(t: TableView, calls: Seq<Call>)
    requires
        t.wf(),
    ensures
        run(t, calls).wf(),
        run(t, calls).next_id >= t.next_id,
        forall|j: int| 0 <= j < issued(t, calls).len() ==> #[trigger] issued(t, calls)[j] < run(t, calls).next_id,
    decreases calls.len(),
{
    if calls.len() > 0 {
        let t1 = apply(t, calls[0]);
        lemma_call_step(t, calls[0]);
        lemma_run(t1, calls.drop_first());
        let rest = issued(t1, calls.drop_first());
        let all = issued(t, calls);
        assert forall|j: int| 0 <= j < all.len() implies #[trigger] all[j] < run(t, calls).next_id by {
            let head = all.len() - rest.len();
            if j >= head {
                assert(all[j] == rest[j - head]);
            } else {
                assert(all[j] == t.next_id);
                assert(t1.next_id == t.next_id + 1);
            }
        }
    }
}

/// After any sequence of calls, resets included, a successful creation hands
/// out an id that no earlier creation in the sequence handed out, that no row
/// held at its start, and that no row holds now.
pub proof fn lemma_ids_never_reused(t: TableView, calls: Seq<Call>, new: TodoNew, now: DateTime)
    requires
        t.wf(),
        run(t, calls).create_error(new) is None,
    ensures
        run(t, calls).created(new, now).id >= 1,
        forall|j: int|
            0 <= j < issued(t, calls).len() ==> #[trigger] issued(t, calls)[j] < run(t, calls).created(
                new,
                now,
            ).id,
        forall|i: int| 0 <= i < t.rows.len() ==> #[trigger] t.rows[i].id < run(t, calls).created(new, now).id,
        !run(t, calls).has(run(t, calls).created(new, now).id),
{
    let last = run(t, calls);
    lemma_run(t, calls);
    if last.has(last.next_id) {
        let i = choose|i: int| 0 <= i < last.rows.len() && #[trigger] last.rows[i].id == last.next_id;
        assert(last.rows[i].id < last.next_id);
    }
}

/// No call brings back an id below the next id that the table does not hold.
proof fn lemma_absent_stays_absent(t: TableView, calls: Seq<Call>, id: int)
    requires
        t.wf(),
        id < t.next_id,
        !t.has(id),
    ensures
        !run(t, calls).has(id),
    decreases calls.len(),
{
    if calls.len() > 0 {
        lemma_call_step(t, calls[0]);
        lemma_absent_stays_absent(apply(t, calls[0]), calls.drop_first(), id);
    }
}

/// A row that its owner deleted stays gone: after any later calls, resets
/// included, looking up its id finds nothing.
pub proof fn lemma_deleted_stays_gone(t: TableView, id: int, d: TodoDelete, calls: Seq<Call>)
    requires
        t.wf(),
        t.has(id),
        credentials_match(
            t.lookup(id)->Some_0.owner_email,
            t.lookup(id)->Some_0.owner_password,
            d.owner_email@,
            d.owner_password@,
        ),
    ensures
        run(t.delete(id, d), calls).lookup(id) is None,
{
    lemma_delete_then_get(t, id, d);
    let i = t.index_of(id);
    lemma_index_of(t, i, id);
    lemma_absent_stays_absent(t.delete(id, d), calls, id);
}

} // verus!
