use vstd::prelude::*;

use crate::error::{bad_request, empty_title, not_found, ErrorView, Operation};
use crate::handlers::{
    create_check, delete_outcome, found_outcome, merge_outcome, stored_outcome, update_check,
    NO_CONTENT,
};
use crate::models::{PatchView, TodoView};
use crate::text::is_blank;

verus! {

/// One row of the `todos` table, without its key.
pub ghost struct Row {
    pub title: Seq<char>,
    pub completed: bool,
}

/// The `todos` table: each id to its row.
pub type Table = Map<i64, Row>;

/// A table the service can be in: finitely many rows, none with a blank title.
pub open spec fn table_wf(t: Table) -> bool {
    &&& t.dom().finite()
    &&& forall|id: i64| t.contains_key(id) ==> !is_blank(#[trigger] t[id].title)
}

pub open spec fn row_of(v: TodoView) -> Row {
    Row { title: v.title, completed: v.completed }
}

/// What `SELECT id, title, completed FROM todos WHERE id = ?` returns.
pub open spec fn lookup(t: Table, id: i64) -> Option<TodoView> {
    if t.contains_key(id) {
        Some(TodoView { id, title: t[id].title, completed: t[id].completed })
    } else {
        None
    }
}

/// Whether `s` is a listing of the whole table, in whatever order: each row
/// exactly once.
pub open spec fn lists(s: Seq<TodoView>, t: Table) -> bool {
    &&& s.len() == t.dom().len()
    &&& forall|i: int, j: int| 0 <= i < j < s.len() ==> s[i].id != s[j].id
    &&& forall|i: int| 0 <= i < s.len() ==> lookup(t, #[trigger] s[i].id) == Some(s[i])
}

/// A create request with the given title on table `t`, where the storage
/// assigns the id `fresh` and the insert succeeds: the table after, and the
/// answer.
pub open spec fn create_request(t: Table, title: Seq<char>, fresh: i64) -> (Table, Result<
    TodoView,
    ErrorView,
>) {
    match create_check(title) {
        Err(e) => (t, Err(e)),
        Ok(x) => {
            let v = TodoView { id: fresh, title: x, completed: false };
            (t.insert(fresh, row_of(v)), stored_outcome(Ok(v), Operation::Create))
        },
    }
}

/// A fetch by id.
pub open spec fn get_request(t: Table, id: i64) -> Result<TodoView, ErrorView> {
    found_outcome(lookup(t, id))
}

/// An update of `id` with a body that parsed to a patch, or did not parse
/// (`Err` with the parser's message), where the write succeeds.
pub open spec fn update_request(t: Table, id: i64, payload: Result<PatchView, Seq<char>>) -> (
    Table,
    Result<TodoView, ErrorView>,
) {
    match update_check(payload) {
        Err(e) => (t, Err(e)),
        Ok(p) => match merge_outcome(lookup(t, id), p) {
            Err(e) => (t, Err(e)),
            Ok(v) => (t.insert(id, row_of(v)), stored_outcome(Ok(v), Operation::Update)),
        },
    }
}

/// A delete of `id`, where the statement succeeds.
pub open spec fn delete_request(t: Table, id: i64) -> (Table, Result<u16, ErrorView>) {
    let removed: u64 = if t.contains_key(id) {
        1
    } else {
        0
    };
    (t.remove(id), delete_outcome(Ok(removed)))
}

/// The table after creating each of `titles` in turn on an empty table, the
/// storage assigning `ids` in the same order.
pub open spec fn created(titles: Seq<Seq<char>>, ids: Seq<i64>) -> Table
    decreases titles.len(),
{
    if titles.len() == 0 || ids.len() == 0 {
        Map::empty()
    } else {
        create_request(created(titles.drop_last(), ids.drop_last()), titles.last(), ids.last()).0
    }
}

/// Creating an item and then fetching it by the id it was given yields the
/// title it was created with, not completed, under that id.
pub proof fn lemma_create_then_get(t: Table, title: Seq<char>, fresh: i64)
    requires
        table_wf(t),
        !is_blank(title),
        !t.contains_key(fresh),
    ensures
        ({
            let (t2, r) = create_request(t, title, fresh);
            let v = TodoView { id: fresh, title, completed: false };
            &&& r == Ok::<TodoView, ErrorView>(v)
            &&& get_request(t2, fresh) == Ok::<TodoView, ErrorView>(v)
            &&& table_wf(t2)
        }),
{
}

/// After an item is deleted, fetching its id answers not-found.
pub proof fn lemma_delete_then_get(t: Table, id: i64)
    ensures
        get_request(delete_request(t, id).0, id) == Err::<TodoView, ErrorView>(not_found()),
{
}

/// A patch that leaves out the title keeps the stored title, one that leaves
/// out `completed` keeps the stored `completed`; each field given is taken.
pub proof fn lemma_partial_update(t: Table, id: i64, p: PatchView)
    requires
        table_wf(t),
        t.contains_key(id),
        p.title matches Some(x) ==> !is_blank(x),
    ensures
        ({
            let (t2, r) = update_request(t, id, Ok(p));
            &&& r matches Ok(v) && v.id == id
                && v.title == (match p.title {
                    Some(x) => x,
                    None => t[id].title,
                })
                && v.completed == (match p.completed {
                    Some(c) => c,
                    None => t[id].completed,
                })
            &&& r matches Ok(v) && get_request(t2, id) == Ok::<TodoView, ErrorView>(v)
        }),
{
}

/// A create whose title is all white space changes nothing and answers 400
/// with "Title cannot be empty".
pub proof fn lemma_blank_title_rejected(t: Table, title: Seq<char>, fresh: i64)
    requires
        is_blank(title),
    ensures
        create_request(t, title, fresh) == (t, Err::<TodoView, ErrorView>(empty_title())),
        empty_title() == (ErrorView { status: 400, detail: "Title cannot be empty"@ }),
{
}

/// Fetching, updating or deleting an id that is not in the table answers 404
/// with "Todo not found", and changes nothing.
pub proof fn lemma_missing_id_not_found(t: Table, id: i64, p: PatchView)
    requires
        !t.contains_key(id),
    ensures
        get_request(t, id) == Err::<TodoView, ErrorView>(not_found()),
        update_request(t, id, Ok(p)) == (t, Err::<TodoView, ErrorView>(not_found())),
        delete_request(t, id).1 == Err::<u16, ErrorView>(not_found()),
        delete_request(t, id).0 == t,
        not_found() == (ErrorView { status: 404, detail: "Todo not found"@ }),
{
    assert(t.remove(id) =~= t);
}

/// Deleting an item that exists answers 204 with no body.
pub proof fn lemma_delete_existing(t: Table, id: i64)
    requires
        t.contains_key(id),
    ensures
        delete_request(t, id) == (t.remove(id), Ok::<u16, ErrorView>(NO_CONTENT)),
{
}

/// A body that did not parse answers 400 with the parser's message, whether
/// or not the id exists, and changes nothing.
pub proof fn lemma_malformed_update(t: Table, id: i64, detail: Seq<char>)
    ensures
        update_request(t, id, Err(detail)) == (t, Err::<TodoView, ErrorView>(bad_request(detail))),
        bad_request(detail).status == 400,
{
}

/// Create, fetch, update of the title alone, fetch: the last fetch shows the
/// new title and the `completed` the item was created with.
pub proof fn lemma_round_trip(t: Table, title: Seq<char>, fresh: i64, x: Seq<char>)
    requires
        table_wf(t),
        !is_blank(title),
        !is_blank(x),
        !t.contains_key(fresh),
    ensures
        ({
            let (t1, r1) = create_request(t, title, fresh);
            let g1 = get_request(t1, fresh);
            let (t2, r2) = update_request(
                t1,
                fresh,
                Ok(PatchView { title: Some(x), completed: None }),
            );
            let g2 = get_request(t2, fresh);
            &&& r1 matches Ok(v1) && g1 == Ok::<TodoView, ErrorView>(v1) && g2 == Ok::<
                TodoView,
                ErrorView,
            >(TodoView { id: fresh, title: x, completed: v1.completed })
        }),
{
    lemma_create_then_get(t, title, fresh);
}

/// An update of an existing item whose patch carries a blank title answers
/// 400 with "Title cannot be empty" and changes nothing.
pub proof fn lemma_blank_update_rejected(t: Table, id: i64, p: PatchView)
    requires
        t.contains_key(id),
        p.title matches Some(x) && is_blank(x),
    ensures
        update_request(t, id, Ok(p)) == (t, Err::<TodoView, ErrorView>(empty_title())),
{
}

/// Doing the same update twice leaves the table and the answer as doing it
/// once.
pub proof fn lemma_update_idempotent(t: Table, id: i64, payload: Result<PatchView, Seq<char>>)
    ensures
        ({
            let (t1, r1) = update_request(t, id, payload);
            let (t2, r2) = update_request(t1, id, payload);
            t2 == t1 && r2 == r1
        }),
{
    let (t1, r1) = update_request(t, id, payload);
    if let Ok(v) = r1 {
        assert(t1.insert(id, row_of(v)) =~= t1);
    }
}

/// After a successful update, a listing shows for the updated id the record
/// the update answered, and for every other id the row it had before.
pub proof fn lemma_list_after_update(
    t: Table,
    id: i64,
    payload: Result<PatchView, Seq<char>>,
    s: Seq<TodoView>,
)
    requires
        table_wf(t),
        update_request(t, id, payload).1 is Ok,
        lists(s, update_request(t, id, payload).0),
    ensures
        s.len() == t.dom().len(),
        forall|i: int|
            0 <= i < s.len() ==> (#[trigger] s[i]).id == id ==> update_request(
                t,
                id,
                payload,
            ).1 == Ok::<TodoView, ErrorView>(s[i]),
        forall|i: int|
            0 <= i < s.len() ==> (#[trigger] s[i]).id != id ==> lookup(t, s[i].id) == Some(s[i]),
{
    let (t1, r1) = update_request(t, id, payload);
    assert(t.contains_key(id));
    assert(t1.dom() =~= t.dom());
}

/// After a successful create, a listing holds the new record once, and every
/// other record as it was before; it is one longer than before.
pub proof fn lemma_list_after_create(t: Table, title: Seq<char>, fresh: i64, s: Seq<TodoView>)
    requires
        table_wf(t),
        !is_blank(title),
        !t.contains_key(fresh),
        lists(s, create_request(t, title, fresh).0),
    ensures
        s.len() == t.dom().len() + 1,
        forall|i: int|
            0 <= i < s.len() ==> (#[trigger] s[i]).id == fresh ==> s[i] == (TodoView {
                id: fresh,
                title,
                completed: false,
            }),
        forall|i: int|
            0 <= i < s.len() ==> (#[trigger] s[i]).id != fresh ==> lookup(t, s[i].id) == Some(
                s[i],
            ),
{
}

/// After a successful delete, a listing no longer holds the deleted id, holds
/// every other record as it was, and is one shorter than before.
pub proof fn lemma_list_after_delete(t: Table, id: i64, s: Seq<TodoView>)
    requires
        table_wf(t),
        t.contains_key(id),
        lists(s, delete_request(t, id).0),
    ensures
        s.len() == t.dom().len() - 1,
        forall|i: int| 0 <= i < s.len() ==> (#[trigger] s[i]).id != id,
        forall|i: int| 0 <= i < s.len() ==> lookup(t, (#[trigger] s[i]).id) == Some(s[i]),
{
}

/// Every request keeps the table free of blank titles.
pub proof fn lemma_requests_keep_table_wf(
    t: Table,
    id: i64,
    title: Seq<char>,
    payload: Result<PatchView, Seq<char>>,
)
    requires
        table_wf(t),
    ensures
        !t.contains_key(id) ==> table_wf(create_request(t, title, id).0),
        table_wf(update_request(t, id, payload).0),
        table_wf(delete_request(t, id).0),
{
}

/// The table after `n` creates on an empty table holds `n` rows, each the
/// row one of those creates made.
proof fn lemma_created_rows(titles: Seq<Seq<char>>, ids: Seq<i64>)
    requires
        titles.len() == ids.len(),
        forall|j: int| 0 <= j < titles.len() ==> !is_blank(#[trigger] titles[j]),
        forall|i: int, j: int| 0 <= i < j < ids.len() ==> ids[i] != ids[j],
    ensures
        ({
            let t = created(titles, ids);
            &&& t.dom().finite()
            &&& t.dom().len() == titles.len()
            &&& forall|k: i64|
                #![trigger t.contains_key(k)]
                t.contains_key(k) <==> exists|j: int| 0 <= j < ids.len() && ids[j] == k
            &&& forall|k: i64|
                #![trigger t.contains_key(k)]
                t.contains_key(k) ==> exists|j: int|
                    0 <= j < ids.len() && ids[j] == k && t[k] == (Row {
                        title: titles[j],
                        completed: false,
                    })
        }),
    decreases titles.len(),
{
    if titles.len() > 0 {
        let n = titles.len() - 1;
        let pt = titles.drop_last();
        let pi = ids.drop_last();
        assert forall|j: int| 0 <= j < pt.len() implies !is_blank(#[trigger] pt[j]) by {
            assert(pt[j] == titles[j]);
        }
        lemma_created_rows(pt, pi);
        let t0 = created(pt, pi);
        let t = created(titles, ids);
        assert(!t0.contains_key(ids.last())) by {
            if t0.contains_key(ids.last()) {
                let j = choose|j: int| 0 <= j < pi.len() && pi[j] == ids.last();
                assert(ids[j] == ids[n]);
            }
        }
        assert(t == t0.insert(ids.last(), Row { title: titles.last(), completed: false }));
        assert forall|k: i64| #![trigger t.contains_key(k)] t.contains_key(k) implies exists|
            j: int,
        |
            0 <= j < ids.len() && ids[j] == k && t[k] == (Row {
                title: titles[j],
                completed: false,
            }) by {
            if k == ids.last() {
                assert(ids[n] == k);
            } else {
                assert(t0.contains_key(k));
                let j = choose|j: int|
                    0 <= j < pi.len() && pi[j] == k && t0[k] == (Row {
                        title: pt[j],
                        completed: false,
                    });
                assert(ids[j] == k && titles[j] == pt[j]);
            }
        }
        assert forall|k: i64| #![trigger t.contains_key(k)] t.contains_key(k) <==> exists|
            j: int,
        |
            0 <= j < ids.len() && ids[j] == k by {
            if exists|j: int| 0 <= j < ids.len() && ids[j] == k {
                let j = choose|j: int| 0 <= j < ids.len() && ids[j] == k;
                if j < n {
                    assert(pi[j] == k);
                }
            }
        }
    }
}

/// Listing after `n` creates on an empty table returns exactly `n` records,
/// each the record one of those creates made.
pub proof fn lemma_list_after_creates(titles: Seq<Seq<char>>, ids: Seq<i64>, s: Seq<TodoView>)
    requires
        titles.len() == ids.len(),
        forall|j: int| 0 <= j < titles.len() ==> !is_blank(#[trigger] titles[j]),
        forall|i: int, j: int| 0 <= i < j < ids.len() ==> ids[i] != ids[j],
        lists(s, created(titles, ids)),
    ensures
        s.len() == titles.len(),
        forall|i: int|
            0 <= i < s.len() ==> exists|j: int|
                0 <= j < ids.len() && #[trigger] s[i] == (TodoView {
                    id: ids[j],
                    title: titles[j],
                    completed: false,
                }),
{
    lemma_created_rows(titles, ids);
    let t = created(titles, ids);
    assert forall|i: int| 0 <= i < s.len() implies exists|j: int|
        0 <= j < ids.len() && #[trigger] s[i] == (TodoView {
            id: ids[j],
            title: titles[j],
            completed: false,
        }) by {
        assert(lookup(t, s[i].id) == Some(s[i]));
        assert(t.contains_key(s[i].id));
    }
}

} // verus!
