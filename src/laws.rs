use vstd::prelude::*;
use crate::handlers::{by_id_response, is_list_response, lookup_response, Response};
use crate::model::{CompleteCalendar, ModifyCalendar, NewCalendar, PartialCalendar};
use crate::table::CalendarTable;

verus! {

/// Ids are never reused: an insertion's id belongs to no row present, and a
/// later insertion, after any operations that keep the next id from going
/// back, gets a larger id.
pub proof fn lemma_create_ids_never_reused(
    t0: CalendarTable,
    t1: CalendarTable,
    first: NewCalendar,
    first_id: i32,
    t2: CalendarTable,
    t3: CalendarTable,
    second: NewCalendar,
    second_id: i32,
)
    requires
        t0.wf(),
        t0.inserted(t1, first, first_id),
        t1.next_id() <= t2.next_id(),
        t2.wf(),
        t2.inserted(t3, second, second_id),
    ensures
        first_id < second_id,
        forall|i: int| 0 <= i < t0.rows().len() ==> #[trigger] t0.rows()[i].id != first_id,
        forall|i: int| 0 <= i < t2.rows().len() ==> #[trigger] t2.rows()[i].id != second_id,
{
}

/// A created row has equal creation and update times, given an insertion
/// stamped with one instant.
pub proof fn lemma_created_stamps_equal(
    t0: CalendarTable,
    t1: CalendarTable,
    new: NewCalendar,
    id: i32,
    found: CompleteCalendar,
)
    requires
        t0.wf(),
        t1.wf(),
        t0.inserted(t1, new, id),
        new.created_at == new.updated_at,
        t1.id_lookup(id, Some(found)),
    ensures
        found.created_at == found.updated_at,
        found == new.row(id),
{
    let k = choose|k: int| 0 <= k < t1.rows().len() && t1.rows()[k] == found;
    let last = t1.rows().len() - 1;
    assert(t1.rows()[last].id == id);
    if k != last {
        assert(t1.rows()[k].id != t1.rows()[last].id);
    }
}

/// An update stamped later than a row's last update moves its update time
/// forward and keeps its id and creation time.
pub proof fn lemma_update_advances_stamp(
    t0: CalendarTable,
    t1: CalendarTable,
    id: i32,
    changes: ModifyCalendar,
    count: usize,
    before: CompleteCalendar,
    after: CompleteCalendar,
)
    requires
        t0.wf(),
        t1.wf(),
        t0.updated(t1, id, changes, count),
        t0.id_lookup(id, Some(before)),
        t1.id_lookup(id, Some(after)),
        changes.updated_at.micros > before.updated_at.micros,
    ensures
        after.updated_at.micros > before.updated_at.micros,
        after.created_at == before.created_at,
        after.id == before.id,
        count == 1,
{
    let j = choose|j: int| 0 <= j < t0.rows().len() && t0.rows()[j] == before;
    let k = choose|k: int| 0 <= k < t1.rows().len() && t1.rows()[k] == after;
    assert(t1.rows()[k] == (if t0.rows()[k].id == id { changes.applied_to(t0.rows()[k]) } else {
        t0.rows()[k]
    }));
    if t0.rows()[k].id != id {
        assert(t1.rows()[k] == t0.rows()[k]);
    }
    if j != k {
        assert(t0.rows()[j].id != t0.rows()[k].id);
    }
    assert(t0.rows()[j].id == id);
}

/// Looking a row up by id and by name gives the same fields when both find
/// the same row.
pub proof fn lemma_id_and_name_lookups_agree(
    t: CalendarTable,
    id: i32,
    name: Seq<char>,
    by_id: CompleteCalendar,
    by_name: CompleteCalendar,
)
    requires
        t.wf(),
        t.id_lookup(id, Some(by_id)),
        t.name_lookup(name, Some(by_name)),
        by_name.id == id,
    ensures
        by_id == by_name,
        lookup_response(Ok(Some(by_id))) == lookup_response(Ok(Some(by_name))),
{
    let j = choose|j: int| 0 <= j < t.rows().len() && t.rows()[j] == by_id;
    let k = choose|k: int| 0 <= k < t.rows().len() && t.rows()[k] == by_name;
    if j != k {
        assert(t.rows()[j].id != t.rows()[k].id);
    }
}

/// After a row is deleted, looking its id up finds nothing and answers 404.
pub proof fn lemma_deleted_is_not_found(
    t0: CalendarTable,
    t1: CalendarTable,
    id: i32,
    count: usize,
    found: Option<CompleteCalendar>,
)
    requires
        t0.wf(),
        t0.deleted(t1, id, count),
        t1.id_lookup(id, found),
    ensures
        found is None,
        lookup_response(Ok(found)) == Response::NotFound,
        lookup_response(Ok(found)).status_spec() == 404,
{
    if t0.has_id(id) {
        let i = choose|i: int|
            0 <= i < t0.rows().len() && #[trigger] t0.rows()[i].id == id && t1.rows() == t0.rows().remove(i);
        if t1.has_id(id) {
            let k = choose|k: int| 0 <= k < t1.rows().len() && #[trigger] t1.rows()[k].id == id;
            let src = if k < i { k } else { k + 1 };
            assert(t1.rows()[k] == t0.rows()[src]);
            assert(t0.rows()[src].id != t0.rows()[i].id);
        }
    }
    match found {
        Some(c) => {
            let k = choose|k: int| 0 <= k < t1.rows().len() && t1.rows()[k] == c;
            assert(t1.rows()[k].id == id);
        },
        None => {},
    }
}

/// A listing answers with every row present, in the partial view; an empty
/// table answers with an empty array.
pub proof fn lemma_list_every_row(t: CalendarTable, listed: Vec<PartialCalendar>, r: Response)
    requires
        listed@ == t.rows().map_values(|c: CompleteCalendar| c.partial_view()),
        is_list_response(Ok(Some(listed)), r),
    ensures
        r is Listing,
        r.status_spec() == 200,
        r->Listing_0@.len() == t.rows().len(),
        forall|i: int| 0 <= i < t.rows().len() ==> r->Listing_0@[i] == (#[trigger] t.rows()[i]).partial_view(),
        t.rows().len() == 0 ==> r->Listing_0@ == Seq::<PartialCalendar>::empty(),
{
    if t.rows().len() == 0 {
        assert(r->Listing_0@ =~= Seq::<PartialCalendar>::empty());
    }
}

/// An update of an id that no row has answers 404 and leaves the table as it was.
pub proof fn lemma_update_missing_changes_nothing(
    t0: CalendarTable,
    t1: CalendarTable,
    id: i32,
    changes: ModifyCalendar,
    count: usize,
)
    requires
        t0.wf(),
        t0.updated(t1, id, changes, count),
        !t0.has_id(id),
    ensures
        t1.rows() == t0.rows(),
        t1.next_id() == t0.next_id(),
        count == 0,
        by_id_response(Ok(Some(count))) == Response::NotFound,
{
    assert forall|k: int| 0 <= k < t0.rows().len() implies t1.rows()[k] == t0.rows()[k] by {
        if t0.rows()[k].id == id {
            assert(t0.has_id(id));
        }
    }
    assert(t1.rows() =~= t0.rows());
}

} // verus!
