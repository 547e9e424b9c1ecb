use vstd::prelude::*;
use crate::model::{CompleteCalendar, ModifyCalendar, NewCalendar, PartialCalendar};

verus! {

/// The calendars table held in memory: rows in insertion order and the id that
/// the next insertion receives.
#[derive(Debug)]
pub struct CalendarTable {
    rows: Vec<CompleteCalendar>,
    next_id: i32,
}

impl CalendarTable {
    /// The rows, in insertion order.
    pub closed spec fn rows(self) -> Seq<CompleteCalendar> {
        self.rows@
    }

    /// The id that the next insertion receives.
    pub closed spec fn next_id(self) -> int {
        self.next_id as int
    }

    /// Ids are positive, unique, and below the next id to hand out.
    pub open spec fn wf(self) -> bool {
        &&& 1 <= self.next_id()
        &&& forall|i: int| 0 <= i < self.rows().len() ==>
            1 <= #[trigger] self.rows()[i].id < self.next_id()
        &&& forall|i: int, j: int|
            0 <= i < self.rows().len() && 0 <= j < self.rows().len() && i != j
                ==> #[trigger] self.rows()[i].id != #[trigger] self.rows()[j].id
    }

    pub open spec fn has_id(self, id: i32) -> bool {
        exists|i: int| 0 <= i < self.rows().len() && #[trigger] self.rows()[i].id == id
    }

    /// `r` is what a lookup of `id` finds: the row with that id, or nothing if none has it.
    pub open spec fn id_lookup(self, id: i32, r: Option<CompleteCalendar>) -> bool {
        match r {
            Some(c) => c.id == id && self.rows().contains(c),
            None => !self.has_id(id),
        }
    }

    /// `r` is what a lookup of `name` finds: a row with exactly that name, or
    /// nothing if none has it.
    pub open spec fn name_lookup(self, name: Seq<char>, r: Option<CompleteCalendar>) -> bool {
        match r {
            Some(c) => c.name@ == name && self.rows().contains(c),
            None => forall|i: int| 0 <= i < self.rows().len() ==> #[trigger] self.rows()[i].name@ != name,
        }
    }

    /// `after` is this table once `new` was inserted under `id`.
    pub open spec fn inserted(self, after: Self, new: NewCalendar, id: i32) -> bool {
        &&& id == self.next_id()
        &&& after.rows() == self.rows().push(new.row(id))
        &&& after.next_id() == self.next_id() + 1
    }

    /// `after` is this table once `changes` were written to the row with `id`,
    /// and `count` the number of rows that matched.
    pub open spec fn updated(self, after: Self, id: i32, changes: ModifyCalendar, count: usize) -> bool {
        &&& after.next_id() == self.next_id()
        &&& after.rows() == self.rows().map_values(
            |c: CompleteCalendar| if c.id == id { changes.applied_to(c) } else { c },
        )
        &&& count == (if self.has_id(id) { 1usize } else { 0usize })
    }

    /// `after` is this table once the row with `id` was removed, and `count` the
    /// number of rows removed.
    pub open spec fn deleted(self, after: Self, id: i32, count: usize) -> bool {
        &&& after.next_id() == self.next_id()
        &&& if self.has_id(id) {
            &&& count == 1
            &&& exists|i: int|
                0 <= i < self.rows().len() && #[trigger] self.rows()[i].id == id
                    && after.rows() == self.rows().remove(i)
        } else {
            count == 0 && after.rows() == self.rows()
        }
    }

    /// An empty table whose first row gets id 1.
    pub fn new() -> (r: CalendarTable)
        ensures
            r.wf(),
            r.rows() == Seq::<CompleteCalendar>::empty(),
            r.next_id() == 1,
    {
        CalendarTable { rows: Vec::new(), next_id: 1 }
    }

    /// The number of rows.
    pub fn len(&self) -> (r: usize)
        ensures
            r == self.rows().len(),
    {
        self.rows.len()
    }

    /// Every row, in the partial view, in insertion order.
    pub fn select_all(&self) -> (r: Vec<PartialCalendar>)
        ensures
            r@ == self.rows().map_values(|c: CompleteCalendar| c.partial_view()),
    {
        let mut out: Vec<PartialCalendar> = Vec::new();
        let mut i: usize = 0;
        while i < self.rows.len()
            invariant
                i <= self.rows@.len(),
                out@ == self.rows@.subrange(0, i as int).map_values(
                    |c: CompleteCalendar| c.partial_view(),
                ),
            decreases self.rows@.len() - i,
        {
            out.push(self.rows[i].to_partial());
            proof {
                assert(self.rows@.subrange(0, i + 1) == self.rows@.subrange(0, i as int).push(
                    self.rows@[i as int],
                ));
            }
            i = i + 1;
            proof {
                assert(out@ =~= self.rows@.subrange(0, i as int).map_values(
                    |c: CompleteCalendar| c.partial_view(),
                ));
            }
        }
        proof {
            assert(self.rows@.subrange(0, i as int) == self.rows@);
        }
        out
    }

    fn position_of(&self, id: i32) -> (r: Option<usize>)
        ensures
            match r {
                Some(i) => i < self.rows().len() && self.rows()[i as int].id == id,
                None => !self.has_id(id),
            },
    {
        let mut i: usize = 0;
        while i < self.rows.len()
            invariant
                i <= self.rows@.len(),
                forall|k: int| 0 <= k < i ==> #[trigger] self.rows@[k].id != id,
            decreases self.rows@.len() - i,
        {
            if self.rows[i].id == id {
                return Some(i);
            }
            i = i + 1;
        }
        None
    }

    /// The row with `id`, if there is one.
    pub fn find_by_id(&self, id: i32) -> (r: Option<CompleteCalendar>)
        ensures
            self.id_lookup(id, r),
    {
        match self.position_of(id) {
            Some(i) => {
                let c = self.rows[i].copied();
                proof {
                    assert(self.rows()[i as int] == c);
                }
                Some(c)
            },
            None => None,
        }
    }

    /// The first row whose name is exactly `name`, if there is one.
    pub fn find_by_name(&self, name: &String) -> (r: Option<CompleteCalendar>)
        ensures
            self.name_lookup(name@, r),
    {
        let mut i: usize = 0;
        while i < self.rows.len()
            invariant
                i <= self.rows@.len(),
                forall|k: int| 0 <= k < i ==> #[trigger] self.rows@[k].name@ != name@,
            decreases self.rows@.len() - i,
        {
            if self.rows[i].name == *name {
                let c = self.rows[i].copied();
                proof {
                    assert(self.rows()[i as int] == c);
                }
                return Some(c);
            }
            i = i + 1;
        }
        None
    }
    /// Inserts `new` under the next id and returns that id. Fails, changing
    /// nothing, once every positive `i32` id has been handed out.
    pub fn insert(&mut self, new: &NewCalendar) -> (r: Result<i32, String>)
        requires
            old(self).wf(),
        ensures
            final(self).wf(),
            match r {
                Ok(id) => old(self).inserted(*final(self), *new, id),
                Err(_) => old(self).next_id() == i32::MAX && *final(self) == *old(self),
            },
            r is Ok <==> old(self).next_id() < i32::MAX,
    {
        if self.next_id == i32::MAX {
            return Err(String::from_str("calendar ids are exhausted"));
        }
        let id = self.next_id;
        let row = CompleteCalendar {
            id,
            name: new.name.clone(),
            description: new.description.clone(),
            created_at: new.created_at,
            updated_at: new.updated_at,
        };
        self.rows.push(row);
        self.next_id = id + 1;
        proof {
            assert(self.rows() == old(self).rows().push(new.row(id)));
            assert forall|i: int, j: int|
                0 <= i < self.rows().len() && 0 <= j < self.rows().len() && i != j
                    implies #[trigger] self.rows()[i].id != #[trigger] self.rows()[j].id by {
                if i < old(self).rows().len() && j < old(self).rows().len() {
                    assert(self.rows()[i] == old(self).rows()[i]);
                    assert(self.rows()[j] == old(self).rows()[j]);
                } else if i < old(self).rows().len() {
                    assert(self.rows()[i] == old(self).rows()[i]);
                } else {
                    assert(self.rows()[j] == old(self).rows()[j]);
                }
            }
            assert forall|i: int| 0 <= i < self.rows().len() implies
                1 <= #[trigger] self.rows()[i].id < self.next_id() by {
                if i < old(self).rows().len() {
                    assert(self.rows()[i] == old(self).rows()[i]);
                }
            }
        }
        Ok(id)
    }

    /// Writes `changes` to the row with `id` and returns how many rows matched.
    pub fn update(&mut self, id: i32, changes: &ModifyCalendar) -> (r: usize)
        requires
            old(self).wf(),
        ensures
            final(self).wf(),
            old(self).updated(*final(self), id, *changes, r),
    {
        let ghost before = self.rows@;
        match self.position_of(id) {
            Some(i) => {
                let row = CompleteCalendar {
                    id,
                    name: changes.name.clone(),
                    description: changes.description.clone(),
                    created_at: self.rows[i].created_at,
                    updated_at: changes.updated_at,
                };
                self.rows.set(i, row);
                proof {
                    assert(self.rows@ =~= before.map_values(
                        |c: CompleteCalendar| if c.id == id { changes.applied_to(c) } else { c },
                    )) by {
                        assert forall|k: int| 0 <= k < before.len() implies self.rows@[k] == (
                        if before[k].id == id { changes.applied_to(before[k]) } else { before[k] }) by {
                            if k != i {
                                assert(before[k].id != before[i as int].id);
                            }
                        }
                    }
                    assert forall|k: int| 0 <= k < self.rows().len() implies
                        #[trigger] self.rows()[k].id == before[k].id by {
                        if k != i {
                            assert(before[k].id != before[i as int].id);
                        }
                    }
                }
                1
            },
            None => {
                proof {
                    assert(self.rows@ =~= before.map_values(
                        |c: CompleteCalendar| if c.id == id { changes.applied_to(c) } else { c },
                    )) by {
                        assert forall|k: int| 0 <= k < before.len() implies before[k].id != id by {
                            if before[k].id == id {
                                assert(self.rows()[k].id == id);
                            }
                        }
                    }
                }
                0
            },
        }
    }

    /// Removes the row with `id` and returns how many rows were removed.
    pub fn delete(&mut self, id: i32) -> (r: usize)
        requires
            old(self).wf(),
        ensures
            final(self).wf(),
            old(self).deleted(*final(self), id, r),
    {
        let ghost before = self.rows@;
        match self.position_of(id) {
            Some(i) => {
                let _removed = self.rows.remove(i);
                proof {
                    assert(old(self).rows()[i as int].id == id);
                    assert forall|k: int| 0 <= k < self.rows().len() implies
                        #[trigger] self.rows()[k] == before[if k < i { k } else { k + 1 }] by {}
                    assert forall|a: int, b: int|
                        0 <= a < self.rows().len() && 0 <= b < self.rows().len() && a != b
                            implies #[trigger] self.rows()[a].id != #[trigger] self.rows()[b].id by {
                        assert(self.rows()[a] == before[if a < i { a } else { a + 1 }]);
                        assert(self.rows()[b] == before[if b < i { b } else { b + 1 }]);
                    }
                    assert forall|a: int| 0 <= a < self.rows().len() implies
                        1 <= #[trigger] self.rows()[a].id < self.next_id() by {
                        assert(self.rows()[a] == before[if a < i { a } else { a + 1 }]);
                    }
                }
                1
            },
            None => 0,
        }
    }
}

} // verus!
