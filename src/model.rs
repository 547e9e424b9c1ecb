use vstd::prelude::*;

verus! {

/// A point in time, as microseconds since the Unix epoch (UTC).
#[derive(Clone, Copy, Debug, PartialEq, Eq, Structural)]
pub struct Timestamp {
    pub micros: i64,
}

/// The complete view of a calendar: every column of its row.
#[derive(Clone, Debug, PartialEq, Eq)]
pub struct CompleteCalendar {
    pub id: i32,
    pub name: String,
    pub description: String,
    pub created_at: Timestamp,
    pub updated_at: Timestamp,
}

/// The partial view of a calendar, used for listings.
#[derive(Clone, Debug, PartialEq, Eq)]
pub struct PartialCalendar {
    pub id: i32,
    pub name: String,
}

/// The body of a create request.
#[derive(Clone, Debug, PartialEq, Eq)]
pub struct NewCalendarRequest {
    pub name: String,
    pub description: String,
}

/// The body of an update request: a full replacement of both fields.
#[derive(Clone, Debug, PartialEq, Eq)]
pub struct ModifyCalendarRequest {
    pub name: String,
    pub description: String,
}

/// A row ready for insertion: the request's fields and the server's stamps.
#[derive(Clone, Debug, PartialEq, Eq)]
pub struct NewCalendar {
    pub name: String,
    pub description: String,
    pub created_at: Timestamp,
    pub updated_at: Timestamp,
}

/// The changes an update writes to a row.
#[derive(Clone, Debug, PartialEq, Eq)]
pub struct ModifyCalendar {
    pub name: String,
    pub description: String,
    pub updated_at: Timestamp,
}

impl CompleteCalendar {
    pub open spec fn partial_view(self) -> PartialCalendar {
        PartialCalendar { id: self.id, name: self.name }
    }

    /// Projects the row to its partial view.
    pub fn to_partial(&self) -> (r: PartialCalendar)
        ensures
            r == self.partial_view(),
    {
        PartialCalendar { id: self.id, name: self.name.clone() }
    }

    /// A field-by-field copy of the row.
    pub fn copied(&self) -> (r: CompleteCalendar)
        ensures
            r == *self,
    {
        CompleteCalendar {
            id: self.id,
            name: self.name.clone(),
            description: self.description.clone(),
            created_at: self.created_at,
            updated_at: self.updated_at,
        }
    }
}

impl NewCalendarRequest {
    pub fn new(name: String, description: String) -> (r: NewCalendarRequest)
        ensures
            r.name == name,
            r.description == description,
    {
        NewCalendarRequest { name, description }
    }
}

impl ModifyCalendarRequest {
    pub fn new(name: String, description: String) -> (r: ModifyCalendarRequest)
        ensures
            r.name == name,
            r.description == description,
    {
        ModifyCalendarRequest { name, description }
    }
}

impl NewCalendar {
    /// The row this insertion creates under the given id.
    pub open spec fn row(self, id: i32) -> CompleteCalendar {
        CompleteCalendar {
            id,
            name: self.name,
            description: self.description,
            created_at: self.created_at,
            updated_at: self.updated_at,
        }
    }

    /// Stamps a create request with one instant for both timestamps.
    pub fn stamped(request: &NewCalendarRequest, now: Timestamp) -> (r: NewCalendar)
        ensures
            r.name == request.name,
            r.description == request.description,
            r.created_at == now,
            r.updated_at == now,
    {
        NewCalendar {
            name: request.name.clone(),
            description: request.description.clone(),
            created_at: now,
            updated_at: now,
        }
    }
}

impl ModifyCalendar {
    /// The row after these changes are written to `row`: id and creation time stay.
    pub open spec fn applied_to(self, row: CompleteCalendar) -> CompleteCalendar {
        CompleteCalendar {
            id: row.id,
            name: self.name,
            description: self.description,
            created_at: row.created_at,
            updated_at: self.updated_at,
        }
    }

    /// Stamps an update request with the instant of the update.
    pub fn stamped(request: &ModifyCalendarRequest, now: Timestamp) -> (r: ModifyCalendar)
        ensures
            r.name == request.name,
            r.description == request.description,
            r.updated_at == now,
    {
        ModifyCalendar {
            name: request.name.clone(),
            description: request.description.clone(),
            updated_at: now,
        }
    }
}

} // verus!
