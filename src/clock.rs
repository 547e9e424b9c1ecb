use vstd::prelude::*;
use crate::model::{ModifyCalendar, ModifyCalendarRequest, NewCalendar, NewCalendarRequest, Timestamp};

verus! {

/// Relies on chrono::Utc::now, read as microseconds since the epoch: the current
/// UTC time, which chrono never reports before the epoch.
#[verifier::external_body]
fn now() -> (r: Timestamp)
    ensures
        r.micros >= 0,
{
    Timestamp { micros: chrono::Utc::now().timestamp_micros() }
}

/// The row a create request inserts, stamped with the current time: one instant
/// serves as both the creation and the update time.
pub fn new_calendar(request: &NewCalendarRequest) -> (r: NewCalendar)
    ensures
        r.name == request.name,
        r.description == request.description,
        r.created_at == r.updated_at,
        r.created_at.micros >= 0,
{
    NewCalendar::stamped(request, now())
}

/// The changes an update request writes, stamped with the current time.
pub fn modify_calendar(request: &ModifyCalendarRequest) -> (r: ModifyCalendar)
    ensures
        r.name == request.name,
        r.description == request.description,
        r.updated_at.micros >= 0,
{
    ModifyCalendar::stamped(request, now())
}

} // verus!
