use vstd::prelude::*;
use crate::model::{CompleteCalendar, PartialCalendar};

verus! {

/// What a handler answers: a status with its body.
#[derive(Clone, Debug, PartialEq, Eq)]
pub enum Response {
    /// 200 with a JSON array of partial views.
    Listing(Vec<PartialCalendar>),
    /// 200 with the complete view of one calendar.
    Found(CompleteCalendar),
    /// 201 with an empty body.
    Created,
    /// 200 with an empty body.
    Done,
    /// 404 with an empty body.
    NotFound,
    /// 500, with the storage error's text as a JSON string when there is one.
    ServerError(Option<String>),
}

impl Response {
    pub open spec fn status_spec(self) -> u16 {
        match self {
            Response::Listing(_) => 200,
            Response::Found(_) => 200,
            Response::Created => 201,
            Response::Done => 200,
            Response::NotFound => 404,
            Response::ServerError(_) => 500,
        }
    }

    /// The HTTP status code of the response.
    pub fn status(&self) -> (r: u16)
        ensures
            r == self.status_spec(),
    {
        match self {
            Response::Listing(_) => 200,
            Response::Found(_) => 200,
            Response::Created => 201,
            Response::Done => 200,
            Response::NotFound => 404,
            Response::ServerError(_) => 500,
        }
    }
}

/// Whether `r` answers a listing, given what the query loaded: the loaded rows in
/// their order, an empty array when nothing was loaded, 500 on an error.
pub open spec fn is_list_response(
    outcome: Result<Option<Vec<PartialCalendar>>, String>,
    r: Response,
) -> bool {
    match outcome {
        Ok(Some(rows)) => r == Response::Listing(rows),
        Ok(None) => r is Listing && r->Listing_0@ == Seq::<PartialCalendar>::empty(),
        Err(e) => r == Response::ServerError(Some(e)),
    }
}

/// The answer to a single-record lookup, given what the query found.
pub open spec fn lookup_response(outcome: Result<Option<CompleteCalendar>, String>) -> Response {
    match outcome {
        Ok(Some(row)) => Response::Found(row),
        Ok(None) => Response::NotFound,
        Err(e) => Response::ServerError(Some(e)),
    }
}

/// The answer to an insertion, given the statement's row count.
pub open spec fn create_response(outcome: Result<Option<usize>, String>) -> Response {
    match outcome {
        Ok(Some(_)) => Response::Created,
        Ok(None) => Response::ServerError(None),
        Err(e) => Response::ServerError(Some(e)),
    }
}

/// The answer to an update or a deletion by id, given the statement's row count.
pub open spec fn by_id_response(outcome: Result<Option<usize>, String>) -> Response {
    match outcome {
        Ok(Some(count)) => if count > 0 { Response::Done } else { Response::NotFound },
        Ok(None) => Response::NotFound,
        Err(e) => Response::ServerError(Some(e)),
    }
}

/// Answers a listing: every loaded row in the partial view; nothing loaded is an empty array.
pub fn list_calendars(outcome: Result<Option<Vec<PartialCalendar>>, String>) -> (r: Response)
    ensures
        is_list_response(outcome, r),
{
    match outcome {
        Ok(Some(rows)) => Response::Listing(rows),
        Ok(None) => Response::Listing(Vec::new()),
        Err(e) => Response::ServerError(Some(e)),
    }
}

/// Answers a lookup by id: the complete view if a row was found, else 404.
pub fn get_calendar_by_id(outcome: Result<Option<CompleteCalendar>, String>) -> (r: Response)
    ensures
        r == lookup_response(outcome),
{
    match outcome {
        Ok(Some(row)) => Response::Found(row),
        Ok(None) => Response::NotFound,
        Err(e) => Response::ServerError(Some(e)),
    }
}

/// Answers a lookup by exact name: the complete view if a row was found, else 404.
pub fn get_calendar_by_name(outcome: Result<Option<CompleteCalendar>, String>) -> (r: Response)
    ensures
        r == lookup_response(outcome),
{
    match outcome {
        Ok(Some(row)) => Response::Found(row),
        Ok(None) => Response::NotFound,
        Err(e) => Response::ServerError(Some(e)),
    }
}

/// Answers an insertion: 201 once the statement ran.
pub fn create_calendar(outcome: Result<Option<usize>, String>) -> (r: Response)
    ensures
        r == create_response(outcome),
{
    match outcome {
        Ok(Some(_)) => Response::Created,
        Ok(None) => Response::ServerError(None),
        Err(e) => Response::ServerError(Some(e)),
    }
}

/// Answers an update by id: 200 if a row matched, 404 if none did.
pub fn update_calendar(outcome: Result<Option<usize>, String>) -> (r: Response)
    ensures
        r == by_id_response(outcome),
{
    answer_by_id(outcome)
}

/// Answers a deletion by id: 200 if a row was removed, 404 if none matched.
pub fn delete_calendar(outcome: Result<Option<usize>, String>) -> (r: Response)
    ensures
        r == by_id_response(outcome),
{
    answer_by_id(outcome)
}

fn answer_by_id(outcome: Result<Option<usize>, String>) -> (r: Response)
    ensures
        r == by_id_response(outcome),
{
    match outcome {
        Ok(Some(count)) => {
            if count > 0 {
                Response::Done
            } else {
                Response::NotFound
            }
        },
        Ok(None) => Response::NotFound,
        Err(e) => Response::ServerError(Some(e)),
    }
}

} // verus!
