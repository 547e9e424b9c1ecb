/// Stamping requests with the current time.
pub mod clock;
/// The answers of the six calendar endpoints, decided from what storage reported.
pub mod handlers;
/// Laws that the table and the handlers obey together.
pub mod laws;
/// The calendar record, its two views, and the request bodies.
pub mod model;
/// An in-memory calendars table with the store's semantics.
pub mod table;
