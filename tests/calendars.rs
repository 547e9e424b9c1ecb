use calendars::clock::{modify_calendar, new_calendar};
use calendars::handlers::{
    create_calendar, delete_calendar, get_calendar_by_id, get_calendar_by_name, list_calendars,
    update_calendar, Response,
};
use calendars::model::{
    CompleteCalendar, ModifyCalendar, ModifyCalendarRequest, NewCalendar, NewCalendarRequest,
    PartialCalendar, Timestamp,
};
use calendars::table::CalendarTable;

fn at(micros: i64) -> Timestamp {
    Timestamp { micros }
}

fn create(table: &mut CalendarTable, name: &str, description: &str, now: i64) -> i32 {
    let request = NewCalendarRequest::new(name.to_string(), description.to_string());
    table.insert(&NewCalendar::stamped(&request, at(now))).unwrap()
}

#[test]
fn team_sync_lifecycle() {
    let mut table = CalendarTable::new();
    let request = NewCalendarRequest::new("Team Sync".to_string(), "Weekly".to_string());
    let inserted = table.insert(&NewCalendar::stamped(&request, at(1_000)));
    let id = *inserted.as_ref().unwrap();
    let answer = create_calendar(inserted.map(|_| Some(1)));
    assert_eq!(answer, Response::Created);
    assert_eq!(answer.status(), 201);

    let answer = get_calendar_by_id(Ok(table.find_by_id(id)));
    assert_eq!(answer.status(), 200);
    match &answer {
        Response::Found(c) => {
            assert_eq!(c.description, "Weekly");
            assert_eq!(c.created_at, c.updated_at);
        }
        other => panic!("unexpected answer {:?}", other),
    }

    let change = ModifyCalendarRequest::new("Team Sync".to_string(), "Biweekly".to_string());
    let count = table.update(id, &ModifyCalendar::stamped(&change, at(2_000)));
    assert_eq!(update_calendar(Ok(Some(count))), Response::Done);

    match get_calendar_by_id(Ok(table.find_by_id(id))) {
        Response::Found(c) => {
            assert_eq!(c.description, "Biweekly");
            assert!(c.updated_at.micros > c.created_at.micros);
        }
        other => panic!("unexpected answer {:?}", other),
    }

    let count = table.delete(id);
    assert_eq!(delete_calendar(Ok(Some(count))), Response::Done);
    let answer = get_calendar_by_id(Ok(table.find_by_id(id)));
    assert_eq!(answer, Response::NotFound);
    assert_eq!(answer.status(), 404);
}

#[test]
fn ids_are_not_reused() {
    let mut table = CalendarTable::new();
    let a = create(&mut table, "a", "x", 1);
    let b = create(&mut table, "b", "y", 2);
    assert_ne!(a, b);
    assert_eq!(table.delete(b), 1);
    let c = create(&mut table, "c", "z", 3);
    assert_ne!(c, a);
    assert_ne!(c, b);
    assert_eq!((a, b, c), (1, 2, 3));
}

#[test]
fn creation_stamps_are_equal_and_update_moves_forward() {
    let mut table = CalendarTable::new();
    let id = create(&mut table, "Ops", "On call", 500);
    let before = table.find_by_id(id).unwrap();
    assert_eq!(before.created_at, at(500));
    assert_eq!(before.updated_at, at(500));
    let change = ModifyCalendarRequest::new("Ops".to_string(), "Rota".to_string());
    assert_eq!(table.update(id, &ModifyCalendar::stamped(&change, at(900))), 1);
    let after = table.find_by_id(id).unwrap();
    assert_eq!(after.created_at, at(500));
    assert_eq!(after.updated_at, at(900));
    assert_eq!(after.id, id);
    assert_eq!(after.name, "Ops");
    assert_eq!(after.description, "Rota");
}

#[test]
fn clock_stamps_with_one_instant() {
    let request = NewCalendarRequest::new("Standup".to_string(), "Daily".to_string());
    let row = new_calendar(&request);
    assert_eq!(row.name, "Standup");
    assert_eq!(row.description, "Daily");
    assert_eq!(row.created_at, row.updated_at);
    assert!(row.created_at.micros > 0);
    let change = ModifyCalendarRequest::new("Standup".to_string(), "Twice daily".to_string());
    let changes = modify_calendar(&change);
    assert_eq!(changes.description, "Twice daily");
    assert!(changes.updated_at.micros >= row.created_at.micros);
}

#[test]
fn lookups_by_id_and_name_agree() {
    let mut table = CalendarTable::new();
    create(&mut table, "Alpha", "first", 10);
    let id = create(&mut table, "Beta", "second", 20);
    let by_id = get_calendar_by_id(Ok(table.find_by_id(id)));
    let by_name = get_calendar_by_name(Ok(table.find_by_name(&"Beta".to_string())));
    assert_eq!(by_id, by_name);
    let missing = get_calendar_by_name(Ok(table.find_by_name(&"beta".to_string())));
    assert_eq!(missing, Response::NotFound);
}

#[test]
fn listing_shows_every_row_in_partial_view() {
    let mut table = CalendarTable::new();
    let a = create(&mut table, "Alpha", "first", 10);
    let b = create(&mut table, "Beta", "second", 20);
    let answer = list_calendars(Ok(Some(table.select_all())));
    assert_eq!(answer.status(), 200);
    assert_eq!(
        answer,
        Response::Listing(vec![
            PartialCalendar { id: a, name: "Alpha".to_string() },
            PartialCalendar { id: b, name: "Beta".to_string() },
        ])
    );
}

#[test]
fn empty_listing_is_an_empty_array() {
    let table = CalendarTable::new();
    assert_eq!(table.len(), 0);
    assert_eq!(list_calendars(Ok(Some(table.select_all()))), Response::Listing(Vec::new()));
    assert_eq!(list_calendars(Ok(None)), Response::Listing(Vec::new()));
}

#[test]
fn update_of_missing_id_is_not_found_and_changes_nothing() {
    let mut table = CalendarTable::new();
    let id = create(&mut table, "Alpha", "first", 10);
    let change = ModifyCalendarRequest::new("Other".to_string(), "other".to_string());
    let count = table.update(id + 7, &ModifyCalendar::stamped(&change, at(99)));
    assert_eq!(count, 0);
    assert_eq!(update_calendar(Ok(Some(count))), Response::NotFound);
    assert_eq!(table.len(), 1);
    let row = table.find_by_id(id).unwrap();
    assert_eq!(row.name, "Alpha");
    assert_eq!(row.updated_at, at(10));
    assert_eq!(create(&mut table, "Next", "n", 11), id + 1);
}

#[test]
fn delete_of_missing_id_is_not_found() {
    let mut table = CalendarTable::new();
    create(&mut table, "Alpha", "first", 10);
    let count = table.delete(42);
    assert_eq!(count, 0);
    assert_eq!(delete_calendar(Ok(Some(count))), Response::NotFound);
    assert_eq!(table.len(), 1);
}

#[test]
fn storage_errors_answer_500_with_their_text() {
    let text = "connection refused".to_string();
    let expected = Response::ServerError(Some(text.clone()));
    assert_eq!(list_calendars(Err(text.clone())), expected);
    assert_eq!(get_calendar_by_id(Err(text.clone())), expected);
    assert_eq!(get_calendar_by_name(Err(text.clone())), expected);
    assert_eq!(create_calendar(Err(text.clone())), expected);
    assert_eq!(update_calendar(Err(text.clone())), expected);
    assert_eq!(delete_calendar(Err(text.clone())), expected);
    assert_eq!(expected.status(), 500);
}

#[test]
fn create_without_a_count_is_a_bare_500() {
    let answer = create_calendar(Ok(None));
    assert_eq!(answer, Response::ServerError(None));
    assert_eq!(answer.status(), 500);
    assert_eq!(update_calendar(Ok(None)), Response::NotFound);
    assert_eq!(delete_calendar(Ok(None)), Response::NotFound);
}

#[test]
fn complete_view_projects_to_partial() {
    let row = CompleteCalendar {
        id: 3,
        name: "Gamma".to_string(),
        description: "third".to_string(),
        created_at: at(1),
        updated_at: at(2),
    };
    assert_eq!(row.to_partial(), PartialCalendar { id: 3, name: "Gamma".to_string() });
    assert_eq!(row.copied(), row);
}
