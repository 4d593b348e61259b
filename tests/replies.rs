use tick::handlers::{
    create_reply, get_reply, invalid_json_reply, list_reply, merge_update, not_found_text, write_reply, Reply,
};
use tick::query::{insert_statement, list_statement, update_statement, QueryParams, SqlValue};
use tick::record::{TodoItem, EPOCH};
use tick::text::{push_decimal, push_digits, text_is_blank};

fn item(id: u64, title: &str, content: &str, done: bool, priority: u16, created: i64, due: i64, finished: i64) -> TodoItem {
    TodoItem {
        id,
        title: title.to_string(),
        content: content.to_string(),
        done,
        priority,
        creation_date: created,
        due_date: due,
        finish_date: finished,
    }
}

fn fixture_r1() -> TodoItem {
    item(1, "Test1", "", false, 0, 1, 0, 0)
}

fn fixture_r2() -> TodoItem {
    item(2, "Test2", "Hello, World!", true, 1, 2, 4, 3)
}

#[test]
fn missing_record_on_write_is_reported_by_id() {
    assert_eq!(write_reply(100, Ok(0)), Reply::Failed("Todo with ID 100 does not exist".to_string()));
    assert_eq!(write_reply(-7, Ok(0)), Reply::Failed("Todo with ID -7 does not exist".to_string()));
    assert_eq!(write_reply(0, Ok(0)), Reply::Failed("Todo with ID 0 does not exist".to_string()));
}

#[test]
fn write_that_affects_a_row_succeeds() {
    assert_eq!(write_reply(1, Ok(1)), Reply::Done);
    assert!(write_reply(1, Ok(1)).is_ok());
    assert!(!write_reply(100, Ok(0)).is_ok());
}

#[test]
fn store_errors_pass_through_verbatim() {
    let msg = "no rows returned by a query that expected to return at least one row".to_string();
    assert_eq!(get_reply(Err(msg.clone())), Reply::Failed(msg.clone()));
    assert_eq!(write_reply(3, Err("database is locked".to_string())), Reply::Failed("database is locked".to_string()));
    assert_eq!(list_reply(Err("no such table: todos".to_string())), Reply::Failed("no such table: todos".to_string()));
    assert_eq!(create_reply(Err("NOT NULL constraint failed".to_string())), Reply::Failed("NOT NULL constraint failed".to_string()));
}

#[test]
fn successful_reads_carry_their_records() {
    assert_eq!(list_reply(Ok(vec![fixture_r1(), fixture_r2()])), Reply::Items(vec![fixture_r1(), fixture_r2()]));
    assert_eq!(list_reply(Ok(vec![])), Reply::Items(vec![]));
    assert_eq!(get_reply(Ok(fixture_r2())), Reply::Item(fixture_r2()));
    assert_eq!(create_reply(Ok(3)), Reply::Done);
}

#[test]
fn malformed_body_is_reported_with_its_parse_error() {
    assert_eq!(
        invalid_json_reply("missing field `id` at line 1 column 2"),
        Reply::Failed("Invalid JSON: missing field `id` at line 1 column 2".to_string())
    );
}

#[test]
fn update_keeps_id_and_creation_date() {
    let payload = item(100, "updated title", "updated content", true, 100, 0, 20, 10);
    let merged = merge_update(&fixture_r1(), payload);
    assert_eq!(merged, item(1, "updated title", "updated content", true, 100, 1, 20, 10));
}

#[test]
fn not_found_text_extremes() {
    assert_eq!(not_found_text(i64::MIN), format!("Todo with ID {} does not exist", i64::MIN));
    assert_eq!(not_found_text(i64::MAX), format!("Todo with ID {} does not exist", i64::MAX));
}

#[test]
fn decimal_rendering() {
    for n in [0i64, 5, 9, 10, 42, 100, 12345, -1, -10, -999, i64::MAX, i64::MIN] {
        let mut s = String::from("x=");
        push_decimal(&mut s, n);
        assert_eq!(s, format!("x={}", n));
    }
    let mut s = String::new();
    push_digits(&mut s, u64::MAX);
    assert_eq!(s, u64::MAX.to_string());
}

#[test]
fn blank_text_detection() {
    assert!(text_is_blank(""));
    assert!(text_is_blank(" \t\r\n\u{b}\u{c}\u{85}\u{2028}"));
    assert!(!text_is_blank(" a "));
    assert!(!text_is_blank("\u{200b}"));
    for s in ["", "  ", "x", " \u{3000}", "\u{feff}"] {
        assert_eq!(text_is_blank(s), s.trim().is_empty());
    }
    assert_eq!(EPOCH, 0);
}

#[test]
fn fixture_insert_update_and_missing_id() {
    // R1 carries only a title and its creation date; R2 every field
    let r1 = insert_statement(&fixture_r1());
    assert_eq!(r1.args[0], SqlValue::Text("Test1".to_string()));
    assert_eq!(r1.args[2..], [SqlValue::Bool(false), SqlValue::Int(0), SqlValue::Int(1), SqlValue::Int(0), SqlValue::Int(0)]);
    let r2 = insert_statement(&fixture_r2());
    assert_eq!(r2.args[1], SqlValue::Text("Hello, World!".to_string()));

    // the default listing is newest first, so R2 (created at 2) precedes R1
    assert!(list_statement(&QueryParams::defaults()).sql.contains("ORDER BY creation_date DESC"));

    // an absent id
    assert_eq!(write_reply(100, Ok(0)), Reply::Failed("Todo with ID 100 does not exist".to_string()));

    // rewriting id 1 takes every field but id and creation date from the body
    let payload = item(1, "updated title", "updated content", true, 100, 0, 20, 10);
    let st = update_statement(1, &payload);
    assert_eq!(st.args.last(), Some(&SqlValue::Int(1)));
    let stored = merge_update(&fixture_r1(), payload);
    assert_eq!(stored.title, "updated title");
    assert_eq!(stored.content, "updated content");
    assert!(stored.done);
    assert_eq!(stored.priority, 100);
    assert_eq!(stored.creation_date, 1);
    assert_eq!(stored.due_date, 20);
    assert_eq!(stored.finish_date, 10);
    assert_eq!(stored.id, 1);
    assert_eq!(EPOCH, fixture_r1().finish_date);
}
