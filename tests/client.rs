use tick::client::{
    ack_result, collection_url, item_result, item_url, items_result, read_status, reconciled, record_url, stamped,
    toggle_step, toggled, update_step, ApiResponse, Status,
};
use tick::record::TodoItem;

fn item(id: u64, title: &str, content: &str, done: bool, priority: u16, created: i64, due: i64, finished: i64) -> TodoItem {
    TodoItem {
        id,
        title: title.to_string(),
        content: content.to_string(),
        done,
        priority,
        creation_date: created,
        due_date: due,
        finish_date: finished,
    }
}

fn reply<T>(status: &str, one: Option<T>, many: Option<T>, message: Option<&str>) -> ApiResponse<T> {
    ApiResponse { status: status.to_string(), items: many, item: one, message: message.map(|m| m.to_string()) }
}

// a clock reading: a moment in 2020
const NOW: i64 = 1_600_000_000;

#[test]
fn status_kinds() {
    assert_eq!(read_status(&"ok".to_string()), Status::Success);
    assert_eq!(read_status(&"error".to_string()), Status::Failure);
    assert_eq!(read_status(&"OK".to_string()), Status::Unexpected);
    assert_eq!(read_status(&"".to_string()), Status::Unexpected);
}

#[test]
fn listing_reply_outcomes() {
    let a = item(1, "a", "", false, 0, 1, 0, 0);
    assert_eq!(items_result(reply("ok", None, Some(vec![a.clone()]), None)), Ok(vec![a]));
    assert_eq!(items_result(reply::<Vec<TodoItem>>("ok", None, None, None)), Ok(vec![]));
    assert_eq!(items_result(reply::<Vec<TodoItem>>("error", None, None, Some("boom"))), Err("boom".to_string()));
    assert_eq!(items_result(reply::<Vec<TodoItem>>("error", None, None, None)), Err("Unknown error".to_string()));
    assert_eq!(items_result(reply::<Vec<TodoItem>>("weird", None, None, Some("x"))), Err("Unexpected status: weird".to_string()));
}

#[test]
fn read_reply_outcomes() {
    let a = item(1, "a", "", false, 0, 1, 0, 0);
    assert_eq!(item_result(reply("ok", Some(a.clone()), None, None)), Ok(a));
    assert_eq!(item_result(reply("ok", None, None, None)), Err("Item not valid".to_string()));
    assert_eq!(
        item_result(reply("error", None, None, Some("Todo with ID 100 does not exist"))),
        Err("Todo with ID 100 does not exist".to_string())
    );
}

#[test]
fn write_reply_outcomes() {
    assert_eq!(ack_result(reply("ok", None, None, None), "Todo deleted"), Ok("Todo deleted".to_string()));
    assert_eq!(ack_result(reply("error", None, None, Some("nope")), "Todo deleted"), Err("nope".to_string()));
    assert_eq!(ack_result(reply("", None, None, None), "Todo created"), Err("Unexpected status: ".to_string()));
}

#[test]
fn addresses() {
    assert_eq!(collection_url("http://localhost:3000"), "http://localhost:3000/todos");
    assert_eq!(item_url("http://localhost:3000", 42), "http://localhost:3000/todos/42");
    assert_eq!(item_url("http://h", -1), "http://h/todos/-1");
    assert_eq!(record_url("http://h", &item(18446744073709551615, "", "", false, 0, 0, 0, 0)), "http://h/todos/18446744073709551615");
}

#[test]
fn toggle_marks_done_then_resets_to_epoch() {
    let open = item(5, "t", "c", false, 3, 11, 22, 0);
    let done = toggled(open.clone(), 1234);
    assert_eq!(done, item(5, "t", "c", true, 3, 11, 22, 1234));
    let reopened = toggled(done, 9999);
    assert_eq!(reopened, open);
}

#[test]
fn update_sets_finish_date_on_transitions_only() {
    let stored_open = item(1, "a", "", false, 0, 1, 0, 0);
    let stored_done = item(1, "a", "", true, 0, 1, 0, 50);
    let incoming_done = item(1, "b", "x", true, 2, 1, 9, 7);
    let incoming_open = item(1, "b", "x", false, 2, 1, 9, 7);
    assert_eq!(reconciled(&stored_open, incoming_done.clone(), 300).finish_date, 300);
    assert_eq!(reconciled(&stored_done, incoming_open.clone(), 300).finish_date, 0);
    assert_eq!(reconciled(&stored_done, incoming_done.clone(), 300), incoming_done.clone());
    assert_eq!(reconciled(&stored_open, incoming_open.clone(), 300), incoming_open.clone());
}

#[test]
fn creation_is_stamped() {
    let t = item(0, "new", "", false, 0, 0, 0, 0);
    assert_eq!(stamped(t.clone(), 77).creation_date, 77);
    assert_eq!(stamped(t.clone(), 77), item(0, "new", "", false, 0, 77, 0, 0));
}

#[test]
fn steps_decide_the_write() {
    let stored = item(4, "a", "", false, 0, 1, 0, 0);
    let w = toggle_step(reply("ok", Some(stored.clone()), None, None), NOW).unwrap();
    assert_eq!(w, item(4, "a", "", true, 0, 1, 0, NOW));
    let back = toggle_step(reply("ok", Some(w), None, None), NOW + 5).unwrap();
    assert_eq!(back, stored.clone());
    assert_eq!(toggle_step(reply("error", None, None, None), NOW), Err("Unknown error".to_string()));
    let incoming = item(4, "b", "", true, 0, 1, 0, 0);
    let w = update_step(reply("ok", Some(stored), None, None), incoming, NOW).unwrap();
    assert_eq!(w, item(4, "b", "", true, 0, 1, 0, NOW));
    assert_eq!(
        update_step(reply("ok", None, None, None), item(4, "b", "", true, 0, 1, 0, 0), NOW),
        Err("Item not valid".to_string())
    );
}
