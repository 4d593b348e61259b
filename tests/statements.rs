use tick::query::{
    autocomplete_statement, delete_statement, get_statement, insert_statement, list_statement,
    page_offset, page_size, sort_column, sort_keyword, Order, QueryParams, SortBy, SqlValue,
};
use tick::record::{SearchParams, TodoItem};

const HEAD: &str =
    "SELECT id, title, content, done, priority, creation_date, due_date, finish_date FROM todos";

fn item(id: u64, title: &str, content: &str, done: bool, priority: u16, created: i64, due: i64, finished: i64) -> TodoItem {
    TodoItem {
        id,
        title: title.to_string(),
        content: content.to_string(),
        done,
        priority,
        creation_date: created,
        due_date: due,
        finish_date: finished,
    }
}

#[test]
fn page_size_defaults_and_clamps() {
    assert_eq!(page_size(None), 25);
    assert_eq!(page_size(Some(0)), 1);
    assert_eq!(page_size(Some(-5)), 1);
    assert_eq!(page_size(Some(1)), 1);
    assert_eq!(page_size(Some(40)), 40);
    assert_eq!(page_size(Some(100)), 100);
    assert_eq!(page_size(Some(101)), 100);
    assert_eq!(page_size(Some(i64::MAX)), 100);
    assert_eq!(page_size(Some(i64::MIN)), 1);
}

#[test]
fn page_offset_floors_at_zero() {
    assert_eq!(page_offset(None), 0);
    assert_eq!(page_offset(Some(-3)), 0);
    assert_eq!(page_offset(Some(0)), 0);
    assert_eq!(page_offset(Some(7)), 7);
}

#[test]
fn sort_names_come_from_fixed_lists() {
    assert_eq!(sort_column(SortBy::CreationDate), "creation_date");
    assert_eq!(sort_column(SortBy::DueDate), "due_date");
    assert_eq!(sort_column(SortBy::Priority), "priority");
    assert_eq!(sort_column(SortBy::Done), "done");
    assert_eq!(sort_keyword(Order::Asc), "ASC");
    assert_eq!(sort_keyword(Order::Desc), "DESC");
}

#[test]
fn default_listing_sorts_by_creation_date_descending() {
    let st = list_statement(&QueryParams::defaults());
    assert_eq!(st.sql, format!("{} WHERE 1 = 1 ORDER BY creation_date DESC LIMIT ? OFFSET ?", HEAD));
    assert_eq!(st.args, vec![SqlValue::Int(25), SqlValue::Int(0)]);
}

#[test]
fn listing_with_every_parameter() {
    let params = QueryParams {
        count: Some(5),
        offset: Some(10),
        sort_by: Some(SortBy::Priority),
        order: Some(Order::Asc),
        done: Some(true),
        search: Some("abc".to_string()),
    };
    let st = list_statement(&params);
    assert_eq!(
        st.sql,
        format!(
            "{} WHERE 1 = 1 AND (title LIKE ? OR content LIKE ?) AND done = ? ORDER BY priority ASC LIMIT ? OFFSET ?",
            HEAD
        )
    );
    assert_eq!(
        st.args,
        vec![
            SqlValue::Text("%abc%".to_string()),
            SqlValue::Text("%abc%".to_string()),
            SqlValue::Bool(true),
            SqlValue::Int(5),
            SqlValue::Int(10),
        ]
    );
}

#[test]
fn listing_clamps_count_and_offset() {
    let mut params = QueryParams::defaults();
    params.count = Some(1000);
    params.offset = Some(-20);
    params.sort_by = Some(SortBy::DueDate);
    let st = list_statement(&params);
    assert!(st.sql.ends_with(" ORDER BY due_date DESC LIMIT ? OFFSET ?"));
    assert_eq!(st.args, vec![SqlValue::Int(100), SqlValue::Int(0)]);

    params.count = Some(0);
    params.offset = None;
    let st = list_statement(&params);
    assert_eq!(st.args, vec![SqlValue::Int(1), SqlValue::Int(0)]);
}

#[test]
fn search_text_is_bound_never_written_into_the_statement() {
    let mut params = QueryParams::defaults();
    params.search = Some("x' OR 1=1 --".to_string());
    let st = list_statement(&params);
    assert!(!st.sql.contains("1=1 --"));
    assert_eq!(st.args[0], SqlValue::Text("%x' OR 1=1 --%".to_string()));
    assert_eq!(st.args[1], SqlValue::Text("%x' OR 1=1 --%".to_string()));
}

#[test]
fn done_search_becomes_a_filtered_listing() {
    let params = QueryParams::from_search(&SearchParams { done: Some(true) });
    let st = list_statement(&params);
    assert_eq!(st.sql, format!("{} WHERE 1 = 1 AND done = ? ORDER BY creation_date DESC LIMIT ? OFFSET ?", HEAD));
    assert_eq!(st.args, vec![SqlValue::Bool(true), SqlValue::Int(25), SqlValue::Int(0)]);

    let params = QueryParams::from_search(&SearchParams { done: None });
    assert_eq!(params, QueryParams::defaults());
}

#[test]
fn read_by_id_statement() {
    let st = get_statement(100);
    assert_eq!(st.sql, format!("{} WHERE id = ?", HEAD));
    assert_eq!(st.args, vec![SqlValue::Int(100)]);
}

#[test]
fn insert_binds_every_field_but_the_id() {
    let r2 = item(77, "Test2", "Hello, World!", true, 1, 2, 4, 3);
    let st = insert_statement(&r2);
    assert_eq!(
        st.sql,
        "INSERT INTO todos (title, content, done, priority, creation_date, due_date, finish_date) VALUES (?, ?, ?, ?, ?, ?, ?)"
    );
    assert_eq!(
        st.args,
        vec![
            SqlValue::Text("Test2".to_string()),
            SqlValue::Text("Hello, World!".to_string()),
            SqlValue::Bool(true),
            SqlValue::Int(1),
            SqlValue::Int(2),
            SqlValue::Int(4),
            SqlValue::Int(3),
        ]
    );
}

#[test]
fn update_ignores_payload_id_and_creation_date() {
    let payload = item(100, "updated title", "updated content", true, 100, 0, 20, 10);
    let st = tick::query::update_statement(1, &payload);
    assert_eq!(
        st.sql,
        "UPDATE todos SET title = ?, content = ?, done = ?, priority = ?, due_date = ?, finish_date = ? WHERE id = ?"
    );
    assert_eq!(
        st.args,
        vec![
            SqlValue::Text("updated title".to_string()),
            SqlValue::Text("updated content".to_string()),
            SqlValue::Bool(true),
            SqlValue::Int(100),
            SqlValue::Int(20),
            SqlValue::Int(10),
            SqlValue::Int(1),
        ]
    );
}

#[test]
fn delete_statement_binds_the_id() {
    let st = delete_statement(42);
    assert_eq!(st.sql, "DELETE FROM todos WHERE id = ?");
    assert_eq!(st.args, vec![SqlValue::Int(42)]);
}

#[test]
fn autocomplete_skips_blank_queries() {
    assert!(autocomplete_statement(None).is_none());
    assert!(autocomplete_statement(Some("")).is_none());
    assert!(autocomplete_statement(Some("  \t\n")).is_none());
    assert!(autocomplete_statement(Some("\u{3000}\u{a0}")).is_none());
}

#[test]
fn autocomplete_matches_title_or_content_up_to_ten_rows() {
    let st = autocomplete_statement(Some("Hello, World!")).unwrap();
    assert_eq!(st.sql, format!("{} WHERE title LIKE ? OR content LIKE ? LIMIT ?", HEAD));
    assert_eq!(
        st.args,
        vec![
            SqlValue::Text("%Hello, World!%".to_string()),
            SqlValue::Text("%Hello, World!%".to_string()),
            SqlValue::Int(10),
        ]
    );
    let st = autocomplete_statement(Some(" a ")).unwrap();
    assert_eq!(st.args[0], SqlValue::Text("% a %".to_string()));
}
