use todo_service::error::{AppError, StorageError, BAD_REQUEST, INTERNAL_SERVER_ERROR, NOT_FOUND};
use todo_service::handlers::{
    create_todo, created_todo, delete_todo, get_todo, list_todos, merge_update, update_todo,
    updated_todo, NO_CONTENT,
};
use todo_service::models::{CreateTodo, Todo, UpdateTodo};
use todo_service::text::is_blank_str;

fn todo(id: i64, title: &str, completed: bool) -> Todo {
    Todo { id, title: title.to_string(), completed }
}

fn expect_err<T>(r: Result<T, AppError>, status: u16, detail: &str) {
    match r {
        Ok(_) => panic!("expected an error"),
        Err(e) => {
            assert_eq!(e.0, status);
            assert_eq!(e.1.detail, detail);
        }
    }
}

#[test]
fn blank_titles_are_detected() {
    assert!(is_blank_str(""));
    assert!(is_blank_str("   "));
    assert!(is_blank_str(" \t\n\r"));
    assert!(is_blank_str("\u{a0}\u{3000}"));
    assert!(!is_blank_str("x"));
    assert!(!is_blank_str("  buy milk  "));
}

#[test]
fn create_whitespace_title_is_rejected() {
    let r = create_todo(CreateTodo { title: "   ".to_string() });
    expect_err(r, BAD_REQUEST, "Title cannot be empty");
    let r = create_todo(CreateTodo { title: String::new() });
    expect_err(r, 400, "Title cannot be empty");
}

#[test]
fn create_valid_title_is_inserted_as_given() {
    match create_todo(CreateTodo { title: " Buy milk ".to_string() }) {
        Ok(t) => assert_eq!(t, " Buy milk "),
        Err(_) => panic!("title was rejected"),
    }
}

#[test]
fn created_returns_inserted_row() {
    let r = created_todo(Ok(todo(7, "Buy milk", false))).ok().unwrap();
    assert_eq!(r.id, 7);
    assert_eq!(r.title, "Buy milk");
    assert!(!r.completed);
}

#[test]
fn create_storage_failure_is_500() {
    expect_err(created_todo(Err(StorageError)), INTERNAL_SERVER_ERROR, "Failed to create todo");
}

#[test]
fn get_found_and_missing() {
    let r = get_todo(Some(todo(3, "Read", true))).ok().unwrap();
    assert_eq!((r.id, r.title.as_str(), r.completed), (3, "Read", true));
    expect_err(get_todo(None), NOT_FOUND, "Todo not found");
}

#[test]
fn update_malformed_body_is_400_with_parser_message() {
    let detail = "Failed to deserialize the JSON body: completed: invalid type".to_string();
    expect_err(update_todo(Err(detail.clone())), 400, &detail);
}

#[test]
fn update_blank_title_waits_for_lookup() {
    let p = UpdateTodo { title: Some("  ".to_string()), completed: None };
    let q = update_todo(Ok(p)).ok().unwrap();
    assert_eq!(q.title.as_deref(), Some("  "));
}

#[test]
fn merge_blank_title_on_missing_is_404() {
    let p = UpdateTodo { title: Some(String::new()), completed: None };
    expect_err(merge_update(None, p), 404, "Todo not found");
}

#[test]
fn merge_blank_title_on_existing_is_400() {
    let p = UpdateTodo { title: Some(" \t ".to_string()), completed: Some(true) };
    expect_err(merge_update(Some(todo(4, "Walk", false)), p), 400, "Title cannot be empty");
}

#[test]
fn update_valid_patch_passes() {
    let p = UpdateTodo { title: None, completed: Some(true) };
    let q = update_todo(Ok(p)).ok().unwrap();
    assert_eq!(q.title, None);
    assert_eq!(q.completed, Some(true));
}

#[test]
fn merge_completed_only_keeps_title() {
    let p = UpdateTodo { title: None, completed: Some(true) };
    let r = merge_update(Some(todo(5, "Walk", false)), p).ok().unwrap();
    assert_eq!((r.id, r.title.as_str(), r.completed), (5, "Walk", true));
}

#[test]
fn merge_title_only_keeps_completed() {
    let p = UpdateTodo { title: Some("X".to_string()), completed: None };
    let r = merge_update(Some(todo(5, "Walk", true)), p).ok().unwrap();
    assert_eq!((r.id, r.title.as_str(), r.completed), (5, "X", true));
}

#[test]
fn merge_missing_is_404() {
    let p = UpdateTodo { title: Some("X".to_string()), completed: Some(false) };
    expect_err(merge_update(None, p), 404, "Todo not found");
}

#[test]
fn updated_failure_is_500() {
    expect_err(updated_todo(Err(StorageError)), 500, "Failed to update todo");
    let r = updated_todo(Ok(todo(2, "X", false))).ok().unwrap();
    assert_eq!(r.title, "X");
}

#[test]
fn delete_outcomes() {
    assert_eq!(delete_todo(Ok(1)).ok(), Some(NO_CONTENT));
    assert_eq!(NO_CONTENT, 204);
    expect_err(delete_todo(Ok(0)), 404, "Todo not found");
    expect_err(delete_todo(Err(StorageError)), 500, "Failed to delete todo");
}

#[test]
fn list_passes_rows_through() {
    let rows = vec![todo(1, "a", false), todo(2, "b", true), todo(3, "c", false)];
    let r = list_todos(Ok(rows)).ok().unwrap();
    assert_eq!(r.len(), 3);
    assert_eq!(r[1].id, 2);
    assert_eq!(r[2].title, "c");
    expect_err(list_todos(Err(StorageError)), 500, "Failed to list todos");
}

#[test]
fn round_trip_create_get_update_get() {
    let title = create_todo(CreateTodo { title: "Write".to_string() }).ok().unwrap();
    let created = created_todo(Ok(Todo { id: 9, title, completed: false })).ok().unwrap();
    let fetched = get_todo(Some(created)).ok().unwrap();
    assert!(!fetched.completed);
    let patch = update_todo(Ok(UpdateTodo { title: Some("X".to_string()), completed: None }))
        .ok()
        .unwrap();
    let merged = merge_update(Some(fetched), patch).ok().unwrap();
    let stored = updated_todo(Ok(merged)).ok().unwrap();
    let again = get_todo(Some(stored)).ok().unwrap();
    assert_eq!((again.id, again.title.as_str(), again.completed), (9, "X", false));
}
