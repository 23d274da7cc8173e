use notes_api::envelope::Status;
use notes_api::handler::create_note_handler;
use notes_api::handler::create_user_handler;
use notes_api::handler::debug_logs_handler;
use notes_api::handler::health_check_handler;
use notes_api::handler::home_base_handler;
use notes_api::handler::is_unique_violation;
use notes_api::handler::note_insert_params;
use notes_api::handler::note_list_handler;
use notes_api::handler::user_list_handler;
use notes_api::model::CreateNoteSchema;
use notes_api::model::NoteModel;
use notes_api::model::UserModel;

const DUP_KEY: &str =
    "error returned from database: duplicate key value violates unique constraint \"notes_title_key\"";

fn note(id: &str, title: &str, content: &str, category: &str) -> NoteModel {
    NoteModel {
        id: id.to_string(),
        title: title.to_string(),
        content: content.to_string(),
        category: Some(category.to_string()),
        published: Some(false),
        created_at: Some("2024-01-01T00:00:00Z".to_string()),
        updated_at: Some("2024-01-01T00:00:00Z".to_string()),
    }
}

fn user(id: &str, name: &str) -> UserModel {
    UserModel {
        id: id.to_string(),
        name: Some(name.to_string()),
        display_name: Some(name.to_string()),
        email: Some(format!("{}@example.com", name)),
        created_at: None,
        updated_at: None,
    }
}

#[test]
fn health_check_is_success() {
    let (code, body) = health_check_handler();
    assert_eq!(code, 200);
    assert_eq!(body.status, Status::Success);
    assert_eq!(body.message, "Simple CRUD API with Rust, SQLX, Postgres,and Axum");
}

#[test]
fn home_base_is_success() {
    let (code, body) = home_base_handler();
    assert_eq!(code, 200);
    assert_eq!(body.status, Status::Success);
    assert_eq!(body.message, "Default home");
}

#[test]
fn debug_logs_never_2xx() {
    let (code, body) = debug_logs_handler();
    assert_eq!(code, 501);
    assert!(!(200..300).contains(&code));
    assert_eq!(body.status, Status::Error);
    assert_eq!(body.message, "Not implemented");
}

#[test]
fn note_list_wraps_rows_with_count() {
    let rows = vec![note("a", "t1", "c1", ""), note("b", "t2", "c2", "misc")];
    let r = note_list_handler(Ok(rows)).expect("success expected");
    assert_eq!(r.0, 200);
    assert_eq!(r.1.status, Status::Success);
    assert_eq!(r.1.results, 2);
    assert_eq!(r.1.notes.len(), 2);
    assert_eq!(r.1.notes[0].title, "t1");
    assert_eq!(r.1.notes[1].title, "t2");
}

#[test]
fn note_list_failure_is_500_fixed_message() {
    let r = note_list_handler(Err("connection reset".to_string()));
    let (code, body) = r.expect_err("failure expected");
    assert_eq!(code, 500);
    assert_eq!(body.status, Status::Fail);
    assert_eq!(
        body.message,
        "Something bad happened while fetching all note items"
    );
}

#[test]
fn create_note_success_is_201_with_row() {
    let r = create_note_handler(Ok(note("a", "t1", "c1", "")));
    let (code, body) = r.expect("success expected");
    assert_eq!(code, 201);
    assert_eq!(body.status, Status::Success);
    assert_eq!(body.note.title, "t1");
    assert_eq!(body.note.content, "c1");
    assert_eq!(body.note.category.as_deref(), Some(""));
}

#[test]
fn create_note_duplicate_title_is_409_never_500() {
    let r = create_note_handler(Err(DUP_KEY.to_string()));
    let (code, body) = r.expect_err("conflict expected");
    assert_eq!(code, 409);
    assert_ne!(code, 500);
    assert_eq!(body.status, Status::Fail);
    assert_eq!(body.message, "Note with that title already exists");
}

#[test]
fn create_note_other_failure_is_500_with_detail() {
    let r = create_note_handler(Err("connection reset".to_string()));
    let (code, body) = r.expect_err("failure expected");
    assert_eq!(code, 500);
    assert_eq!(body.status, Status::Error);
    assert_eq!(body.message, "connection reset");
}

#[test]
fn second_identical_post_conflicts() {
    let first = create_note_handler(Ok(note("a", "t1", "c1", "")));
    let (code, body) = first.expect("first create succeeds");
    assert_eq!(code, 201);
    assert_eq!(body.note.title, "t1");
    assert!(body.note.category.as_deref().unwrap_or("").is_empty());
    let second = create_note_handler(Err(DUP_KEY.to_string()));
    let (code, body) = second.expect_err("second create conflicts");
    assert_eq!(code, 409);
    assert_eq!(body.status, Status::Fail);
}

#[test]
fn created_note_listed_afterwards() {
    let created = create_note_handler(Ok(note("a", "t1", "c1", "")));
    let (code, body) = created.expect("create succeeds");
    assert_eq!(code, 201);
    let listed = note_list_handler(Ok(vec![note("a", "t1", "c1", "")]));
    let r = listed.expect("list succeeds");
    assert_eq!(r.1.results, 1);
    assert_eq!(r.1.notes[0].title, body.note.title);
    assert_eq!(r.1.notes[0].content, body.note.content);
}

#[test]
fn create_user_success_is_201_with_row() {
    let r = create_user_handler(Ok(user("u1", "ada")));
    let (code, body) = r.expect("success expected");
    assert_eq!(code, 201);
    assert_eq!(body.status, Status::Success);
    assert_eq!(body.user.name.as_deref(), Some("ada"));
}

#[test]
fn create_user_duplicate_is_409() {
    let r = create_user_handler(Err(DUP_KEY.to_string()));
    let (code, body) = r.expect_err("conflict expected");
    assert_eq!(code, 409);
    assert_eq!(body.status, Status::Fail);
    assert_eq!(body.message, "User with that id/name already exists");
}

#[test]
fn create_user_other_failure_is_500() {
    let r = create_user_handler(Err("timeout".to_string()));
    let (code, body) = r.expect_err("failure expected");
    assert_eq!(code, 500);
    assert_eq!(body.status, Status::Error);
    assert_eq!(body.message, "timeout");
}

#[test]
fn user_list_wraps_rows_under_notes_key() {
    let rows = vec![user("u1", "ada")];
    let r = user_list_handler(Ok(rows)).expect("success expected");
    assert_eq!(r.0, 200);
    assert_eq!(r.1.results, 1);
    assert_eq!(r.1.notes[0].name.as_deref(), Some("ada"));
}

#[test]
fn user_list_failure_keeps_note_items_message() {
    let r = user_list_handler(Err("boom".to_string()));
    let (code, body) = r.expect_err("failure expected");
    assert_eq!(code, 500);
    assert_eq!(body.status, Status::Fail);
    assert_eq!(
        body.message,
        "Something bad happened while fetching all note items"
    );
}

#[test]
fn absent_category_stored_as_empty_string() {
    let body = CreateNoteSchema {
        title: "t1".to_string(),
        content: "c1".to_string(),
        category: None,
    };
    let (title, content, category) = note_insert_params(&body);
    assert_eq!(title, "t1");
    assert_eq!(content, "c1");
    assert_eq!(category, "");
}

#[test]
fn present_category_passed_through() {
    let body = CreateNoteSchema {
        title: "t1".to_string(),
        content: "c1".to_string(),
        category: Some("misc".to_string()),
    };
    let (_, _, category) = note_insert_params(&body);
    assert_eq!(category, "misc");
}

#[test]
fn unique_violation_detected() {
    assert!(is_unique_violation(DUP_KEY));
    assert!(is_unique_violation(
        "duplicate key value violates unique constraint"
    ));
    assert!(!is_unique_violation("connection reset"));
    assert!(!is_unique_violation(""));
}
