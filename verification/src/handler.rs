//! One function per endpoint.  Each takes the outcome of the single store
//! round trip as a plain value (the rows, the inserted row, or the driver's
//! diagnostic text) and shapes it into the status code and envelope the
//! endpoint answers with; the process edge issues the query itself and
//! encodes the envelope.

use vstd::prelude::*;
use crate::envelope::HTTP_CONFLICT;
use crate::envelope::HTTP_CREATED;
use crate::envelope::HTTP_INTERNAL_SERVER_ERROR;
use crate::envelope::HTTP_NOT_IMPLEMENTED;
use crate::envelope::HTTP_OK;
use crate::envelope::MessageResponse;
use crate::envelope::NoteDataResponse;
use crate::envelope::NoteListResponse;
use crate::envelope::Status;
use crate::envelope::UserDataResponse;
use crate::envelope::UserListResponse;
use crate::model::CreateNoteSchema;
use crate::model::NoteModel;
use crate::model::UserModel;
use crate::strtool::contains_seq;
use crate::strtool::contains_substring;

verus! {

/// The fragment of a store diagnostic that identifies a unique-constraint
/// violation.
pub open spec fn dup_key_text() -> Seq<char> {
    "duplicate key value violates unique constraint"@
}

/// Recognises a duplicate-key failure from the driver's diagnostic text.
pub fn is_unique_violation(msg: &str) -> (r: bool)
    ensures
        r == contains_seq(msg@, dup_key_text()),
{
    contains_substring(msg, "duplicate key value violates unique constraint")
}

/// Health probe: always a success envelope with a fixed message.
pub fn health_check_handler() -> (r: (u16, MessageResponse))
    ensures
        r.0 == 200,
        r.1.status == Status::Success,
        r.1.message@ == "Simple CRUD API with Rust, SQLX, Postgres,and Axum"@,
{
    let message = String::from_str("Simple CRUD API with Rust, SQLX, Postgres,and Axum");
    (HTTP_OK, MessageResponse::new(Status::Success, message))
}

/// Default home endpoint: always a success envelope with a fixed message.
pub fn home_base_handler() -> (r: (u16, MessageResponse))
    ensures
        r.0 == 200,
        r.1.status == Status::Success,
        r.1.message@ == "Default home"@,
{
    let message = String::from_str("Default home");
    (HTTP_OK, MessageResponse::new(Status::Success, message))
}

/// The debug-log endpoint is not implemented: it answers 501 and never a
/// 2xx success.
pub fn debug_logs_handler() -> (r: (u16, MessageResponse))
    ensures
        r.0 == 501,
        !(200 <= r.0 < 300),
        r.1.status == Status::Error,
        r.1.message@ == "Not implemented"@,
{
    let message = String::from_str("Not implemented");
    (HTTP_NOT_IMPLEMENTED, MessageResponse::new(Status::Error, message))
}

/// Shapes the note list response: on rows, a success envelope carrying the
/// count and the rows; on any store failure, a 500 fail envelope with a
/// fixed message (the diagnostic is discarded).
pub fn note_list_handler(query_result: Result<Vec<NoteModel>, String>) -> (r: Result<
    (u16, NoteListResponse),
    (u16, MessageResponse),
>)
    ensures
        match query_result {
            Ok(notes) => r matches Ok(ok) && ok.0 == 200 && ok.1.status == Status::Success
                && ok.1.results == notes@.len() && ok.1.notes == notes,
            Err(_) => r matches Err(e) && e.0 == 500 && e.1.status == Status::Fail
                && e.1.message@ == "Something bad happened while fetching all note items"@,
        },
{
    match query_result {
        Ok(notes) => {
            let results = notes.len();
            Ok((HTTP_OK, NoteListResponse { status: Status::Success, results, notes }))
        },
        Err(_) => {
            let message = String::from_str("Something bad happened while fetching all note items");
            Err((HTTP_INTERNAL_SERVER_ERROR, MessageResponse::new(Status::Fail, message)))
        },
    }
}

/// Shapes the note create response: 201 with the inserted row on success;
/// 409 with a fail envelope when the diagnostic reports a duplicate key
/// (the title is unique across notes); 500 with an error envelope carrying
/// the raw diagnostic otherwise.
pub fn create_note_handler(query_result: Result<NoteModel, String>) -> (r: Result<
    (u16, NoteDataResponse),
    (u16, MessageResponse),
>)
    ensures
        match query_result {
            Ok(note) => r matches Ok(ok) && ok.0 == 201 && ok.1.status == Status::Success
                && ok.1.note == note,
            Err(e) => r matches Err(err) && if contains_seq(e@, dup_key_text()) {
                err.0 == 409 && err.1.status == Status::Fail && err.1.message@
                    == "Note with that title already exists"@
            } else {
                err.0 == 500 && err.1.status == Status::Error && err.1.message == e
            },
        },
{
    match query_result {
        Ok(note) => Ok((HTTP_CREATED, NoteDataResponse { status: Status::Success, note })),
        Err(e) => {
            if is_unique_violation(e.as_str()) {
                let message = String::from_str("Note with that title already exists");
                Err((HTTP_CONFLICT, MessageResponse::new(Status::Fail, message)))
            } else {
                Err((HTTP_INTERNAL_SERVER_ERROR, MessageResponse::new(Status::Error, e)))
            }
        },
    }
}

/// Shapes the user create response, as the note create does: 409 on a
/// duplicate key, 500 with the raw diagnostic otherwise.
pub fn create_user_handler(query_result: Result<UserModel, String>) -> (r: Result<
    (u16, UserDataResponse),
    (u16, MessageResponse),
>)
    ensures
        match query_result {
            Ok(user) => r matches Ok(ok) && ok.0 == 201 && ok.1.status == Status::Success
                && ok.1.user == user,
            Err(e) => r matches Err(err) && if contains_seq(e@, dup_key_text()) {
                err.0 == 409 && err.1.status == Status::Fail && err.1.message@
                    == "User with that id/name already exists"@
            } else {
                err.0 == 500 && err.1.status == Status::Error && err.1.message == e
            },
        },
{
    match query_result {
        Ok(user) => Ok((HTTP_CREATED, UserDataResponse { status: Status::Success, user })),
        Err(e) => {
            if is_unique_violation(e.as_str()) {
                let message = String::from_str("User with that id/name already exists");
                Err((HTTP_CONFLICT, MessageResponse::new(Status::Fail, message)))
            } else {
                Err((HTTP_INTERNAL_SERVER_ERROR, MessageResponse::new(Status::Error, e)))
            }
        },
    }
}

/// Shapes the user list response.  The failure message still speaks of
/// "note items": an inherited quirk, kept as observable behaviour.
pub fn user_list_handler(query_result: Result<Vec<UserModel>, String>) -> (r: Result<
    (u16, UserListResponse),
    (u16, MessageResponse),
>)
    ensures
        match query_result {
            Ok(users) => r matches Ok(ok) && ok.0 == 200 && ok.1.status == Status::Success
                && ok.1.results == users@.len() && ok.1.notes == users,
            Err(_) => r matches Err(e) && e.0 == 500 && e.1.status == Status::Fail
                && e.1.message@ == "Something bad happened while fetching all note items"@,
        },
{
    match query_result {
        Ok(users) => {
            let results = users.len();
            Ok((HTTP_OK, UserListResponse { status: Status::Success, results, notes: users }))
        },
        Err(_) => {
            let message = String::from_str("Something bad happened while fetching all note items");
            Err((HTTP_INTERNAL_SERVER_ERROR, MessageResponse::new(Status::Fail, message)))
        },
    }
}

/// The three values bound in a note insert, in placeholder order: title,
/// content, and the category with an absent one stored as the empty string.
pub fn note_insert_params(body: &CreateNoteSchema) -> (r: (String, String, String))
    ensures
        r.0@ == body.title@,
        r.1@ == body.content@,
        r.2@ == match body.category {
            Some(c) => c@,
            None => Seq::<char>::empty(),
        },
{
    let title = body.title.clone();
    let content = body.content.clone();
    let category = match &body.category {
        Some(c) => c.clone(),
        None => String::new(),
    };
    (title, content, category)
}

} // verus!
