//! The uniform response envelope: every endpoint answers with a status
//! discriminator and either a fixed message, a listed collection with its
//! count, or the single created row.

use vstd::prelude::*;
use crate::model::NoteModel;
use crate::model::UserModel;

verus! {

/// HTTP status codes the handlers answer with.
pub const HTTP_OK: u16 = 200;

pub const HTTP_CREATED: u16 = 201;

pub const HTTP_CONFLICT: u16 = 409;

pub const HTTP_INTERNAL_SERVER_ERROR: u16 = 500;

pub const HTTP_NOT_IMPLEMENTED: u16 = 501;

/// The three-way outcome discriminator carried in every envelope:
/// `Success` for a completed operation, `Fail` for a client-attributable
/// or known condition, `Error` for an unexpected internal failure.
#[derive(Clone, Copy, PartialEq, Eq, Structural, Debug)]
pub enum Status {
    Success,
    Fail,
    Error,
}

/// An envelope holding only the discriminator and a message.
#[derive(Debug)]
pub struct MessageResponse {
    pub status: Status,
    pub message: String,
}

/// The success envelope of the note list endpoint: the row count and the
/// rows themselves.
#[derive(Debug)]
pub struct NoteListResponse {
    pub status: Status,
    pub results: usize,
    pub notes: Vec<NoteModel>,
}

/// The success envelope of the note create endpoint: the inserted row,
/// carried under `data.note` once encoded.
#[derive(Debug)]
pub struct NoteDataResponse {
    pub status: Status,
    pub note: NoteModel,
}

/// The success envelope of the user list endpoint.  The encoded collection
/// key is `notes` even for users, an inherited naming quirk that callers
/// rely on.
#[derive(Debug)]
pub struct UserListResponse {
    pub status: Status,
    pub results: usize,
    pub notes: Vec<UserModel>,
}

/// The success envelope of the user create endpoint: the inserted row,
/// carried under `data.user` once encoded.
#[derive(Debug)]
pub struct UserDataResponse {
    pub status: Status,
    pub user: UserModel,
}

impl MessageResponse {
    /// Builds a message envelope from its parts.
    pub fn new(status: Status, message: String) -> (r: Self)
        ensures
            r.status == status,
            r.message == message,
    {
        MessageResponse { status, message }
    }
}

} // verus!
