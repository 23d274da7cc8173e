//! Data carriers for the two resources and for the query parameters of the
//! list endpoints.
//!
//! Identifiers and timestamps are held as plain strings (the identifier as
//! its canonical text, a timestamp as its RFC 3339 text); the process edge
//! converts between these and the store driver's own types.

use vstd::prelude::*;

verus! {

/// A row of the notes table.  The identifier is unique and assigned by the
/// store at creation; the title is unique across all notes; timestamps are
/// server-assigned and absent until set.
#[derive(Debug)]
pub struct NoteModel {
    pub id: String,
    pub title: String,
    pub content: String,
    pub category: Option<String>,
    pub published: Option<bool>,
    pub created_at: Option<String>,
    pub updated_at: Option<String>,
}

/// A row of the users table.  All fields but the identifier are optional at
/// the type level, though callers are expected to supply them.
#[derive(Debug)]
pub struct UserModel {
    pub id: String,
    pub name: Option<String>,
    pub display_name: Option<String>,
    pub email: Option<String>,
    pub created_at: Option<String>,
    pub updated_at: Option<String>,
}

/// Body of a create-note request: title and content required, category
/// optional (an absent category is stored as the empty string).
#[derive(Debug)]
pub struct CreateNoteSchema {
    pub title: String,
    pub content: String,
    pub category: Option<String>,
}

/// Body of a create-user request: every field is passed to the store as-is.
#[derive(Debug)]
pub struct CreateUserSchema {
    pub name: Option<String>,
    pub display_name: Option<String>,
    pub email: Option<String>,
}

/// Optional page/limit query parameters of the list endpoints.
#[derive(Debug)]
pub struct FilterOptions {
    pub page: Option<usize>,
    pub limit: Option<usize>,
}

impl Default for FilterOptions {
    /// A request with no query string at all: both parameters absent.
    fn default() -> (r: Self)
        ensures
            r.page is None,
            r.limit is None,
    {
        FilterOptions { page: None, limit: None }
    }
}

} // verus!
