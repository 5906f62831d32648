//! Wire-shaped issue records as the UI hands them over for export.

use vstd::prelude::*;

verus! {

/// One label of a wire-shaped issue.
#[derive(Debug, PartialEq, Eq)]
pub struct Label {
    pub name: String,
}

/// A user reference on the wire.
#[derive(Debug, PartialEq, Eq)]
pub struct User {
    pub login: String,
}

/// A comment on the wire.
#[derive(Debug, PartialEq, Eq)]
pub struct Comment {
    pub id: i32,
    pub user: User,
    pub body: String,
}

/// An issue as the UI hands it over for export to notes.
#[derive(Debug, PartialEq, Eq)]
pub struct GitHubApiIssue {
    pub id: i32,
    pub title: String,
    pub body: String,
    pub state: String,
    pub created_at: String,
    pub html_url: String,
    pub tags: Vec<Label>,
    pub user: User,
}

} // verus!
