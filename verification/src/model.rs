//! The values that the pages send and that GitHub answers with.
use vstd::prelude::*;

verus! {

/// A new issue as the create page submits it; `body` is markdown.
#[derive(Debug, PartialEq, Eq)]
pub struct ReqBody {
    pub owner: String,
    pub repo: String,
    pub title: String,
    pub body: String,
}

/// A request to change an issue's state, as the issue page submits it.
#[derive(Debug, PartialEq, Eq)]
pub struct CloseRequest {
    pub owner: String,
    pub repo: String,
    pub number: u8,
    pub state: String,
}

/// A new comment as the issue page submits it.
#[derive(Debug, PartialEq, Eq)]
pub struct CommentBody {
    pub owner: String,
    pub repo: String,
    pub body: String,
    pub number: u8,
}

/// The comment that is posted to GitHub.
#[derive(Debug, PartialEq, Eq)]
pub struct Comment {
    pub body: String,
}

/// A repository in GitHub's listing; only its name is kept.
#[derive(Debug, PartialEq, Eq)]
pub struct Repo {
    pub name: String,
}

/// The signed-in GitHub user; only the login is kept.
#[derive(Debug, PartialEq, Eq)]
pub struct User {
    pub login: String,
}

} // verus!
