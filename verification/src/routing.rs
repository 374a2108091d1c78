//! Which handler answers a request, and the answer when no token is configured.
use vstd::prelude::*;

verus! {

/// The handlers of the server: the pages, and the endpoints that talk to GitHub.
#[derive(Debug, Clone, Copy, PartialEq, Eq, Structural)]
pub enum Route {
    /// `/gh/repo`: all issues of one of the signed-in user's repositories.
    GhRepo,
    /// `/gh/issue`: one issue.
    GhIssue,
    /// `/gh/close_issue`: change an issue's state.
    GhCloseIssue,
    /// `/gh/create`: create an issue.
    GhCreate,
    /// `/gh/repos`: the repositories, by name.
    GhRepos,
    /// `/gh/user`: the signed-in user.
    GhUser,
    /// `/gh/create_comment`: comment on an issue.
    GhCreateComment,
    /// `/gh/comments`: an issue's comments.
    GhComments,
    /// `/issue`: the issue page.
    IssuePage,
    /// `/create`: the page for a new issue.
    CreatePage,
    /// `/repos`, and every path that nothing else claims: the repository list page.
    ReposPage,
    /// `/repo`: the page of one repository.
    RepoPage,
}

/// The handler for a path: the exact paths listed on `Route`, the repository
/// list page for any other.
pub open spec fn spec_route(path: Seq<char>) -> Route {
    if path == "/gh/repo"@ {
        Route::GhRepo
    } else if path == "/gh/issue"@ {
        Route::GhIssue
    } else if path == "/gh/close_issue"@ {
        Route::GhCloseIssue
    } else if path == "/gh/create"@ {
        Route::GhCreate
    } else if path == "/gh/repos"@ {
        Route::GhRepos
    } else if path == "/gh/user"@ {
        Route::GhUser
    } else if path == "/gh/create_comment"@ {
        Route::GhCreateComment
    } else if path == "/gh/comments"@ {
        Route::GhComments
    } else if path == "/issue"@ {
        Route::IssuePage
    } else if path == "/create"@ {
        Route::CreatePage
    } else if path == "/repos"@ {
        Route::ReposPage
    } else if path == "/repo"@ {
        Route::RepoPage
    } else {
        Route::ReposPage
    }
}

/// Whether two texts are equal.
pub fn text_eq(a: &str, b: &str) -> (r: bool)
    ensures
        r == (a@ == b@),
{
    let x = String::from_str(a);
    let y = String::from_str(b);
    x == y
}

/// The handler for a request path.
pub fn route(path: &str) -> (r: Route)
    ensures
        r == spec_route(path@),
{
    if text_eq(path, "/gh/repo") {
        Route::GhRepo
    } else if text_eq(path, "/gh/issue") {
        Route::GhIssue
    } else if text_eq(path, "/gh/close_issue") {
        Route::GhCloseIssue
    } else if text_eq(path, "/gh/create") {
        Route::GhCreate
    } else if text_eq(path, "/gh/repos") {
        Route::GhRepos
    } else if text_eq(path, "/gh/user") {
        Route::GhUser
    } else if text_eq(path, "/gh/create_comment") {
        Route::GhCreateComment
    } else if text_eq(path, "/gh/comments") {
        Route::GhComments
    } else if text_eq(path, "/issue") {
        Route::IssuePage
    } else if text_eq(path, "/create") {
        Route::CreatePage
    } else if text_eq(path, "/repos") {
        Route::ReposPage
    } else if text_eq(path, "/repo") {
        Route::RepoPage
    } else {
        Route::ReposPage
    }
}

/// What the server does with a request.
#[derive(Debug, PartialEq, Eq)]
pub enum Dispatch {
    /// No GitHub token is configured: the request is refused, whatever its path.
    MissingToken,
    /// The handler that answers, and the token it uses.
    Handle(Route, String),
}

/// Decides how a request is answered: refused when no token is configured,
/// otherwise by the handler for its path.
pub fn dispatch(token: Option<String>, path: &str) -> (r: Dispatch)
    ensures
        token is None ==> r == Dispatch::MissingToken,
        token matches Some(t) ==> (r matches Dispatch::Handle(route, used) && route == spec_route(
            path@,
        ) && used@ == t@),
{
    match token {
        None => Dispatch::MissingToken,
        Some(t) => Dispatch::Handle(route(path), t),
    }
}

/// A complete answer that the server writes itself.
#[derive(Debug, PartialEq, Eq)]
pub struct Reply {
    pub status: u16,
    pub body: String,
}

/// The answer to a request when no token is configured: 401 with an explanation.
pub fn missing_token_reply() -> (r: Reply)
    ensures
        r.status == 401,
        r.body@ == "Missing `TOKEN` environment variable"@,
{
    Reply { status: 401, body: String::from_str("Missing `TOKEN` environment variable") }
}

} // verus!
