//! What each GitHub endpoint of the server sends, given what the page sent.
//! The server sends the request, and answers the page with GitHub's reply as it
//! came, except for the repository list, which is reduced to names first.
use vstd::prelude::*;
use crate::github::{
    all_issues_request, comments_request, create_issue_request, issue_request, spec_all_issues_request,
    spec_comments_request, spec_create_issue_request, spec_issue_request, ApiRequest,
};
use crate::json::{repos_json, spec_repos_json};
use crate::model::{Repo, ReqBody, User};
use crate::query::{parse_issue_query, parse_repo_query, spec_issue_query, spec_repo_query};
use crate::render::{gfm_html, render_issue};

verus! {

/// `/gh/issue`: the request for the issue that the query names; `None` when the
/// query names none (fewer than three `=`).
pub fn gh_issue_request(query: &str, token: &str) -> (r: Option<ApiRequest>)
    ensures
        match spec_issue_query(query@) {
            None => r is None,
            Some((owner, repo, number)) => r matches Some(req) && req@ == spec_issue_request(
                owner,
                repo,
                number,
                token@,
            ),
        },
{
    match parse_issue_query(query) {
        None => None,
        Some(q) => Some(issue_request(q.owner.as_str(), q.repo.as_str(), q.number.as_str(), token)),
    }
}

/// `/gh/comments`: the request for the comments of the issue that the query names;
/// `None` when the query names none (fewer than three `=`).
pub fn gh_comments_request(query: &str, token: &str) -> (r: Option<ApiRequest>)
    ensures
        match spec_issue_query(query@) {
            None => r is None,
            Some((owner, repo, number)) => r matches Some(req) && req@ == spec_comments_request(
                owner,
                repo,
                number,
                token@,
            ),
        },
{
    match parse_issue_query(query) {
        None => None,
        Some(q) => Some(comments_request(q.owner.as_str(), q.repo.as_str(), q.number.as_str(), token)),
    }
}

/// `/gh/create`: the request that creates the submitted issue, its markdown body
/// rendered to HTML.
pub fn gh_create_request(issue: ReqBody, token: &str) -> (r: ApiRequest)
    ensures
        r@ == spec_create_issue_request(issue.owner@, issue.repo@, issue.title@, gfm_html(issue.body@), token@),
{
    let rendered = render_issue(issue);
    create_issue_request(&rendered, token)
}

/// `/gh/repo`, second step: once GitHub has named the signed-in user, the request for
/// all issues of that user's repository named by the query (the text after its last `=`).
pub fn gh_repo_issues_request(user: &User, query: &str, token: &str) -> (r: ApiRequest)
    ensures
        r@ == spec_all_issues_request(user.login@, spec_repo_query(query@), token@),
{
    let repo = parse_repo_query(query);
    all_issues_request(user.login.as_str(), repo.as_str(), token)
}

/// `/gh/repos`: the answer to the page, given GitHub's repositories: a JSON array
/// of objects that hold each repository's name, in GitHub's order.
pub fn gh_repos_reply(repos: &Vec<Repo>) -> (r: String)
    ensures
        r@ == spec_repos_json(repos@),
{
    repos_json(repos)
}

} // verus!
