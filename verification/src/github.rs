//! The requests that are sent to the GitHub REST API.
use vstd::prelude::*;
use crate::json::{
    close_json, comment_json, issue_json, spec_close_json, spec_comment_json, spec_issue_json,
};
use crate::model::{CloseRequest, Comment, CommentBody, ReqBody};
use crate::text::{decimal, spec_decimal};

verus! {

/// The HTTP method of a request.
#[derive(Debug, Clone, Copy, PartialEq, Eq, Structural)]
pub enum Method {
    Get,
    Post,
}

/// A request to the GitHub API: method, URL, headers in the order they are set,
/// and a JSON body for the requests that carry one.
#[derive(Debug)]
pub struct ApiRequest {
    pub method: Method,
    pub url: String,
    pub headers: Vec<(String, String)>,
    pub body: Option<String>,
}

/// What a request is, in terms of texts.
pub struct RequestModel {
    pub method: Method,
    pub url: Seq<char>,
    pub headers: Seq<(Seq<char>, Seq<char>)>,
    pub body: Option<Seq<char>>,
}

/// The texts of a list of header pairs.
pub open spec fn header_texts(h: Seq<(String, String)>) -> Seq<(Seq<char>, Seq<char>)> {
    h.map_values(|p: (String, String)| (p.0@, p.1@))
}

impl View for ApiRequest {
    type V = RequestModel;

    open spec fn view(&self) -> RequestModel {
        RequestModel {
            method: self.method,
            url: self.url@,
            headers: header_texts(self.headers@),
            body: match self.body {
                Some(b) => Some(b@),
                None => None,
            },
        }
    }
}

/// The media type that GitHub is asked to answer in.
pub open spec fn accept_header() -> (Seq<char>, Seq<char>) {
    ("Accept"@, "application/vnd.github+json"@)
}

/// The credentials: the token, sent as it is.
pub open spec fn auth_header(token: Seq<char>) -> (Seq<char>, Seq<char>) {
    ("Authorization"@, token)
}

/// The version of the GitHub API that the requests are written for.
pub open spec fn version_header() -> (Seq<char>, Seq<char>) {
    ("X-GitHub-Api-Version"@, "2022-11-28"@)
}

/// The content type of a JSON body, as the HTTP client sets it.
pub open spec fn json_type_header() -> (Seq<char>, Seq<char>) {
    ("Content-Type"@, "application/json; charset=utf-8"@)
}

/// The headers of most requests: media type, credentials, API version.
pub open spec fn common_headers(token: Seq<char>) -> Seq<(Seq<char>, Seq<char>)> {
    seq![accept_header(), auth_header(token), version_header()]
}

/// The URL of one issue.
pub open spec fn issue_url(owner: Seq<char>, repo: Seq<char>, number: Seq<char>) -> Seq<char> {
    "https://api.github.com/repos/"@ + owner + "/"@ + repo + "/issues/"@ + number
}

/// The URL of an issue's comments.
pub open spec fn comments_url(owner: Seq<char>, repo: Seq<char>, number: Seq<char>) -> Seq<char> {
    issue_url(owner, repo, number) + "/comments"@
}

/// The URL under which issues of a repository are created.
pub open spec fn issues_url(owner: Seq<char>, repo: Seq<char>) -> Seq<char> {
    "https://api.github.com/repos/"@ + owner + "/"@ + repo + "/issues"@
}

/// The URL of all issues of a repository, open and closed.
pub open spec fn all_issues_url(owner: Seq<char>, repo: Seq<char>) -> Seq<char> {
    issues_url(owner, repo) + "?state=all"@
}

/// The URL of the listed account's repositories.
pub open spec fn repos_url() -> Seq<char> {
    "https://api.github.com/users/macovedj/repos"@
}

/// The URL of the signed-in user.
pub open spec fn user_url() -> Seq<char> {
    "https://api.github.com/user"@
}

/// Reading one issue.
pub open spec fn spec_issue_request(owner: Seq<char>, repo: Seq<char>, number: Seq<char>, token: Seq<char>) -> RequestModel {
    RequestModel { method: Method::Get, url: issue_url(owner, repo, number), headers: common_headers(token), body: None }
}

/// Reading an issue's comments.
pub open spec fn spec_comments_request(owner: Seq<char>, repo: Seq<char>, number: Seq<char>, token: Seq<char>) -> RequestModel {
    RequestModel { method: Method::Get, url: comments_url(owner, repo, number), headers: common_headers(token), body: None }
}

/// Creating an issue from its (already rendered) fields.
pub open spec fn spec_create_issue_request(
    owner: Seq<char>,
    repo: Seq<char>,
    title: Seq<char>,
    body: Seq<char>,
    token: Seq<char>,
) -> RequestModel {
    RequestModel {
        method: Method::Post,
        url: issues_url(owner, repo),
        headers: common_headers(token).push(json_type_header()),
        body: Some(spec_issue_json(owner, repo, title, body)),
    }
}

/// Changing an issue's state; the whole request is sent as the body.
pub open spec fn spec_close_request(c: CloseRequest, token: Seq<char>) -> RequestModel {
    RequestModel {
        method: Method::Post,
        url: issue_url(c.owner@, c.repo@, spec_decimal(c.number as nat)),
        headers: seq![auth_header(token), version_header(), json_type_header()],
        body: Some(spec_close_json(c)),
    }
}

/// Adding a comment; only the comment's body is sent.
pub open spec fn spec_create_comment_request(c: CommentBody, token: Seq<char>) -> RequestModel {
    RequestModel {
        method: Method::Post,
        url: comments_url(c.owner@, c.repo@, spec_decimal(c.number as nat)),
        headers: common_headers(token).push(json_type_header()),
        body: Some(spec_comment_json(Comment { body: c.body })),
    }
}

/// Listing the repositories.
pub open spec fn spec_repos_request(token: Seq<char>) -> RequestModel {
    RequestModel { method: Method::Get, url: repos_url(), headers: common_headers(token), body: None }
}

/// Asking who is signed in, before listing a repository's issues.
pub open spec fn spec_owner_request(token: Seq<char>) -> RequestModel {
    RequestModel { method: Method::Get, url: user_url(), headers: common_headers(token), body: None }
}

/// Listing all issues of the signed-in user's repository.
pub open spec fn spec_all_issues_request(login: Seq<char>, repo: Seq<char>, token: Seq<char>) -> RequestModel {
    RequestModel {
        method: Method::Get,
        url: all_issues_url(login, repo),
        headers: seq![accept_header(), version_header(), auth_header(token)],
        body: None,
    }
}

/// Asking who is signed in, for the page.
pub open spec fn spec_user_request(token: Seq<char>) -> RequestModel {
    RequestModel {
        method: Method::Get,
        url: user_url(),
        headers: seq![accept_header(), version_header(), auth_header(token)],
        body: None,
    }
}

fn push_header(headers: &mut Vec<(String, String)>, name: &str, value: &str)
    ensures
        header_texts(final(headers)@) == header_texts(old(headers)@).push((name@, value@)),
{
    let ghost before = headers@;
    headers.push((String::from_str(name), String::from_str(value)));
    proof {
        assert(header_texts(headers@) =~= header_texts(before).push((name@, value@)));
    }
}

fn accept(headers: &mut Vec<(String, String)>)
    ensures
        header_texts(final(headers)@) == header_texts(old(headers)@).push(accept_header()),
{
    push_header(headers, "Accept", "application/vnd.github+json");
}

fn auth(headers: &mut Vec<(String, String)>, token: &str)
    ensures
        header_texts(final(headers)@) == header_texts(old(headers)@).push(auth_header(token@)),
{
    push_header(headers, "Authorization", token);
}

fn version(headers: &mut Vec<(String, String)>)
    ensures
        header_texts(final(headers)@) == header_texts(old(headers)@).push(version_header()),
{
    push_header(headers, "X-GitHub-Api-Version", "2022-11-28");
}

fn json_type(headers: &mut Vec<(String, String)>)
    ensures
        header_texts(final(headers)@) == header_texts(old(headers)@).push(json_type_header()),
{
    push_header(headers, "Content-Type", "application/json; charset=utf-8");
}

fn common(token: &str) -> (r: Vec<(String, String)>)
    ensures
        header_texts(r@) == common_headers(token@),
{
    let mut h: Vec<(String, String)> = Vec::new();
    accept(&mut h);
    auth(&mut h, token);
    version(&mut h);
    assert(header_texts(h@) =~= common_headers(token@));
    h
}

fn issue_url_text(owner: &str, repo: &str, number: &str) -> (r: String)
    ensures
        r@ == issue_url(owner@, repo@, number@),
{
    let mut u = String::from_str("https://api.github.com/repos/");
    u.append(owner);
    u.append("/");
    u.append(repo);
    u.append("/issues/");
    u.append(number);
    u
}

fn issues_url_text(owner: &str, repo: &str) -> (r: String)
    ensures
        r@ == issues_url(owner@, repo@),
{
    let mut u = String::from_str("https://api.github.com/repos/");
    u.append(owner);
    u.append("/");
    u.append(repo);
    u.append("/issues");
    u
}

/// The request that reads one issue.
pub fn issue_request(owner: &str, repo: &str, number: &str, token: &str) -> (r: ApiRequest)
    ensures
        r@ == spec_issue_request(owner@, repo@, number@, token@),
{
    ApiRequest { method: Method::Get, url: issue_url_text(owner, repo, number), headers: common(token), body: None }
}

/// The request that reads an issue's comments.
pub fn comments_request(owner: &str, repo: &str, number: &str, token: &str) -> (r: ApiRequest)
    ensures
        r@ == spec_comments_request(owner@, repo@, number@, token@),
{
    let mut url = issue_url_text(owner, repo, number);
    url.append("/comments");
    ApiRequest { method: Method::Get, url, headers: common(token), body: None }
}

/// The request that creates an issue with the given fields, body as given.
pub fn create_issue_request(issue: &ReqBody, token: &str) -> (r: ApiRequest)
    ensures
        r@ == spec_create_issue_request(issue.owner@, issue.repo@, issue.title@, issue.body@, token@),
{
    let url = issues_url_text(issue.owner.as_str(), issue.repo.as_str());
    let mut headers = common(token);
    json_type(&mut headers);
    let body = issue_json(issue);
    ApiRequest { method: Method::Post, url, headers, body: Some(body) }
}

/// The request that changes an issue's state.
pub fn close_request(c: &CloseRequest, token: &str) -> (r: ApiRequest)
    ensures
        r@ == spec_close_request(*c, token@),
{
    let number = decimal(c.number);
    let url = issue_url_text(c.owner.as_str(), c.repo.as_str(), number.as_str());
    let mut headers: Vec<(String, String)> = Vec::new();
    auth(&mut headers, token);
    version(&mut headers);
    json_type(&mut headers);
    assert(header_texts(headers@) =~= seq![auth_header(token@), version_header(), json_type_header()]);
    let body = close_json(c);
    ApiRequest { method: Method::Post, url, headers, body: Some(body) }
}

/// The request that adds a comment to an issue.
pub fn create_comment_request(c: &CommentBody, token: &str) -> (r: ApiRequest)
    ensures
        r@ == spec_create_comment_request(*c, token@),
{
    let number = decimal(c.number);
    let mut url = issue_url_text(c.owner.as_str(), c.repo.as_str(), number.as_str());
    url.append("/comments");
    let mut headers = common(token);
    json_type(&mut headers);
    let comment = Comment { body: c.body.clone() };
    let body = comment_json(&comment);
    ApiRequest { method: Method::Post, url, headers, body: Some(body) }
}

/// The request that lists the repositories.
pub fn repos_request(token: &str) -> (r: ApiRequest)
    ensures
        r@ == spec_repos_request(token@),
{
    let url = String::from_str("https://api.github.com/users/macovedj/repos");
    ApiRequest { method: Method::Get, url, headers: common(token), body: None }
}

/// The request that asks who is signed in, made before a repository's issues are listed.
pub fn owner_request(token: &str) -> (r: ApiRequest)
    ensures
        r@ == spec_owner_request(token@),
{
    let url = String::from_str("https://api.github.com/user");
    ApiRequest { method: Method::Get, url, headers: common(token), body: None }
}

/// The request that lists all issues of `login`'s repository `repo`.
pub fn all_issues_request(login: &str, repo: &str, token: &str) -> (r: ApiRequest)
    ensures
        r@ == spec_all_issues_request(login@, repo@, token@),
{
    let mut url = issues_url_text(login, repo);
    url.append("?state=all");
    let mut headers: Vec<(String, String)> = Vec::new();
    accept(&mut headers);
    version(&mut headers);
    auth(&mut headers, token);
    assert(header_texts(headers@) =~= seq![accept_header(), version_header(), auth_header(token@)]);
    ApiRequest { method: Method::Get, url, headers, body: None }
}

/// The request that asks who is signed in, for the page.
pub fn user_request(token: &str) -> (r: ApiRequest)
    ensures
        r@ == spec_user_request(token@),
{
    let url = String::from_str("https://api.github.com/user");
    let mut headers: Vec<(String, String)> = Vec::new();
    accept(&mut headers);
    version(&mut headers);
    auth(&mut headers, token);
    assert(header_texts(headers@) =~= seq![accept_header(), version_header(), auth_header(token@)]);
    ApiRequest { method: Method::Get, url, headers, body: None }
}

} // verus!

verus! {

/// A request goes to the GitHub API with the caller's token and the API version,
/// and carries a body exactly when it is a POST, the body then declared as JSON.
pub open spec fn well_addressed(m: RequestModel, token: Seq<char>) -> bool {
    &&& "https://api.github.com/"@.is_prefix_of(m.url)
    &&& m.headers.contains(auth_header(token))
    &&& m.headers.contains(version_header())
    &&& (m.body is Some <==> m.method == Method::Post)
    &&& (m.body is Some ==> m.headers.contains(json_type_header()))
}

proof fn lemma_api_prefix(rest: Seq<char>)
    ensures
        "https://api.github.com/"@.is_prefix_of("https://api.github.com/repos/"@ + rest),
        "https://api.github.com/"@.is_prefix_of(repos_url()),
        "https://api.github.com/"@.is_prefix_of(user_url()),
{
    reveal_strlit("https://api.github.com/");
    reveal_strlit("https://api.github.com/repos/");
    reveal_strlit("https://api.github.com/users/macovedj/repos");
    reveal_strlit("https://api.github.com/user");
    let p = "https://api.github.com/"@;
    let s = "https://api.github.com/repos/"@ + rest;
    assert(s.subrange(0, p.len() as int) =~= p);
    assert(repos_url().subrange(0, p.len() as int) =~= p);
    assert(user_url().subrange(0, p.len() as int) =~= p);
}

/// Every request that the server sends goes to the GitHub API with the token it was
/// given and the API version, and carries a JSON body exactly when it is a POST.
pub proof fn lemma_requests_well_addressed(
    owner: Seq<char>,
    repo: Seq<char>,
    number: Seq<char>,
    title: Seq<char>,
    body: Seq<char>,
    login: Seq<char>,
    close: CloseRequest,
    comment: CommentBody,
    token: Seq<char>,
)
    ensures
        well_addressed(spec_issue_request(owner, repo, number, token), token),
        well_addressed(spec_comments_request(owner, repo, number, token), token),
        well_addressed(spec_create_issue_request(owner, repo, title, body, token), token),
        well_addressed(spec_close_request(close, token), token),
        well_addressed(spec_create_comment_request(comment, token), token),
        well_addressed(spec_repos_request(token), token),
        well_addressed(spec_owner_request(token), token),
        well_addressed(spec_all_issues_request(login, repo, token), token),
        well_addressed(spec_user_request(token), token),
{
    lemma_api_prefix(owner + "/"@ + repo + "/issues/"@ + number);
    lemma_api_prefix(owner + "/"@ + repo + "/issues/"@ + number + "/comments"@);
    lemma_api_prefix(owner + "/"@ + repo + "/issues"@);
    lemma_api_prefix(owner + "/"@ + repo + "/issues"@ + "?state=all"@);
    let cn = spec_decimal(close.number as nat);
    lemma_api_prefix(close.owner@ + "/"@ + close.repo@ + "/issues/"@ + cn);
    let mn = spec_decimal(comment.number as nat);
    lemma_api_prefix(comment.owner@ + "/"@ + comment.repo@ + "/issues/"@ + mn + "/comments"@);
    lemma_api_prefix(login + "/"@ + repo + "/issues"@ + "?state=all"@);
    assert(issue_url(owner, repo, number) =~= "https://api.github.com/repos/"@ + (owner + "/"@ + repo
        + "/issues/"@ + number));
    assert(comments_url(owner, repo, number) =~= "https://api.github.com/repos/"@ + (owner + "/"@
        + repo + "/issues/"@ + number + "/comments"@));
    assert(issues_url(owner, repo) =~= "https://api.github.com/repos/"@ + (owner + "/"@ + repo
        + "/issues"@));
    assert(issue_url(close.owner@, close.repo@, cn) =~= "https://api.github.com/repos/"@ + (
    close.owner@ + "/"@ + close.repo@ + "/issues/"@ + cn));
    assert(comments_url(comment.owner@, comment.repo@, mn) =~= "https://api.github.com/repos/"@ + (
    comment.owner@ + "/"@ + comment.repo@ + "/issues/"@ + mn + "/comments"@));
    assert(all_issues_url(login, repo) =~= "https://api.github.com/repos/"@ + (login + "/"@ + repo
        + "/issues"@ + "?state=all"@));
    let c = common_headers(token);
    assert(c[1] == auth_header(token));
    assert(c[2] == version_header());
    let cj = c.push(json_type_header());
    assert(cj[1] == auth_header(token));
    assert(cj[2] == version_header());
    assert(cj[3] == json_type_header());
    let ch = seq![auth_header(token), version_header(), json_type_header()];
    assert(ch[0] == auth_header(token));
    assert(ch[1] == version_header());
    assert(ch[2] == json_type_header());
    let uh = seq![accept_header(), version_header(), auth_header(token)];
    assert(uh[1] == version_header());
    assert(uh[2] == auth_header(token));
}

} // verus!
