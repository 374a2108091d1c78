use gh_issues::github::{
    all_issues_request, close_request, comments_request, create_comment_request, create_issue_request,
    issue_request, owner_request, repos_request, user_request, ApiRequest, Method,
};
use gh_issues::json::{
    close_json, comment_json, frame_close, frame_comment, frame_issue, frame_repos, issue_json,
    json_string, repos_json,
};
use gh_issues::model::{CloseRequest, Comment, CommentBody, Repo, ReqBody, User};
use gh_issues::query::{parse_issue_query, parse_repo_query};
use gh_issues::render::{render_issue, render_markdown};
use gh_issues::routing::{dispatch, missing_token_reply, route, text_eq, Dispatch, Route};
use gh_issues::service::{
    gh_comments_request, gh_create_request, gh_issue_request, gh_repo_issues_request, gh_repos_reply,
};
use gh_issues::text::{chars_of, decimal, split_text};

fn s(x: &str) -> String {
    x.to_string()
}

fn headers(r: &ApiRequest) -> Vec<(&str, &str)> {
    r.headers.iter().map(|(n, v)| (n.as_str(), v.as_str())).collect()
}

const ACCEPT: (&str, &str) = ("Accept", "application/vnd.github+json");
const VERSION: (&str, &str) = ("X-GitHub-Api-Version", "2022-11-28");
const JSON: (&str, &str) = ("Content-Type", "application/json; charset=utf-8");

#[test]
fn split_matches_str_split() {
    for (text, sep) in [("a=b&c=d", '='), ("", '='), ("==", '='), ("abc", '&'), ("x&", '&'), ("é=ü", '=')] {
        let expected: Vec<String> = text.split(sep).map(|p| p.to_string()).collect();
        assert_eq!(split_text(text, sep), expected);
    }
}

#[test]
fn chars_of_keeps_all_characters() {
    assert_eq!(chars_of("héllo"), vec!['h', 'é', 'l', 'l', 'o']);
    assert_eq!(chars_of(""), Vec::<char>::new());
}

#[test]
fn decimal_writes_like_to_string() {
    for n in 0..=255u8 {
        assert_eq!(decimal(n), n.to_string());
    }
}

#[test]
fn routes_known_paths() {
    assert_eq!(route("/gh/repo"), Route::GhRepo);
    assert_eq!(route("/gh/issue"), Route::GhIssue);
    assert_eq!(route("/gh/close_issue"), Route::GhCloseIssue);
    assert_eq!(route("/gh/create"), Route::GhCreate);
    assert_eq!(route("/gh/repos"), Route::GhRepos);
    assert_eq!(route("/gh/user"), Route::GhUser);
    assert_eq!(route("/gh/create_comment"), Route::GhCreateComment);
    assert_eq!(route("/gh/comments"), Route::GhComments);
    assert_eq!(route("/issue"), Route::IssuePage);
    assert_eq!(route("/create"), Route::CreatePage);
    assert_eq!(route("/repos"), Route::ReposPage);
    assert_eq!(route("/repo"), Route::RepoPage);
}

#[test]
fn unknown_paths_show_the_repository_list() {
    assert_eq!(route("/"), Route::ReposPage);
    assert_eq!(route("/gh/repo/"), Route::ReposPage);
    assert_eq!(route("/GH/REPO"), Route::ReposPage);
    assert_eq!(route(""), Route::ReposPage);
}

#[test]
fn text_eq_compares_whole_texts() {
    assert!(text_eq("abc", "abc"));
    assert!(!text_eq("abc", "abd"));
    assert!(!text_eq("abc", "ab"));
}

#[test]
fn missing_token_refuses_every_path() {
    assert_eq!(dispatch(None, "/gh/issue"), Dispatch::MissingToken);
    assert_eq!(dispatch(None, "/repos"), Dispatch::MissingToken);
    let reply = missing_token_reply();
    assert_eq!(reply.status, 401);
    assert_eq!(reply.body, "Missing `TOKEN` environment variable");
}

#[test]
fn token_present_dispatches_by_path() {
    assert_eq!(dispatch(Some(s("tok")), "/gh/user"), Dispatch::Handle(Route::GhUser, s("tok")));
    assert_eq!(dispatch(Some(s("")), "/nowhere"), Dispatch::Handle(Route::ReposPage, s("")));
}

#[test]
fn issue_query_from_an_issue_link() {
    let q = parse_issue_query("owner=octo&repo=site&number=7").unwrap();
    assert_eq!((q.owner.as_str(), q.repo.as_str(), q.number.as_str()), ("octo", "site", "7"));
}

#[test]
fn issue_query_is_read_by_position() {
    let q = parse_issue_query("a=x&b=y&c=z&d=w").unwrap();
    assert_eq!((q.owner.as_str(), q.repo.as_str(), q.number.as_str()), ("x", "y", "z"));
    let q = parse_issue_query("owner=o%20x&repo=&number=12").unwrap();
    assert_eq!((q.owner.as_str(), q.repo.as_str(), q.number.as_str()), ("o%20x", "", "12"));
    let q = parse_issue_query("===").unwrap();
    assert_eq!((q.owner.as_str(), q.repo.as_str(), q.number.as_str()), ("", "", ""));
}

#[test]
fn issue_query_needs_three_equal_signs() {
    assert!(parse_issue_query("owner=octo&repo=site").is_none());
    assert!(parse_issue_query("").is_none());
    assert!(gh_issue_request("owner=octo", "t").is_none());
    assert!(gh_comments_request("x", "t").is_none());
}

#[test]
fn repo_query_is_the_text_after_the_last_equal_sign() {
    assert_eq!(parse_repo_query("repo=site"), "site");
    assert_eq!(parse_repo_query("a=b=c"), "c");
    assert_eq!(parse_repo_query("site"), "site");
    assert_eq!(parse_repo_query("repo="), "");
}

#[test]
fn json_string_escapes_like_serde_json() {
    assert_eq!(json_string("plain"), "\"plain\"");
    assert_eq!(json_string("a\"b\\c\nd"), "\"a\\\"b\\\\c\\nd\"");
    assert_eq!(json_string(""), "\"\"");
}

#[test]
fn framing_places_literals_in_order() {
    assert_eq!(frame_issue("\"o\"", "\"r\"", "\"t\"", "\"b\""), r#"{"owner":"o","repo":"r","title":"t","body":"b"}"#);
    assert_eq!(frame_close("\"o\"", "\"r\"", 42, "\"closed\""), r#"{"owner":"o","repo":"r","number":42,"state":"closed"}"#);
    assert_eq!(frame_comment("\"hi\""), r#"{"body":"hi"}"#);
    assert_eq!(frame_repos(&vec![]), "[]");
    assert_eq!(frame_repos(&vec![s("\"a\"")]), r#"[{"name":"a"}]"#);
    assert_eq!(frame_repos(&vec![s("\"a\""), s("\"b\"")]), r#"[{"name":"a"},{"name":"b"}]"#);
}

#[test]
fn objects_are_what_serde_json_writes() {
    let issue = ReqBody { owner: s("o"), repo: s("r"), title: s("A \"t\""), body: s("<p>x</p>\n") };
    assert_eq!(issue_json(&issue), r#"{"owner":"o","repo":"r","title":"A \"t\"","body":"<p>x</p>\n"}"#);
    let close = CloseRequest { owner: s("o"), repo: s("r"), number: 3, state: s("closed") };
    assert_eq!(close_json(&close), r#"{"owner":"o","repo":"r","number":3,"state":"closed"}"#);
    assert_eq!(comment_json(&Comment { body: s("hey") }), r#"{"body":"hey"}"#);
}

#[test]
fn repository_listing_keeps_names_in_order() {
    let repos = vec![Repo { name: s("one") }, Repo { name: s("two\"") }];
    assert_eq!(repos_json(&repos), r#"[{"name":"one"},{"name":"two\""}]"#);
    assert_eq!(gh_repos_reply(&repos), r#"[{"name":"one"},{"name":"two\""}]"#);
    assert_eq!(gh_repos_reply(&vec![]), "[]");
}

#[test]
fn markdown_renders_gfm() {
    assert_eq!(render_markdown("~Venus~Mars!"), "<p><del>Venus</del>Mars!</p>");
    assert_eq!(render_markdown("# Hi"), "<h1>Hi</h1>");
}

#[test]
fn rendering_an_issue_changes_only_its_body() {
    let issue = ReqBody { owner: s("o"), repo: s("r"), title: s("**t**"), body: s("*x*") };
    let r = render_issue(issue);
    assert_eq!(r, ReqBody { owner: s("o"), repo: s("r"), title: s("**t**"), body: s("<p><em>x</em></p>") });
}

#[test]
fn issue_request_reads_the_named_issue() {
    let r = gh_issue_request("owner=octo&repo=site&number=7", "tok").unwrap();
    assert_eq!(r.method, Method::Get);
    assert_eq!(r.url, "https://api.github.com/repos/octo/site/issues/7");
    assert_eq!(headers(&r), vec![ACCEPT, ("Authorization", "tok"), VERSION]);
    assert_eq!(r.body, None);
    let d = issue_request("a", "b", "c", "t");
    assert_eq!(d.url, "https://api.github.com/repos/a/b/issues/c");
}

#[test]
fn comments_request_reads_the_named_issues_comments() {
    let r = gh_comments_request("owner=octo&repo=site&number=7", "tok").unwrap();
    assert_eq!(r.method, Method::Get);
    assert_eq!(r.url, "https://api.github.com/repos/octo/site/issues/7/comments");
    assert_eq!(headers(&r), vec![ACCEPT, ("Authorization", "tok"), VERSION]);
    assert_eq!(r.body, None);
    assert_eq!(comments_request("a", "b", "c", "t").url, "https://api.github.com/repos/a/b/issues/c/comments");
}

#[test]
fn create_request_posts_the_rendered_issue() {
    let issue = ReqBody { owner: s("octo"), repo: s("site"), title: s("Bug"), body: s("~x~") };
    let r = gh_create_request(issue, "tok");
    assert_eq!(r.method, Method::Post);
    assert_eq!(r.url, "https://api.github.com/repos/octo/site/issues");
    assert_eq!(headers(&r), vec![ACCEPT, ("Authorization", "tok"), VERSION, JSON]);
    assert_eq!(
        r.body.as_deref(),
        Some(r#"{"owner":"octo","repo":"site","title":"Bug","body":"<p><del>x</del></p>"}"#)
    );
    let plain = create_issue_request(&ReqBody { owner: s("o"), repo: s("r"), title: s("t"), body: s("~x~") }, "k");
    assert_eq!(plain.body.as_deref(), Some(r#"{"owner":"o","repo":"r","title":"t","body":"~x~"}"#));
}

#[test]
fn close_request_posts_the_state_change() {
    let c = CloseRequest { owner: s("octo"), repo: s("site"), number: 12, state: s("closed") };
    let r = close_request(&c, "tok");
    assert_eq!(r.method, Method::Post);
    assert_eq!(r.url, "https://api.github.com/repos/octo/site/issues/12");
    assert_eq!(headers(&r), vec![("Authorization", "tok"), VERSION, JSON]);
    assert_eq!(r.body.as_deref(), Some(r#"{"owner":"octo","repo":"site","number":12,"state":"closed"}"#));
}

#[test]
fn comment_request_posts_only_the_body() {
    let c = CommentBody { owner: s("octo"), repo: s("site"), body: s("thanks"), number: 255 };
    let r = create_comment_request(&c, "tok");
    assert_eq!(r.method, Method::Post);
    assert_eq!(r.url, "https://api.github.com/repos/octo/site/issues/255/comments");
    assert_eq!(headers(&r), vec![ACCEPT, ("Authorization", "tok"), VERSION, JSON]);
    assert_eq!(r.body.as_deref(), Some(r#"{"body":"thanks"}"#));
}

#[test]
fn listing_and_user_requests() {
    let r = repos_request("tok");
    assert_eq!((r.method, r.url.as_str()), (Method::Get, "https://api.github.com/users/macovedj/repos"));
    assert_eq!(headers(&r), vec![ACCEPT, ("Authorization", "tok"), VERSION]);
    let r = owner_request("tok");
    assert_eq!((r.method, r.url.as_str()), (Method::Get, "https://api.github.com/user"));
    assert_eq!(headers(&r), vec![ACCEPT, ("Authorization", "tok"), VERSION]);
    let r = user_request("tok");
    assert_eq!((r.method, r.url.as_str()), (Method::Get, "https://api.github.com/user"));
    assert_eq!(headers(&r), vec![ACCEPT, VERSION, ("Authorization", "tok")]);
    assert_eq!(r.body, None);
}

#[test]
fn repo_issues_request_uses_the_signed_in_login() {
    let user = User { login: s("octo") };
    let r = gh_repo_issues_request(&user, "repo=site", "tok");
    assert_eq!(r.method, Method::Get);
    assert_eq!(r.url, "https://api.github.com/repos/octo/site/issues?state=all");
    assert_eq!(headers(&r), vec![ACCEPT, VERSION, ("Authorization", "tok")]);
    assert_eq!(all_issues_request("a", "b", "t").url, "https://api.github.com/repos/a/b/issues?state=all");
}

#[test]
fn json_string_escapes_controls_with_lowercase_hex() {
    assert_eq!(json_string("\u{1}\u{1f}\u{8}\u{c}\r\t/é\u{7f}"), "\"\\u0001\\u001f\\b\\f\\r\\t/é\u{7f}\"");
}

#[test]
fn repository_listing_read_back_gives_the_same_listing() {
    let repos = vec![Repo { name: s("a\"b") }, Repo { name: s("line\nbreak") }, Repo { name: s("x},{") }];
    let first = gh_repos_reply(&repos);
    let parsed: Vec<serde_json::Value> = serde_json::from_str(&first).unwrap();
    let again: Vec<Repo> = parsed
        .iter()
        .map(|v| Repo { name: v["name"].as_str().unwrap().to_string() })
        .collect();
    assert_eq!(again, repos);
    assert_eq!(gh_repos_reply(&again), first);
}
