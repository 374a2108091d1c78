//! JSON text of the values sent to GitHub and back to the pages. String literals
//! are written by serde_json; the objects and arrays around them are framed here,
//! compactly, with the fields in declaration order, as serde_json writes a struct.
use vstd::prelude::*;
use crate::model::{CloseRequest, Comment, Repo, ReqBody};
use crate::text::{decimal, spec_decimal};

verus! {

#[verifier::external_type_specification]
#[verifier::external_body]
pub struct ExJsonError(serde_json::Error);

/// The lowercase hexadecimal digit for `d` (meant for `d < 16`).
pub open spec fn hex_digit(d: nat) -> char {
    if d < 10 {
        (48 + d) as char
    } else {
        (87 + d) as char
    }
}

/// How serde_json writes one character inside a string literal: quote and backslash
/// behind a backslash, the five controls with a short escape by letter, every other
/// control below 0x20 as `\u00` and two lowercase hex digits, anything else as it is.
pub open spec fn escape_char(c: char) -> Seq<char> {
    if c == '"' {
        seq!['\\', '"']
    } else if c == '\\' {
        seq!['\\', '\\']
    } else if c == '\u{8}' {
        seq!['\\', 'b']
    } else if c == '\t' {
        seq!['\\', 't']
    } else if c == '\n' {
        seq!['\\', 'n']
    } else if c == '\u{c}' {
        seq!['\\', 'f']
    } else if c == '\r' {
        seq!['\\', 'r']
    } else if (c as u32) < 0x20 {
        seq!['\\', 'u', '0', '0', hex_digit((c as u32 / 16) as nat), hex_digit((c as u32 % 16) as nat)]
    } else {
        seq![c]
    }
}

/// The characters of a text, each written as `escape_char` writes it.
pub open spec fn escape_text(s: Seq<char>) -> Seq<char>
    decreases s.len(),
{
    if s.len() == 0 {
        Seq::empty()
    } else {
        escape_char(s[0]) + escape_text(s.drop_first())
    }
}

/// The JSON string literal that serde_json writes for a text: the escaped text between quotes.
pub open spec fn json_string_literal(s: Seq<char>) -> Seq<char> {
    seq!['"'] + escape_text(s) + seq!['"']
}

/// Calls `serde_json::to_string` on a `&str`. Claims that the call succeeds and that its
/// text is the quoted, escaped literal that `json_string_literal` states. serde_json
/// writes a string into a `Vec<u8>`, and its only error there would come from that
/// writer, which does not fail; the escapes are those of its escape table.
#[verifier::external_body]
fn serde_json_string(s: &str) -> (r: Result<String, serde_json::Error>)
    ensures
        r is Ok,
        r matches Ok(t) ==> t@ == json_string_literal(s@),
{
    serde_json::to_string(s)
}

/// The JSON string literal for `s`.
pub fn json_string(s: &str) -> (r: String)
    ensures
        r@ == json_string_literal(s@),
{
    match serde_json_string(s) {
        Ok(t) => t,
        Err(_) => {
            proof {
                assert(false);
            }
            String::new()
        },
    }
}

/// The object for a new issue, given the literals of its fields.
pub open spec fn issue_object(owner: Seq<char>, repo: Seq<char>, title: Seq<char>, body: Seq<char>) -> Seq<char> {
    "{\"owner\":"@ + owner + ",\"repo\":"@ + repo + ",\"title\":"@ + title + ",\"body\":"@ + body + "}"@
}

/// The object for a state change, given the literals of its text fields.
pub open spec fn close_object(owner: Seq<char>, repo: Seq<char>, number: u8, state: Seq<char>) -> Seq<char> {
    "{\"owner\":"@ + owner + ",\"repo\":"@ + repo + ",\"number\":"@ + spec_decimal(number as nat)
        + ",\"state\":"@ + state + "}"@
}

/// The object for a comment, given the literal of its body.
pub open spec fn comment_object(body: Seq<char>) -> Seq<char> {
    "{\"body\":"@ + body + "}"@
}

/// The object for a repository, given the literal of its name.
pub open spec fn repo_object(name: Seq<char>) -> Seq<char> {
    "{\"name\":"@ + name + "}"@
}

/// The repository objects for the given name literals, separated by commas.
pub open spec fn repo_items(names: Seq<Seq<char>>) -> Seq<char>
    decreases names.len(),
{
    if names.len() == 0 {
        Seq::empty()
    } else if names.len() == 1 {
        repo_object(names[0])
    } else {
        repo_items(names.drop_last()) + ","@ + repo_object(names.last())
    }
}

/// The array of repository objects for the given name literals.
pub open spec fn repo_array(names: Seq<Seq<char>>) -> Seq<char> {
    "["@ + repo_items(names) + "]"@
}

/// The JSON of a new issue with the given fields.
pub open spec fn spec_issue_json(owner: Seq<char>, repo: Seq<char>, title: Seq<char>, body: Seq<char>) -> Seq<char> {
    issue_object(
        json_string_literal(owner),
        json_string_literal(repo),
        json_string_literal(title),
        json_string_literal(body),
    )
}

/// The JSON of a state change.
pub open spec fn spec_close_json(c: CloseRequest) -> Seq<char> {
    close_object(json_string_literal(c.owner@), json_string_literal(c.repo@), c.number, json_string_literal(c.state@))
}

/// The JSON of a comment.
pub open spec fn spec_comment_json(c: Comment) -> Seq<char> {
    comment_object(json_string_literal(c.body@))
}

/// The JSON array of repositories, each with its name only.
pub open spec fn spec_repos_json(repos: Seq<Repo>) -> Seq<char> {
    repo_array(repos.map_values(|r: Repo| json_string_literal(r.name@)))
}

/// Frames a new issue's object around the literals of its fields.
pub fn frame_issue(owner: &str, repo: &str, title: &str, body: &str) -> (r: String)
    ensures
        r@ == issue_object(owner@, repo@, title@, body@),
{
    let mut r = String::from_str("{\"owner\":");
    r.append(owner);
    r.append(",\"repo\":");
    r.append(repo);
    r.append(",\"title\":");
    r.append(title);
    r.append(",\"body\":");
    r.append(body);
    r.append("}");
    r
}

/// Frames a state change's object around the literals of its text fields.
pub fn frame_close(owner: &str, repo: &str, number: u8, state: &str) -> (r: String)
    ensures
        r@ == close_object(owner@, repo@, number, state@),
{
    let digits = decimal(number);
    let mut r = String::from_str("{\"owner\":");
    r.append(owner);
    r.append(",\"repo\":");
    r.append(repo);
    r.append(",\"number\":");
    r.append(digits.as_str());
    r.append(",\"state\":");
    r.append(state);
    r.append("}");
    r
}

/// Frames a comment's object around the literal of its body.
pub fn frame_comment(body: &str) -> (r: String)
    ensures
        r@ == comment_object(body@),
{
    let mut r = String::from_str("{\"body\":");
    r.append(body);
    r.append("}");
    r
}

/// Frames the array of repository objects around the literals of their names.
pub fn frame_repos(names: &Vec<String>) -> (r: String)
    ensures
        r@ == repo_array(crate::text::texts(names@)),
{
    let ghost ns = crate::text::texts(names@);
    let mut r = String::from_str("[");
    let mut i: usize = 0;
    while i < names.len()
        invariant
            i <= names@.len(),
            ns == crate::text::texts(names@),
            r@ == "["@ + repo_items(ns.take(i as int)),
        decreases names@.len() - i,
    {
        if i > 0 {
            r.append(",");
        }
        r.append("{\"name\":");
        r.append(names[i].as_str());
        r.append("}");
        proof {
            let t = ns.take(i + 1);
            assert(t.drop_last() =~= ns.take(i as int));
            assert(t.last() == names@[i as int]@);
            if i == 0 {
                assert(repo_items(ns.take(0)) =~= Seq::<char>::empty());
            }
            assert(r@ =~= "["@ + repo_items(t));
        }
        i = i + 1;
    }
    r.append("]");
    proof {
        assert(ns.take(names@.len() as int) =~= ns);
    }
    r
}

/// The JSON that is posted to create an issue.
pub fn issue_json(i: &ReqBody) -> (r: String)
    ensures
        r@ == spec_issue_json(i.owner@, i.repo@, i.title@, i.body@),
{
    let owner = json_string(i.owner.as_str());
    let repo = json_string(i.repo.as_str());
    let title = json_string(i.title.as_str());
    let body = json_string(i.body.as_str());
    frame_issue(owner.as_str(), repo.as_str(), title.as_str(), body.as_str())
}

/// The JSON that is posted to change an issue's state.
pub fn close_json(c: &CloseRequest) -> (r: String)
    ensures
        r@ == spec_close_json(*c),
{
    let owner = json_string(c.owner.as_str());
    let repo = json_string(c.repo.as_str());
    let state = json_string(c.state.as_str());
    frame_close(owner.as_str(), repo.as_str(), c.number, state.as_str())
}

/// The JSON that is posted to add a comment.
pub fn comment_json(c: &Comment) -> (r: String)
    ensures
        r@ == spec_comment_json(*c),
{
    let body = json_string(c.body.as_str());
    frame_comment(body.as_str())
}

/// The JSON array that the repository listing answers with: each repository by name.
pub fn repos_json(repos: &Vec<Repo>) -> (r: String)
    ensures
        r@ == spec_repos_json(repos@),
{
    let mut names: Vec<String> = Vec::new();
    let mut i: usize = 0;
    while i < repos.len()
        invariant
            i <= repos@.len(),
            crate::text::texts(names@) =~= repos@.take(i as int).map_values(
                |r: Repo| json_string_literal(r.name@),
            ),
        decreases repos@.len() - i,
    {
        let q = json_string(repos[i].name.as_str());
        let ghost prev = names@;
        names.push(q);
        proof {
            assert(crate::text::texts(names@) =~= crate::text::texts(prev).push(q@));
            assert(repos@.take(i + 1).map_values(|r: Repo| json_string_literal(r.name@))
                =~= repos@.take(i as int).map_values(|r: Repo| json_string_literal(r.name@)).push(
                json_string_literal(repos@[i as int].name@),
            ));
        }
        i = i + 1;
    }
    proof {
        assert(repos@.take(repos@.len() as int) =~= repos@);
    }
    frame_repos(&names)
}

} // verus!
