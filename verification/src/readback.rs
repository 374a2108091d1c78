//! Reading back the JSON that the library writes: string literals, and the
//! repository array that the listing answers with. The reader follows JSON's
//! grammar for these two forms, written compactly; it proves that the listing is
//! read back as the names it was written from, so that answering a listing with
//! the repositories read from an earlier answer gives that answer again.
use vstd::prelude::*;
use crate::json::{
    escape_char, escape_text, hex_digit, json_string_literal, repo_items, repo_object,
    spec_repos_json,
};
use crate::model::{CloseRequest, CommentBody, Repo, ReqBody};
use crate::text::{decimal_value, spec_decimal};

verus! {

/// The value of a hexadecimal digit, either case.
pub open spec fn hex_value(c: char) -> Option<nat> {
    if 48 <= c as u32 && c as u32 <= 57 {
        Some((c as u32 - 48) as nat)
    } else if 97 <= c as u32 && c as u32 <= 102 {
        Some((c as u32 - 87) as nat)
    } else if 65 <= c as u32 && c as u32 <= 70 {
        Some((c as u32 - 55) as nat)
    } else {
        None
    }
}

/// The character that an escape at the start of `s` (which begins with a backslash)
/// stands for, and how many characters the escape takes. `\uXXXX` is read for a
/// single code point; surrogate pairs are not read.
pub open spec fn read_escape(s: Seq<char>) -> Option<(char, nat)> {
    if s.len() < 2 {
        None
    } else if s[1] == '"' {
        Some(('"', 2))
    } else if s[1] == '\\' {
        Some(('\\', 2))
    } else if s[1] == '/' {
        Some(('/', 2))
    } else if s[1] == 'b' {
        Some(('\u{8}', 2))
    } else if s[1] == 'f' {
        Some(('\u{c}', 2))
    } else if s[1] == 'n' {
        Some(('\n', 2))
    } else if s[1] == 'r' {
        Some(('\r', 2))
    } else if s[1] == 't' {
        Some(('\t', 2))
    } else if s[1] == 'u' && s.len() >= 6 {
        match (hex_value(s[2]), hex_value(s[3]), hex_value(s[4]), hex_value(s[5])) {
            (Some(a), Some(b), Some(c), Some(d)) => {
                let v = a * 4096 + b * 256 + c * 16 + d;
                if v < 0xD800 || v >= 0xE000 {
                    Some((v as char, 6))
                } else {
                    None
                }
            },
            _ => None,
        }
    } else {
        None
    }
}

/// Reads the inside of a string literal, after its opening quote: the text it
/// stands for, and how many characters were read, closing quote included.
pub open spec fn read_string_body(s: Seq<char>) -> Option<(Seq<char>, nat)>
    decreases s.len(),
{
    if s.len() == 0 {
        None
    } else if s[0] == '"' {
        Some((Seq::empty(), 1))
    } else if s[0] == '\\' {
        match read_escape(s) {
            Some((c, k)) => if 1 <= k <= s.len() {
                match read_string_body(s.skip(k as int)) {
                    Some((d, n)) => Some((seq![c] + d, n + k)),
                    None => None,
                }
            } else {
                None
            },
            None => None,
        }
    } else if (s[0] as u32) < 0x20 {
        None
    } else {
        match read_string_body(s.drop_first()) {
            Some((d, n)) => Some((seq![s[0]] + d, n + 1)),
            None => None,
        }
    }
}

/// The opening of a repository object up to the quote of its name.
pub open spec fn name_open() -> Seq<char> {
    seq!['{', '"', 'n', 'a', 'm', 'e', '"', ':', '"']
}

/// Reads repository objects separated by commas, up to the closing bracket that ends the text.
pub open spec fn read_repo_objects(s: Seq<char>) -> Option<Seq<Seq<char>>>
    decreases s.len(),
{
    if s.len() >= 9 && s.take(9) == name_open() {
        match read_string_body(s.skip(9)) {
            Some((name, n)) => {
                let k: int = 9 + n as int;
                if k + 2 <= s.len() && s[k] == '}' {
                    if s[k + 1] == ']' && k + 2 == s.len() {
                        Some(seq![name])
                    } else if s[k + 1] == ',' {
                        match read_repo_objects(s.skip(k + 2)) {
                            Some(ns) => Some(seq![name] + ns),
                            None => None,
                        }
                    } else {
                        None
                    }
                } else {
                    None
                }
            },
            None => None,
        }
    } else {
        None
    }
}

/// Reads a compact JSON array of objects that each hold one string field `name`:
/// the names, in order.
pub open spec fn read_repo_array(s: Seq<char>) -> Option<Seq<Seq<char>>> {
    if s == seq!['[', ']'] {
        Some(Seq::empty())
    } else if s.len() >= 1 && s[0] == '[' {
        read_repo_objects(s.drop_first())
    } else {
        None
    }
}

/// The names of repositories, in order.
pub open spec fn repo_names(repos: Seq<Repo>) -> Seq<Seq<char>> {
    repos.map_values(|r: Repo| r.name@)
}

proof fn lemma_hex_roundtrip(d: nat)
    requires
        d < 16,
    ensures
        hex_value(hex_digit(d)) == Some(d),
{
}

/// Reading an escaped character, then more: the character, then what the rest reads as.
proof fn lemma_read_escaped_char(c: char, more: Seq<char>)
    ensures
        read_string_body(escape_char(c) + more) == match read_string_body(more) {
            Some((d, n)) => Some((seq![c] + d, n + escape_char(c).len())),
            None => None,
        },
{
    let e = escape_char(c);
    let s = e + more;
    if e.len() == 1 {
        assert(s.drop_first() =~= more);
    } else if e.len() == 2 {
        assert(s.skip(2) =~= more);
    } else {
        let v = c as u32;
        lemma_hex_roundtrip((v / 16) as nat);
        lemma_hex_roundtrip((v % 16) as nat);
        lemma_hex_roundtrip(0);
        assert(s[2] == '0' && s[3] == '0');
        assert(s[4] == hex_digit((v / 16) as nat));
        assert(s[5] == hex_digit((v % 16) as nat));
        assert(v == (v / 16) * 16 + v % 16);
        assert(read_escape(s) == Some((c, 6nat)));
        assert(s.skip(6) =~= more);
    }
}

/// A string literal's inside, followed by anything, reads back as its text.
pub proof fn lemma_read_string_literal(t: Seq<char>, rest: Seq<char>)
    ensures
        read_string_body(escape_text(t) + seq!['"'] + rest) == Some((t, escape_text(t).len() + 1)),
    decreases t.len(),
{
    if t.len() == 0 {
        assert(escape_text(t) + seq!['"'] + rest =~= seq!['"'] + rest);
    } else {
        let tail = t.drop_first();
        let more = escape_text(tail) + seq!['"'] + rest;
        lemma_read_string_literal(tail, rest);
        lemma_read_escaped_char(t[0], more);
        assert(escape_text(t) + seq!['"'] + rest =~= escape_char(t[0]) + more);
        assert(seq![t[0]] + tail =~= t);
    }
}

/// A repository object's opening, name literal and closing brace, as characters.
proof fn lemma_repo_object_chars(name: Seq<char>)
    ensures
        repo_object(json_string_literal(name)) == name_open() + escape_text(name) + seq!['"', '}'],
{
    reveal_strlit("{\"name\":");
    reveal_strlit("}");
    assert(repo_object(json_string_literal(name)) =~= name_open() + escape_text(name) + seq!['"', '}']);
}

/// The objects of a longer list: the first object, a comma, and the objects of the rest.
pub proof fn lemma_repo_items_cons(x: Seq<char>, ns: Seq<Seq<char>>)
    requires
        ns.len() >= 1,
    ensures
        repo_items(seq![x] + ns) == repo_object(x) + ","@ + repo_items(ns),
    decreases ns.len(),
{
    let l = seq![x] + ns;
    assert(l.drop_last() =~= seq![x] + ns.drop_last());
    assert(l.last() == ns.last());
    assert(repo_items(l) == repo_items(l.drop_last()) + ","@ + repo_object(ns.last()));
    if ns.len() == 1 {
        assert(seq![x] + ns.drop_last() =~= seq![x]);
        assert(repo_items(seq![x]) == repo_object(x));
        assert(repo_items(ns) == repo_object(ns[0]));
    } else {
        lemma_repo_items_cons(x, ns.drop_last());
        assert(repo_items(ns) == repo_items(ns.drop_last()) + ","@ + repo_object(ns.last()));
        assert(repo_items(l) =~= repo_object(x) + ","@ + repo_items(ns));
    }
}

/// The characters of one repository object.
pub open spec fn object_chars(name: Seq<char>) -> Seq<char> {
    name_open() + escape_text(name) + seq!['"', '}']
}

proof fn lemma_read_object_then(name: Seq<char>, c: char, rest: Seq<char>)
    ensures
        ({
            let s = object_chars(name) + seq![c] + rest;
            let k: int = 9 + escape_text(name).len() as int + 1;
            &&& s.len() >= 9
            &&& s.take(9) == name_open()
            &&& read_string_body(s.skip(9)) == Some((name, escape_text(name).len() + 1))
            &&& k + 2 <= s.len()
            &&& s[k] == '}'
            &&& s[k + 1] == c
            &&& s.skip(k + 2) == rest
        }),
{
    let e = escape_text(name);
    let s = object_chars(name) + seq![c] + rest;
    let k: int = 9 + e.len() as int + 1;
    assert(s.take(9) =~= name_open());
    assert(s.skip(9) =~= e + seq!['"'] + (seq!['}', c] + rest));
    lemma_read_string_literal(name, seq!['}', c] + rest);
    assert(s[k] == '}');
    assert(s[k + 1] == c);
    assert(s.skip(k + 2) =~= rest);
}

proof fn lemma_read_last_object(name: Seq<char>)
    ensures
        read_repo_objects(object_chars(name) + seq![']']) == Some(seq![name]),
{
    lemma_read_object_then(name, ']', Seq::empty());
    assert(object_chars(name) + seq![']'] =~= object_chars(name) + seq![']'] + Seq::<char>::empty());
}

proof fn lemma_read_object_and_more(name: Seq<char>, rest: Seq<char>)
    ensures
        read_repo_objects(object_chars(name) + seq![','] + rest) == match read_repo_objects(rest) {
            Some(ns) => Some(seq![name] + ns),
            None => None,
        },
{
    lemma_read_object_then(name, ',', rest);
}

/// The name literals of a list of names.
pub open spec fn literals(names: Seq<Seq<char>>) -> Seq<Seq<char>> {
    names.map_values(|n: Seq<char>| json_string_literal(n))
}

proof fn lemma_read_single(n0: Seq<char>)
    ensures
        read_repo_objects(repo_items(literals(seq![n0])) + "]"@) == Some(seq![n0]),
{
    reveal_strlit("]");
    let lits = literals(seq![n0]);
    lemma_repo_object_chars(n0);
    assert(lits =~= seq![json_string_literal(n0)]);
    assert(repo_items(lits) == repo_object(lits[0]));
    assert(repo_items(lits) + "]"@ =~= object_chars(n0) + seq![']']);
    lemma_read_last_object(n0);
}

proof fn lemma_read_step(names: Seq<Seq<char>>)
    requires
        names.len() >= 2,
        read_repo_objects(repo_items(literals(names.drop_first())) + "]"@) == Some(names.drop_first()),
    ensures
        read_repo_objects(repo_items(literals(names)) + "]"@) == Some(names),
{
    let lits = literals(names);
    let n0 = names[0];
    let rest = names.drop_first();
    let lr = literals(rest);
    let more = repo_items(lr) + "]"@;
    let l0 = json_string_literal(n0);
    assert(lits == seq![l0] + lr) by {
        assert(lits =~= seq![l0] + lr);
    }
    lemma_repo_items_cons(l0, lr);
    let a = object_chars(n0);
    let b = repo_items(lr);
    assert(repo_items(lits) == repo_object(l0) + ","@ + b);
    lemma_repo_object_chars(n0);
    assert(repo_object(l0) == a);
    assert(","@ == seq![',']) by {
        reveal_strlit(",");
    }
    assert(repo_items(lits) + "]"@ == object_chars(n0) + seq![','] + more) by {
        assert(a + seq![','] + b + "]"@ =~= a + seq![','] + (b + "]"@));
    }
    lemma_read_object_and_more(n0, more);
    assert(seq![n0] + rest =~= names);
}

proof fn lemma_read_repo_objects(names: Seq<Seq<char>>)
    requires
        names.len() >= 1,
    ensures
        read_repo_objects(repo_items(literals(names)) + "]"@) == Some(names),
    decreases names.len(),
{
    if names.len() == 1 {
        lemma_read_single(names[0]);
        assert(seq![names[0]] =~= names);
    } else {
        lemma_read_repo_objects(names.drop_first());
        lemma_read_step(names);
    }
}

/// The repository listing is read back as the names it was written from, in order.
pub proof fn lemma_repo_listing_reads_back(repos: Seq<Repo>)
    ensures
        read_repo_array(spec_repos_json(repos)) == Some(repo_names(repos)),
{
    reveal_strlit("[");
    reveal_strlit("]");
    let names = repo_names(repos);
    let lits = names.map_values(|n: Seq<char>| json_string_literal(n));
    assert(repos.map_values(|r: Repo| json_string_literal(r.name@)) =~= lits);
    let s = spec_repos_json(repos);
    if repos.len() == 0 {
        assert(repo_items(lits) =~= Seq::<char>::empty());
        assert(s =~= seq!['[', ']']);
        assert(names =~= Seq::<Seq<char>>::empty());
    } else {
        lemma_repo_object_chars(names[0]);
        if names.len() == 1 {
            assert(lits =~= seq![lits[0]]);
        } else {
            assert(lits =~= seq![lits[0]] + lits.drop_first());
            lemma_repo_items_cons(lits[0], lits.drop_first());
        }
        assert(s.len() >= 3);
        assert(s != seq!['[', ']']);
        assert(s.drop_first() =~= repo_items(lits) + "]"@);
        lemma_read_repo_objects(names);
    }
}

/// The listing depends on the names alone: repositories with the same names, in the
/// same order, are answered with the same text.
pub proof fn lemma_repo_listing_by_names(a: Seq<Repo>, b: Seq<Repo>)
    requires
        repo_names(a) == repo_names(b),
    ensures
        spec_repos_json(a) == spec_repos_json(b),
{
    assert(a.map_values(|r: Repo| json_string_literal(r.name@)) =~= repo_names(a).map_values(
        |n: Seq<char>| json_string_literal(n),
    ));
    assert(b.map_values(|r: Repo| json_string_literal(r.name@)) =~= repo_names(b).map_values(
        |n: Seq<char>| json_string_literal(n),
    ));
}

/// Answering the listing with the repositories read from an earlier answer gives
/// that answer again: listing is idempotent.
pub proof fn lemma_repo_listing_idempotent(repos: Seq<Repo>, read_again: Seq<Repo>)
    requires
        read_repo_array(spec_repos_json(repos)) == Some(repo_names(read_again)),
    ensures
        spec_repos_json(read_again) == spec_repos_json(repos),
{
    lemma_repo_listing_reads_back(repos);
    lemma_repo_listing_by_names(repos, read_again);
}


/// Reads a member `key` followed by a string literal at the start of `s`: the text
/// of the literal, and how many characters the key and the literal take.
pub open spec fn read_string_member(s: Seq<char>, key: Seq<char>) -> Option<(Seq<char>, int)> {
    let k = key.len() as int;
    if s.len() >= k + 1 && s.take(k) == key && s[k] == '"' {
        match read_string_body(s.skip(k + 1)) {
            Some((v, n)) => Some((v, k + 1 + n)),
            None => None,
        }
    } else {
        None
    }
}

/// A decimal digit.
pub open spec fn is_digit(c: char) -> bool {
    48 <= c as u32 && c as u32 <= 57
}

/// How many decimal digits `s` starts with.
pub open spec fn digit_run(s: Seq<char>) -> nat
    decreases s.len(),
{
    if s.len() > 0 && is_digit(s[0]) {
        1 + digit_run(s.drop_first())
    } else {
        0
    }
}

/// Reads a member `key` followed by a decimal number at the start of `s`: the number,
/// and how many characters the key and the digits take.
pub open spec fn read_number_member(s: Seq<char>, key: Seq<char>) -> Option<(int, int)> {
    let k = key.len() as int;
    if s.len() >= k && s.take(k) == key {
        let d = digit_run(s.skip(k)) as int;
        if d >= 1 {
            Some((decimal_value(s.skip(k).take(d)), k + d))
        } else {
            None
        }
    } else {
        None
    }
}

/// Reads the JSON object of a new issue: owner, repository, title and body.
pub open spec fn read_issue_object(s: Seq<char>) -> Option<(Seq<char>, Seq<char>, Seq<char>, Seq<char>)> {
    match read_string_member(s, "{\"owner\":"@) {
        Some((owner, i1)) => {
            let s1 = s.skip(i1);
            match read_string_member(s1, ",\"repo\":"@) {
                Some((repo, i2)) => {
                    let s2 = s1.skip(i2);
                    match read_string_member(s2, ",\"title\":"@) {
                        Some((title, i3)) => {
                            let s3 = s2.skip(i3);
                            match read_string_member(s3, ",\"body\":"@) {
                                Some((body, i4)) => if s3.skip(i4) == "}"@ {
                                    Some((owner, repo, title, body))
                                } else {
                                    None
                                },
                                None => None,
                            }
                        },
                        None => None,
                    }
                },
                None => None,
            }
        },
        None => None,
    }
}

/// Reads the JSON object of a state change: owner, repository, number and state.
pub open spec fn read_close_object(s: Seq<char>) -> Option<(Seq<char>, Seq<char>, int, Seq<char>)> {
    match read_string_member(s, "{\"owner\":"@) {
        Some((owner, i1)) => {
            let s1 = s.skip(i1);
            match read_string_member(s1, ",\"repo\":"@) {
                Some((repo, i2)) => {
                    let s2 = s1.skip(i2);
                    match read_number_member(s2, ",\"number\":"@) {
                        Some((number, i3)) => {
                            let s3 = s2.skip(i3);
                            match read_string_member(s3, ",\"state\":"@) {
                                Some((state, i4)) => if s3.skip(i4) == "}"@ {
                                    Some((owner, repo, number, state))
                                } else {
                                    None
                                },
                                None => None,
                            }
                        },
                        None => None,
                    }
                },
                None => None,
            }
        },
        None => None,
    }
}

/// Reads the JSON object of a comment: its body.
pub open spec fn read_comment_object(s: Seq<char>) -> Option<Seq<char>> {
    match read_string_member(s, "{\"body\":"@) {
        Some((body, i)) => if s.skip(i) == "}"@ {
            Some(body)
        } else {
            None
        },
        None => None,
    }
}

/// A key followed by a string literal and more reads back as the literal's text,
/// and what follows is the rest.
pub proof fn lemma_read_string_member(key: Seq<char>, v: Seq<char>, rest: Seq<char>)
    ensures
        ({
            let s = key + json_string_literal(v) + rest;
            let i: int = key.len() + json_string_literal(v).len() as int;
            &&& read_string_member(s, key) == Some((v, i))
            &&& s.skip(i) == rest
        }),
{
    let s = key + json_string_literal(v) + rest;
    let k = key.len() as int;
    assert(s.take(k) =~= key);
    assert(s[k] == '"');
    assert(s.skip(k + 1) =~= escape_text(v) + seq!['"'] + rest);
    lemma_read_string_literal(v, rest);
    assert(s.skip(key.len() + json_string_literal(v).len() as int) =~= rest);
}

/// Decimal notation is made of digits.
pub proof fn lemma_decimal_digits(n: nat)
    ensures
        forall|i: int| 0 <= i < spec_decimal(n).len() ==> #[trigger] is_digit(spec_decimal(n)[i]),
    decreases n,
{
    if n >= 10 {
        lemma_decimal_digits(n / 10);
        let s = spec_decimal(n);
        assert forall|i: int| 0 <= i < s.len() implies #[trigger] is_digit(s[i]) by {
            if i < s.len() - 1 {
                assert(s[i] == spec_decimal(n / 10)[i]);
            }
        }
    }
}

proof fn lemma_digit_run(a: Seq<char>, rest: Seq<char>)
    requires
        forall|i: int| 0 <= i < a.len() ==> #[trigger] is_digit(a[i]),
        rest.len() == 0 || !is_digit(rest[0]),
    ensures
        digit_run(a + rest) == a.len(),
    decreases a.len(),
{
    if a.len() == 0 {
        assert(a + rest =~= rest);
    } else {
        assert((a + rest).drop_first() =~= a.drop_first() + rest);
        assert forall|i: int| 0 <= i < a.drop_first().len() implies #[trigger] is_digit(
            a.drop_first()[i],
        ) by {
            assert(a.drop_first()[i] == a[i + 1]);
        }
        lemma_digit_run(a.drop_first(), rest);
    }
}

/// A key followed by a number's decimal notation and more that does not start with a
/// digit reads back as the number, and what follows is the rest.
pub proof fn lemma_read_number_member(key: Seq<char>, n: nat, rest: Seq<char>)
    requires
        rest.len() == 0 || !is_digit(rest[0]),
    ensures
        ({
            let s = key + spec_decimal(n) + rest;
            let i: int = key.len() + spec_decimal(n).len() as int;
            &&& read_number_member(s, key) == Some((n as int, i))
            &&& s.skip(i) == rest
        }),
{
    let d = spec_decimal(n);
    let s = key + d + rest;
    let k = key.len() as int;
    assert(s.take(k) =~= key);
    assert(s.skip(k) =~= d + rest);
    lemma_decimal_digits(n);
    lemma_digit_run(d, rest);
    assert((d + rest).take(d.len() as int) =~= d);
    crate::text::lemma_decimal_value(n);
    assert(s.skip(k + d.len()) =~= rest);
}

/// The JSON posted for a new issue reads back as the issue's owner, repository, title and body.
pub proof fn lemma_issue_json_reads_back(owner: Seq<char>, repo: Seq<char>, title: Seq<char>, body: Seq<char>)
    ensures
        read_issue_object(crate::json::spec_issue_json(owner, repo, title, body)) == Some(
            (owner, repo, title, body),
        ),
{
    let k1 = "{\"owner\":"@;
    let k2 = ",\"repo\":"@;
    let k3 = ",\"title\":"@;
    let k4 = ",\"body\":"@;
    let close = "}"@;
    let l1 = json_string_literal(owner);
    let l2 = json_string_literal(repo);
    let l3 = json_string_literal(title);
    let l4 = json_string_literal(body);
    let r3 = k4 + l4 + close;
    let r2 = k3 + l3 + r3;
    let r1 = k2 + l2 + r2;
    let s = crate::json::spec_issue_json(owner, repo, title, body);
    assert(s =~= k1 + l1 + r1);
    lemma_read_string_member(k1, owner, r1);
    lemma_read_string_member(k2, repo, r2);
    lemma_read_string_member(k3, title, r3);
    lemma_read_string_member(k4, body, close);
}

/// The JSON posted for a state change reads back as the request's owner, repository,
/// number and state.
pub proof fn lemma_close_json_reads_back(c: CloseRequest)
    ensures
        read_close_object(crate::json::spec_close_json(c)) == Some(
            (c.owner@, c.repo@, c.number as int, c.state@),
        ),
{
    reveal_strlit(",\"state\":");
    let k1 = "{\"owner\":"@;
    let k2 = ",\"repo\":"@;
    let k3 = ",\"number\":"@;
    let k4 = ",\"state\":"@;
    let close = "}"@;
    let l1 = json_string_literal(c.owner@);
    let l2 = json_string_literal(c.repo@);
    let d = spec_decimal(c.number as nat);
    let l4 = json_string_literal(c.state@);
    let r3 = k4 + l4 + close;
    let r2 = k3 + d + r3;
    let r1 = k2 + l2 + r2;
    let s = crate::json::spec_close_json(c);
    assert(s =~= k1 + l1 + r1);
    lemma_read_string_member(k1, c.owner@, r1);
    lemma_read_string_member(k2, c.repo@, r2);
    assert(!is_digit(r3[0]));
    lemma_read_number_member(k3, c.number as nat, r3);
    lemma_read_string_member(k4, c.state@, close);
}

/// The JSON posted for a comment reads back as the comment's body.
pub proof fn lemma_comment_json_reads_back(body: Seq<char>)
    ensures
        read_comment_object(crate::json::comment_object(json_string_literal(body))) == Some(body),
{
    let k = "{\"body\":"@;
    let close = "}"@;
    assert(crate::json::comment_object(json_string_literal(body)) =~= k + json_string_literal(body)
        + close);
    lemma_read_string_member(k, body, close);
}

} // verus!
