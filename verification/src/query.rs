//! Reading the parameters that the pages put in a query string.
use vstd::prelude::*;
use crate::text::{lacks, split_on, split_text, texts};

verus! {

/// The owner, repository and issue number named by an issue page's query.
pub struct IssueQuery {
    pub owner: String,
    pub repo: String,
    pub number: String,
}

/// The part of a piece before its first `&`.
pub open spec fn before_amp(piece: Seq<char>) -> Seq<char> {
    split_on(piece, '&')[0]
}

/// An issue query is read positionally: the text after the first three `=`,
/// each cut at its first `&`. With fewer than three `=` there is nothing to read.
pub open spec fn spec_issue_query(q: Seq<char>) -> Option<(Seq<char>, Seq<char>, Seq<char>)> {
    let pieces = split_on(q, '=');
    if pieces.len() < 4 {
        None
    } else {
        Some((before_amp(pieces[1]), before_amp(pieces[2]), before_amp(pieces[3])))
    }
}

/// A repository query is read as the text after its last `=` (the whole query when it has none).
pub open spec fn spec_repo_query(q: Seq<char>) -> Seq<char> {
    split_on(q, '=').last()
}

fn first_before_amp(piece: &String) -> (r: String)
    ensures
        r@ == before_amp(piece@),
{
    let parts = split_text(piece.as_str(), '&');
    parts[0].clone()
}

/// Reads owner, repository and number from an issue query such as
/// `owner=octo&repo=site&number=7`; `None` when the query holds fewer than three `=`.
pub fn parse_issue_query(query: &str) -> (r: Option<IssueQuery>)
    ensures
        match r {
            None => spec_issue_query(query@) is None,
            Some(p) => spec_issue_query(query@) == Some((p.owner@, p.repo@, p.number@)),
        },
{
    let pieces = split_text(query, '=');
    if pieces.len() < 4 {
        return None;
    }
    proof {
        assert(texts(pieces@)[1] == pieces@[1]@);
        assert(texts(pieces@)[2] == pieces@[2]@);
        assert(texts(pieces@)[3] == pieces@[3]@);
    }
    let owner = first_before_amp(&pieces[1]);
    let repo = first_before_amp(&pieces[2]);
    let number = first_before_amp(&pieces[3]);
    Some(IssueQuery { owner, repo, number })
}

/// Reads the repository name from a repository query such as `repo=site`:
/// the text after the last `=`.
pub fn parse_repo_query(query: &str) -> (r: String)
    ensures
        r@ == spec_repo_query(query@),
{
    let pieces = split_text(query, '=');
    let n = pieces.len();
    proof {
        assert(texts(pieces@)[n - 1] == pieces@[n - 1]@);
    }
    pieces[n - 1].clone()
}

/// The query `k1=v1&k2=v2&k3=v3` that an issue link carries is read back as
/// `(v1, v2, v3)` whenever the keys hold no `=` and the values hold neither `=` nor `&`.
pub proof fn lemma_issue_query_roundtrip(
    k1: Seq<char>,
    v1: Seq<char>,
    k2: Seq<char>,
    v2: Seq<char>,
    k3: Seq<char>,
    v3: Seq<char>,
)
    requires
        lacks(k1, '='),
        lacks(k2, '='),
        lacks(k3, '='),
        lacks(v1, '='),
        lacks(v1, '&'),
        lacks(v2, '='),
        lacks(v2, '&'),
        lacks(v3, '='),
        lacks(v3, '&'),
    ensures
        spec_issue_query(
            k1 + seq!['='] + v1 + seq!['&'] + k2 + seq!['='] + v2 + seq!['&'] + k3 + seq!['='] + v3,
        ) == Some((v1, v2, v3)),
{
    let p1 = v1 + seq!['&'] + k2;
    let p2 = v2 + seq!['&'] + k3;
    let q = k1 + seq!['='] + v1 + seq!['&'] + k2 + seq!['='] + v2 + seq!['&'] + k3 + seq!['='] + v3;
    let r1 = p2 + seq!['='] + v3;
    let r0 = p1 + seq!['='] + r1;
    assert(q =~= k1 + seq!['='] + r0);
    assert(lacks(p1, '=')) by {
        assert forall|j: int| 0 <= j < p1.len() implies #[trigger] p1[j] != '=' by {
            if j < v1.len() {
                assert(p1[j] == v1[j]);
            } else if j > v1.len() {
                assert(p1[j] == k2[j - v1.len() - 1]);
            }
        }
    }
    assert(lacks(p2, '=')) by {
        assert forall|j: int| 0 <= j < p2.len() implies #[trigger] p2[j] != '=' by {
            if j < v2.len() {
                assert(p2[j] == v2[j]);
            } else if j > v2.len() {
                assert(p2[j] == k3[j - v2.len() - 1]);
            }
        }
    }
    crate::text::lemma_split_cons(k1, '=', r0);
    crate::text::lemma_split_cons(p1, '=', r1);
    crate::text::lemma_split_cons(p2, '=', v3);
    crate::text::lemma_split_lacking(v3, '=');
    let pieces = split_on(q, '=');
    assert(pieces =~= seq![k1, p1, p2, v3]);
    crate::text::lemma_split_cons(v1, '&', k2);
    crate::text::lemma_split_cons(v2, '&', k3);
    crate::text::lemma_split_lacking(v3, '&');
}

/// The query `k=v` (or any text ending in `=v`) that a repository link carries is read
/// back as `v` whenever `v` holds no `=`.
pub proof fn lemma_repo_query_roundtrip(prefix: Seq<char>, v: Seq<char>)
    requires
        lacks(v, '='),
    ensures
        spec_repo_query(prefix + seq!['='] + v) == v,
{
    crate::text::lemma_split_last(prefix, '=', v);
}

} // verus!
