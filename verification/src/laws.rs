//! What each GitHub request is for, stated through independent readers: the path
//! segments of its URL (split at `/`) and the JSON body read back field by field.
use vstd::prelude::*;
use crate::github::{
    spec_close_request, spec_comments_request, spec_create_comment_request, spec_create_issue_request,
    spec_issue_request, Method,
};
use crate::json::{comment_object, json_string_literal};
use crate::model::{CloseRequest, CommentBody};
use crate::readback::{is_digit, read_close_object, read_comment_object, read_issue_object};
use crate::text::{decimal_value, join_on, lacks, spec_decimal, split_on};

verus! {

/// `https:`
pub open spec fn seg_scheme() -> Seq<char> {
    seq!['h', 't', 't', 'p', 's', ':']
}

/// `api.github.com`
pub open spec fn seg_host() -> Seq<char> {
    seq!['a', 'p', 'i', '.', 'g', 'i', 't', 'h', 'u', 'b', '.', 'c', 'o', 'm']
}

/// `repos`
pub open spec fn seg_repos() -> Seq<char> {
    seq!['r', 'e', 'p', 'o', 's']
}

/// `issues`
pub open spec fn seg_issues() -> Seq<char> {
    seq!['i', 's', 's', 'u', 'e', 's']
}

/// `comments`
pub open spec fn seg_comments() -> Seq<char> {
    seq!['c', 'o', 'm', 'm', 'e', 'n', 't', 's']
}

/// The segments of a URL under the API's repositories: `https:`, the empty segment
/// between the slashes, the API host, `repos`, then the given segments.
pub open spec fn repos_path(rest: Seq<Seq<char>>) -> Seq<Seq<char>> {
    seq![seg_scheme(), Seq::<char>::empty(), seg_host(), seg_repos()] + rest
}

proof fn lemma_literal_segments()
    ensures
        lacks(seg_scheme(), '/'),
        lacks(Seq::<char>::empty(), '/'),
        lacks(seg_host(), '/'),
        lacks(seg_repos(), '/'),
        lacks(seg_issues(), '/'),
        lacks(seg_comments(), '/'),
        "https://api.github.com/repos/"@ == seg_scheme() + seq!['/'] + seq!['/'] + seg_host() + seq!['/']
            + seg_repos() + seq!['/'],
        "/"@ == seq!['/'],
        "/issues/"@ == seq!['/'] + seg_issues() + seq!['/'],
        "/issues"@ == seq!['/'] + seg_issues(),
        "/comments"@ == seq!['/'] + seg_comments(),
{
    reveal_strlit("https://api.github.com/repos/");
    reveal_strlit("/");
    reveal_strlit("/issues/");
    reveal_strlit("/issues");
    reveal_strlit("/comments");
    assert("https://api.github.com/repos/"@ =~= seg_scheme() + seq!['/'] + seq!['/'] + seg_host()
        + seq!['/'] + seg_repos() + seq!['/']);
    assert("/issues/"@ =~= seq!['/'] + seg_issues() + seq!['/']);
    assert("/issues"@ =~= seq!['/'] + seg_issues());
    assert("/comments"@ =~= seq!['/'] + seg_comments());
    assert("/"@ =~= seq!['/']);
}

/// Splitting `https://api.github.com/repos/` followed by segments joined with `/`
/// gives the API path with those segments, when none of them holds a `/`.
proof fn lemma_repos_url_segments(rest: Seq<Seq<char>>)
    requires
        rest.len() >= 1,
        forall|i: int| 0 <= i < rest.len() ==> lacks(#[trigger] rest[i], '/'),
    ensures
        split_on(seg_scheme() + seq!['/'] + seq!['/'] + seg_host() + seq!['/'] + seg_repos() + seq!['/']
            + join_on(rest, '/'), '/') == repos_path(rest),
{
    lemma_literal_segments();
    let e = Seq::<char>::empty();
    let all = repos_path(rest);
    assert forall|i: int| 0 <= i < all.len() implies lacks(#[trigger] all[i], '/') by {
        if i >= 4 {
            assert(all[i] == rest[i - 4]);
        }
    }
    crate::text::lemma_split_join(all, '/');
    let d3 = seq![seg_repos()] + rest;
    let d2 = seq![seg_host()] + d3;
    let d1 = seq![e] + d2;
    assert(all =~= seq![seg_scheme()] + d1);
    lemma_join(seg_scheme(), d1);
    lemma_join(e, d2);
    lemma_join(seg_host(), d3);
    lemma_join(seg_repos(), rest);
    assert(join_on(all, '/') =~= seg_scheme() + seq!['/'] + seq!['/'] + seg_host() + seq!['/']
        + seg_repos() + seq!['/'] + join_on(rest, '/'));
}

proof fn lemma_join(a: Seq<char>, rest: Seq<Seq<char>>)
    requires
        rest.len() >= 1,
    ensures
        join_on(seq![a] + rest, '/') == a + seq!['/'] + join_on(rest, '/'),
{
    assert((seq![a] + rest).drop_first() =~= rest);
}

/// Reading one issue GETs that issue's URL, for every owner, repository and number:
/// `https://api.github.com/repos/{owner}/{repo}/issues/{number}`; split at `/`, its last
/// segments are the owner, the repository, `issues` and the number.
pub proof fn lemma_issue_request_addresses_the_issue(
    owner: Seq<char>,
    repo: Seq<char>,
    number: Seq<char>,
    token: Seq<char>,
)
    ensures
        spec_issue_request(owner, repo, number, token).method == Method::Get,
        spec_issue_request(owner, repo, number, token).body is None,
        spec_issue_request(owner, repo, number, token).url == "https://api.github.com/repos/"@ + owner
            + "/"@ + repo + "/issues/"@ + number,
        lacks(owner, '/') && lacks(repo, '/') && lacks(number, '/') ==> split_on(
            spec_issue_request(owner, repo, number, token).url,
            '/',
        ) == repos_path(seq![owner, repo, seg_issues(), number]),
{
    if lacks(owner, '/') && lacks(repo, '/') && lacks(number, '/') {
        lemma_literal_segments();
        let rest = seq![owner, repo, seg_issues(), number];
        lemma_join(owner, seq![repo, seg_issues(), number]);
        lemma_join(repo, seq![seg_issues(), number]);
        lemma_join(seg_issues(), seq![number]);
        assert(seq![owner] + seq![repo, seg_issues(), number] =~= rest);
        assert(seq![repo] + seq![seg_issues(), number] =~= seq![repo, seg_issues(), number]);
        assert(seq![seg_issues()] + seq![number] =~= seq![seg_issues(), number]);
        lemma_repos_url_segments(rest);
        assert(spec_issue_request(owner, repo, number, token).url =~= seg_scheme() + seq!['/']
            + seq!['/'] + seg_host() + seq!['/'] + seg_repos() + seq!['/'] + join_on(rest, '/'));
    }
}

/// Reading an issue's comments GETs the issue's URL followed by `/comments`, for every
/// owner, repository and number; split at `/`, its last segments are the owner, the
/// repository, `issues`, the number and `comments`.
pub proof fn lemma_comments_request_addresses_the_comments(
    owner: Seq<char>,
    repo: Seq<char>,
    number: Seq<char>,
    token: Seq<char>,
)
    ensures
        spec_comments_request(owner, repo, number, token).method == Method::Get,
        spec_comments_request(owner, repo, number, token).body is None,
        spec_comments_request(owner, repo, number, token).url == "https://api.github.com/repos/"@
            + owner + "/"@ + repo + "/issues/"@ + number + "/comments"@,
        lacks(owner, '/') && lacks(repo, '/') && lacks(number, '/') ==> split_on(
            spec_comments_request(owner, repo, number, token).url,
            '/',
        ) == repos_path(seq![owner, repo, seg_issues(), number, seg_comments()]),
{
    if lacks(owner, '/') && lacks(repo, '/') && lacks(number, '/') {
        lemma_literal_segments();
        let rest = seq![owner, repo, seg_issues(), number, seg_comments()];
        lemma_join(owner, seq![repo, seg_issues(), number, seg_comments()]);
        lemma_join(repo, seq![seg_issues(), number, seg_comments()]);
        lemma_join(seg_issues(), seq![number, seg_comments()]);
        lemma_join(number, seq![seg_comments()]);
        assert(seq![owner] + seq![repo, seg_issues(), number, seg_comments()] =~= rest);
        assert(seq![repo] + seq![seg_issues(), number, seg_comments()] =~= seq![
            repo,
            seg_issues(),
            number,
            seg_comments(),
        ]);
        assert(seq![seg_issues()] + seq![number, seg_comments()] =~= seq![seg_issues(), number, seg_comments()]);
        assert(seq![number] + seq![seg_comments()] =~= seq![number, seg_comments()]);
        lemma_repos_url_segments(rest);
        assert(spec_comments_request(owner, repo, number, token).url =~= seg_scheme() + seq!['/']
            + seq!['/'] + seg_host() + seq!['/'] + seg_repos() + seq!['/'] + join_on(rest, '/'));
    }
}


proof fn lemma_digits_lack_slash(n: nat)
    ensures
        lacks(spec_decimal(n), '/'),
        forall|i: int| 0 <= i < spec_decimal(n).len() ==> #[trigger] is_digit(spec_decimal(n)[i]),
        decimal_value(spec_decimal(n)) == n,
{
    crate::readback::lemma_decimal_digits(n);
    crate::text::lemma_decimal_value(n);
    assert forall|j: int| 0 <= j < spec_decimal(n).len() implies spec_decimal(n)[j] != '/' by {
        assert(is_digit(spec_decimal(n)[j]));
    }
}

/// Changing an issue's state POSTs to that issue's URL, and the body reads back as the
/// submitted owner, repository, number and state, whatever they are. Split at `/`, the
/// URL ends in the owner, the repository, `issues`, and digits that denote the number.
pub proof fn lemma_close_request_sends_the_change(c: CloseRequest, token: Seq<char>)
    ensures
        spec_close_request(c, token).method == Method::Post,
        spec_close_request(c, token).body matches Some(b) && read_close_object(b) == Some(
            (c.owner@, c.repo@, c.number as int, c.state@),
        ),
        lacks(c.owner@, '/') && lacks(c.repo@, '/') ==> ({
            let segs = split_on(spec_close_request(c, token).url, '/');
            &&& segs.len() == 8
            &&& segs.take(7) == repos_path(seq![c.owner@, c.repo@, seg_issues()])
            &&& decimal_value(segs[7]) == c.number as int
            &&& forall|i: int| 0 <= i < segs[7].len() ==> #[trigger] is_digit(segs[7][i])
        }),
{
    crate::readback::lemma_close_json_reads_back(c);
    if lacks(c.owner@, '/') && lacks(c.repo@, '/') {
        let d = spec_decimal(c.number as nat);
        lemma_digits_lack_slash(c.number as nat);
        lemma_literal_segments();
        let rest = seq![c.owner@, c.repo@, seg_issues(), d];
        lemma_join(c.owner@, seq![c.repo@, seg_issues(), d]);
        lemma_join(c.repo@, seq![seg_issues(), d]);
        lemma_join(seg_issues(), seq![d]);
        assert(seq![c.owner@] + seq![c.repo@, seg_issues(), d] =~= rest);
        assert(seq![c.repo@] + seq![seg_issues(), d] =~= seq![c.repo@, seg_issues(), d]);
        assert(seq![seg_issues()] + seq![d] =~= seq![seg_issues(), d]);
        lemma_repos_url_segments(rest);
        assert(spec_close_request(c, token).url =~= seg_scheme() + seq!['/'] + seq!['/'] + seg_host()
            + seq!['/'] + seg_repos() + seq!['/'] + join_on(rest, '/'));
        let segs = split_on(spec_close_request(c, token).url, '/');
        assert(segs == repos_path(rest));
        assert(segs.take(7) =~= repos_path(seq![c.owner@, c.repo@, seg_issues()]));
        assert(segs[7] == d);
    }
}

/// Commenting POSTs to the issue's comments URL, and the body reads back as exactly the
/// submitted comment, whatever it holds. Split at `/`, the URL ends in the owner, the
/// repository, `issues`, digits that denote the number, and `comments`.
pub proof fn lemma_comment_request_sends_the_comment(c: CommentBody, token: Seq<char>)
    ensures
        spec_create_comment_request(c, token).method == Method::Post,
        spec_create_comment_request(c, token).body matches Some(b) && read_comment_object(b) == Some(
            c.body@,
        ),
        lacks(c.owner@, '/') && lacks(c.repo@, '/') ==> ({
            let segs = split_on(spec_create_comment_request(c, token).url, '/');
            &&& segs.len() == 9
            &&& segs.take(7) == repos_path(seq![c.owner@, c.repo@, seg_issues()])
            &&& decimal_value(segs[7]) == c.number as int
            &&& forall|i: int| 0 <= i < segs[7].len() ==> #[trigger] is_digit(segs[7][i])
            &&& segs[8] == seg_comments()
        }),
{
    crate::readback::lemma_comment_json_reads_back(c.body@);
    assert(spec_create_comment_request(c, token).body == Some(comment_object(json_string_literal(c.body@))));
    if lacks(c.owner@, '/') && lacks(c.repo@, '/') {
        let d = spec_decimal(c.number as nat);
        lemma_digits_lack_slash(c.number as nat);
        lemma_literal_segments();
        let rest = seq![c.owner@, c.repo@, seg_issues(), d, seg_comments()];
        lemma_join(c.owner@, seq![c.repo@, seg_issues(), d, seg_comments()]);
        lemma_join(c.repo@, seq![seg_issues(), d, seg_comments()]);
        lemma_join(seg_issues(), seq![d, seg_comments()]);
        lemma_join(d, seq![seg_comments()]);
        assert(seq![c.owner@] + seq![c.repo@, seg_issues(), d, seg_comments()] =~= rest);
        assert(seq![c.repo@] + seq![seg_issues(), d, seg_comments()] =~= seq![
            c.repo@,
            seg_issues(),
            d,
            seg_comments(),
        ]);
        assert(seq![seg_issues()] + seq![d, seg_comments()] =~= seq![seg_issues(), d, seg_comments()]);
        assert(seq![d] + seq![seg_comments()] =~= seq![d, seg_comments()]);
        lemma_repos_url_segments(rest);
        assert(spec_create_comment_request(c, token).url =~= seg_scheme() + seq!['/'] + seq!['/']
            + seg_host() + seq!['/'] + seg_repos() + seq!['/'] + join_on(rest, '/'));
        let segs = split_on(spec_create_comment_request(c, token).url, '/');
        assert(segs == repos_path(rest));
        assert(segs.take(7) =~= repos_path(seq![c.owner@, c.repo@, seg_issues()]));
        assert(segs[7] == d);
        assert(segs[8] == seg_comments());
    }
}

/// Creating an issue POSTs to the repository's issues URL, and the body reads back as
/// the given owner, repository, title and body. Split at `/`, the URL ends in the
/// owner, the repository and `issues`.
pub proof fn lemma_create_request_sends_the_issue(
    owner: Seq<char>,
    repo: Seq<char>,
    title: Seq<char>,
    body: Seq<char>,
    token: Seq<char>,
)
    ensures
        spec_create_issue_request(owner, repo, title, body, token).method == Method::Post,
        spec_create_issue_request(owner, repo, title, body, token).body matches Some(b)
            && read_issue_object(b) == Some((owner, repo, title, body)),
        spec_create_issue_request(owner, repo, title, body, token).url
            == "https://api.github.com/repos/"@ + owner + "/"@ + repo + "/issues"@,
        lacks(owner, '/') && lacks(repo, '/') ==> split_on(
            spec_create_issue_request(owner, repo, title, body, token).url,
            '/',
        ) == repos_path(seq![owner, repo, seg_issues()]),
{
    crate::readback::lemma_issue_json_reads_back(owner, repo, title, body);
    if lacks(owner, '/') && lacks(repo, '/') {
        lemma_literal_segments();
        let rest = seq![owner, repo, seg_issues()];
        lemma_join(owner, seq![repo, seg_issues()]);
        lemma_join(repo, seq![seg_issues()]);
        assert(seq![owner] + seq![repo, seg_issues()] =~= rest);
        assert(seq![repo] + seq![seg_issues()] =~= seq![repo, seg_issues()]);
        lemma_repos_url_segments(rest);
        assert(spec_create_issue_request(owner, repo, title, body, token).url =~= seg_scheme()
            + seq!['/'] + seq!['/'] + seg_host() + seq!['/'] + seg_repos() + seq!['/'] + join_on(
            rest,
            '/',
        ));
    }
}

} // verus!
