//! Character-level text helpers: splitting on a separator and comparing.
use vstd::prelude::*;

verus! {

/// Index of the first occurrence of `c` in `s`, or `s.len()` when `c` does not occur.
pub open spec fn first_index(s: Seq<char>, c: char) -> nat
    decreases s.len(),
{
    if s.len() == 0 {
        0
    } else if s[0] == c {
        0
    } else {
        1 + first_index(s.drop_first(), c)
    }
}

/// The pieces of `s` between occurrences of `sep`, as `str::split` yields them:
/// there is always at least one piece, and `k` separators give `k + 1` pieces.
pub open spec fn split_on(s: Seq<char>, sep: char) -> Seq<Seq<char>>
    decreases s.len(),
{
    let i = first_index(s, sep);
    if i >= s.len() {
        seq![s]
    } else {
        seq![s.take(i as int)] + split_on(s.skip(i + 1 as int), sep)
    }
}

/// `s` does not contain `c`.
pub open spec fn lacks(s: Seq<char>, c: char) -> bool {
    forall|j: int| 0 <= j < s.len() ==> s[j] != c
}

/// The first index is the position of the first `c`, or the length when there is none.
pub proof fn lemma_first_index_at(s: Seq<char>, c: char, k: int)
    requires
        0 <= k <= s.len(),
        lacks(s.take(k), c),
        k == s.len() || s[k] == c,
    ensures
        first_index(s, c) == k,
    decreases k,
{
    if k > 0 {
        assert(s[0] == s.take(k)[0]);
        let t = s.drop_first();
        assert forall|j: int| 0 <= j < k - 1 implies #[trigger] t.take(k - 1)[j] != c by {
            assert(t.take(k - 1)[j] == s.take(k)[j + 1]);
        }
        if k < s.len() {
            assert(t[k - 1] == s[k]);
        }
        lemma_first_index_at(t, c, k - 1);
    }
}

/// A text without the separator is a single piece.
pub proof fn lemma_split_lacking(s: Seq<char>, sep: char)
    requires
        lacks(s, sep),
    ensures
        split_on(s, sep) == seq![s],
{
    assert(s.take(s.len() as int) =~= s);
    lemma_first_index_at(s, sep, s.len() as int);
}

/// What the first index tells: no `c` before it, and a `c` at it unless it is the length.
pub proof fn lemma_first_index_props(s: Seq<char>, c: char)
    ensures
        first_index(s, c) <= s.len(),
        lacks(s.take(first_index(s, c) as int), c),
        first_index(s, c) < s.len() ==> s[first_index(s, c) as int] == c,
    decreases s.len(),
{
    if s.len() > 0 && s[0] != c {
        let t = s.drop_first();
        lemma_first_index_props(t, c);
        let k = first_index(t, c) as int;
        assert forall|j: int| 0 <= j < k + 1 implies #[trigger] s.take(k + 1)[j] != c by {
            if j > 0 {
                assert(s.take(k + 1)[j] == t.take(k)[j - 1]);
            }
        }
        if k < t.len() {
            assert(s[k + 1] == t[k]);
        }
    }
}

/// Splitting `a + [sep] + b` where `a` lacks the separator gives `a` followed by the pieces of `b`.
pub proof fn lemma_split_cons(a: Seq<char>, sep: char, b: Seq<char>)
    requires
        lacks(a, sep),
    ensures
        split_on(a + seq![sep] + b, sep) == seq![a] + split_on(b, sep),
{
    let s = a + seq![sep] + b;
    assert(s.take(a.len() as int) =~= a);
    lemma_first_index_at(s, sep, a.len() as int);
    assert(s.skip(a.len() + 1 as int) =~= b);
}

/// The last piece of `p + [sep] + v` is `v` when `v` lacks the separator.
pub proof fn lemma_split_last(p: Seq<char>, sep: char, v: Seq<char>)
    requires
        lacks(v, sep),
    ensures
        split_on(p + seq![sep] + v, sep).last() == v,
    decreases p.len(),
{
    let s = p + seq![sep] + v;
    lemma_first_index_props(p, sep);
    let i = first_index(p, sep) as int;
    if i < p.len() {
        assert(s.take(i) =~= p.take(i));
        assert forall|j: int| 0 <= j < i implies #[trigger] s.take(i)[j] != sep by {
            assert(s.take(i)[j] == p.take(i)[j]);
        }
        lemma_first_index_at(s, sep, i);
        let q = p.skip(i + 1);
        assert(s.skip(i + 1) =~= q + seq![sep] + v);
        lemma_split_last(q, sep, v);
        lemma_split_nonempty(q + seq![sep] + v, sep);
    } else {
        assert(p.take(i) =~= p);
        lemma_split_cons(p, sep, v);
        lemma_split_lacking(v, sep);
    }
}

/// The pieces joined with `sep` between them.
pub open spec fn join_on(pieces: Seq<Seq<char>>, sep: char) -> Seq<char>
    decreases pieces.len(),
{
    if pieces.len() == 0 {
        Seq::empty()
    } else if pieces.len() == 1 {
        pieces[0]
    } else {
        pieces[0] + seq![sep] + join_on(pieces.drop_first(), sep)
    }
}

/// Splitting pieces joined with a separator that none of them holds gives the pieces back.
pub proof fn lemma_split_join(pieces: Seq<Seq<char>>, sep: char)
    requires
        pieces.len() >= 1,
        forall|i: int| 0 <= i < pieces.len() ==> lacks(#[trigger] pieces[i], sep),
    ensures
        split_on(join_on(pieces, sep), sep) == pieces,
    decreases pieces.len(),
{
    if pieces.len() == 1 {
        lemma_split_lacking(pieces[0], sep);
        assert(seq![pieces[0]] =~= pieces);
    } else {
        let rest = pieces.drop_first();
        assert(forall|i: int| 0 <= i < rest.len() ==> rest[i] == pieces[i + 1]);
        lemma_split_join(rest, sep);
        assert(lacks(pieces[0], sep));
        lemma_split_cons(pieces[0], sep, join_on(rest, sep));
        assert(seq![pieces[0]] + rest =~= pieces);
    }
}

/// Every split has at least one piece.
pub proof fn lemma_split_nonempty(s: Seq<char>, sep: char)
    ensures
        split_on(s, sep).len() >= 1,
    decreases s.len(),
{
    let i = first_index(s, sep);
    if i < s.len() {
        lemma_split_nonempty(s.skip(i + 1 as int), sep);
    }
}

/// The characters of `s`, in order.
pub fn chars_of(s: &str) -> (r: Vec<char>)
    ensures
        r@ == s@,
{
    let mut r: Vec<char> = Vec::new();
    for c in it: s.chars()
        invariant
            r@ == it.seq().take(it.index() as int),
    {
        r.push(c);
    }
    r
}

/// The views of a sequence of strings.
pub open spec fn texts(v: Seq<String>) -> Seq<Seq<char>> {
    v.map_values(|p: String| p@)
}

/// Splits `s` at every `sep`, as `s.split(sep)` does: the pieces in order,
/// at least one, empty pieces included.
pub fn split_text(s: &str, sep: char) -> (r: Vec<String>)
    ensures
        texts(r@) == split_on(s@, sep),
        r@.len() >= 1,
{
    let cs = chars_of(s);
    let n = cs.len();
    let mut r: Vec<String> = Vec::new();
    let mut start: usize = 0;
    let mut i: usize = 0;
    assert(s@.skip(0) =~= s@);
    while i < n
        invariant
            n == s@.len(),
            cs@ == s@,
            start <= i <= n,
            lacks(s@.subrange(start as int, i as int), sep),
            texts(r@) + split_on(s@.skip(start as int), sep) == split_on(s@, sep),
        decreases n - i,
    {
        if cs[i] == sep {
            let piece = String::from_str(s.substring_char(start, i));
            proof {
                let a = s@.subrange(start as int, i as int);
                let b = s@.skip(i + 1);
                assert(s@.skip(start as int) =~= a + seq![sep] + b);
                lemma_split_cons(a, sep, b);
            }
            let ghost before = r@;
            r.push(piece);
            proof {
                assert(texts(r@) =~= texts(before).push(piece@));
                assert(texts(r@) + split_on(s@.skip(i + 1), sep) =~= texts(before) + (seq![piece@]
                    + split_on(s@.skip(i + 1), sep)));
            }
            start = i + 1;
        } else {
            assert(s@.subrange(start as int, i + 1) =~= s@.subrange(start as int, i as int).push(
                s@[i as int],
            ));
        }
        i = i + 1;
    }
    let last = String::from_str(s.substring_char(start, n));
    proof {
        assert(s@.skip(start as int) =~= s@.subrange(start as int, n as int));
        lemma_split_lacking(s@.skip(start as int), sep);
    }
    let ghost before = r@;
    r.push(last);
    proof {
        assert(texts(r@) =~= texts(before).push(last@));
        assert(texts(r@) =~= texts(before) + seq![last@]);
    }
    r
}

/// The decimal digit for `d` (meant for `d < 10`).
pub open spec fn digit_char(d: nat) -> char {
    (48 + d) as char
}

/// Decimal notation of `n`, most significant digit first, without leading zeros.
pub open spec fn spec_decimal(n: nat) -> Seq<char>
    decreases n,
{
    if n < 10 {
        seq![digit_char(n)]
    } else {
        spec_decimal(n / 10) + seq![digit_char(n % 10)]
    }
}

/// The number that a string of decimal digits denotes.
pub open spec fn decimal_value(s: Seq<char>) -> int
    decreases s.len(),
{
    if s.len() == 0 {
        0
    } else {
        decimal_value(s.drop_last()) * 10 + (s.last() as int - 48)
    }
}

/// Decimal notation denotes the number it was written for.
pub proof fn lemma_decimal_value(n: nat)
    ensures
        decimal_value(spec_decimal(n)) == n,
        1 <= spec_decimal(n).len(),
    decreases n,
{
    if n >= 10 {
        lemma_decimal_value(n / 10);
        let s = spec_decimal(n);
        assert(s.drop_last() =~= spec_decimal(n / 10));
        assert(s.last() as int == 48 + n % 10);
        assert(n == (n / 10) * 10 + n % 10);
        assert(decimal_value(s) == decimal_value(s.drop_last()) * 10 + (s.last() as int - 48));
    } else {
        let s = spec_decimal(n);
        assert(s.drop_last() =~= Seq::<char>::empty());
        assert(decimal_value(s.drop_last()) == 0);
        assert(s.last() == digit_char(n));
    }
}

fn digit_text(d: u8) -> (r: &'static str)
    requires
        d < 10,
    ensures
        r@ == seq![digit_char(d as nat)],
{
    proof {
        reveal_strlit("0");
        reveal_strlit("1");
        reveal_strlit("2");
        reveal_strlit("3");
        reveal_strlit("4");
        reveal_strlit("5");
        reveal_strlit("6");
        reveal_strlit("7");
        reveal_strlit("8");
        reveal_strlit("9");
    }
    match d {
        0 => "0",
        1 => "1",
        2 => "2",
        3 => "3",
        4 => "4",
        5 => "5",
        6 => "6",
        7 => "7",
        8 => "8",
        _ => "9",
    }
}

/// The decimal notation of `n`, as `n.to_string()` writes it.
pub fn decimal(n: u8) -> (r: String)
    ensures
        r@ == spec_decimal(n as nat),
{
    let mut r = String::new();
    if n >= 100 {
        r.append(digit_text(n / 100));
    }
    if n >= 10 {
        r.append(digit_text((n / 10) % 10));
    }
    r.append(digit_text(n % 10));
    proof {
        let m = n as nat;
        if m >= 100 {
            assert(spec_decimal(m / 100) == seq![digit_char(m / 100)]);
            assert(spec_decimal(m / 10) =~= spec_decimal(m / 10 / 10) + seq![digit_char(m / 10 % 10)]);
            assert(m / 10 / 10 == m / 100);
        } else if m >= 10 {
            assert(spec_decimal(m / 10) == seq![digit_char(m / 10)]);
            assert(m / 10 % 10 == m / 10);
        }
    }
    r
}

} // verus!
