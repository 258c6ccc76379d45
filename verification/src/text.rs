//! ASCII text utilities: whitespace tokenization and single-character splits,
//! specified over `Seq<char>` views.

use vstd::prelude::*;
use vstd::string::*;

verus! {

/// ASCII whitespace characters.
pub open spec fn is_ws(c: char) -> bool {
    c == ' ' || c == '\t' || c == '\n' || c == '\r' || c == '\u{b}' || c == '\u{c}'
}

/// The maximal non-whitespace prefix of `s`.
pub open spec fn first_token(s: Seq<char>) -> Seq<char>
    decreases s.len(),
{
    if s.len() == 0 || is_ws(s[0]) {
        Seq::empty()
    } else {
        seq![s[0]] + first_token(s.drop_first())
    }
}

pub proof fn lemma_first_token_bounds(s: Seq<char>)
    ensures
        first_token(s).len() <= s.len(),
        s.len() > 0 && !is_ws(s[0]) ==> first_token(s).len() >= 1,
    decreases s.len(),
{
    if s.len() > 0 && !is_ws(s[0]) {
        lemma_first_token_bounds(s.drop_first());
    }
}

/// `first_token` is the prefix delimited by the first whitespace character (or the end).
pub proof fn lemma_first_token_is(s: Seq<char>, j: int)
    requires
        0 <= j <= s.len(),
        forall|k: int| 0 <= k < j ==> !is_ws(s[k]),
        j == s.len() || is_ws(s[j]),
    ensures
        first_token(s) =~= s.subrange(0, j),
    decreases s.len(),
{
    if j == 0 {
    } else {
        lemma_first_token_is(s.drop_first(), j - 1);
        assert(seq![s[0]] + s.drop_first().subrange(0, j - 1) =~= s.subrange(0, j));
    }
}

/// The sequence of whitespace-separated tokens of `s` (empty tokens never occur).
pub open spec fn ws_tokens(s: Seq<char>) -> Seq<Seq<char>>
    decreases s.len(),
{
    if s.len() == 0 {
        Seq::empty()
    } else if is_ws(s[0]) {
        ws_tokens(s.drop_first())
    } else {
        proof {
            lemma_first_token_bounds(s);
        }
        seq![first_token(s)] + ws_tokens(s.skip(first_token(s).len() as int))
    }
}

/// Splitting whitespace-separated tokens out of a string slice.
pub fn split_ws<'a>(s: &'a str) -> (r: Vec<&'a str>)
    requires
        s.is_ascii(),
    ensures
        r.deep_view() =~~= ws_tokens(s@),
        forall|i: int| 0 <= i < r@.len() ==> (#[trigger] r@[i]).is_ascii(),
{
    let n = s.unicode_len();
    let mut r: Vec<&'a str> = Vec::new();
    let mut i: usize = 0;
    proof {
        assert(s@.skip(0) =~= s@);
    }
    while i < n
        invariant
            s.is_ascii(),
            n == s@.len(),
            0 <= i <= n,
            ws_tokens(s@) =~~= r.deep_view() + ws_tokens(s@.skip(i as int)),
            forall|k: int| 0 <= k < r@.len() ==> (#[trigger] r@[k]).is_ascii(),
        decreases n - i,
    {
        let b = s.get_ascii(i);
        if b == 32 || b == 9 || b == 10 || b == 13 || b == 11 || b == 12 {
            proof {
                let t = s@.skip(i as int);
                assert(t[0] == s@[i as int]);
                assert(is_ws(t[0]));
                assert(ws_tokens(t) == ws_tokens(t.drop_first()));
                assert(t.drop_first() =~= s@.skip(i as int + 1));
            }
            i = i + 1;
        } else {
            let start = i;
            i = i + 1;
            while i < n
                invariant
                    s.is_ascii(),
                    n == s@.len(),
                    0 <= start < i <= n,
                    forall|k: int| start <= k < i ==> !is_ws(s@[k]),
                ensures
                    start < i <= n,
                    forall|k: int| start <= k < i ==> !is_ws(s@[k]),
                    i == n || is_ws(s@[i as int]),
                decreases n - i,
            {
                let b2 = s.get_ascii(i);
                if b2 == 32 || b2 == 9 || b2 == 10 || b2 == 13 || b2 == 11 || b2 == 12 {
                    break;
                }
                i = i + 1;
            }
            let tok = s.substring_ascii(start, i);
            proof {
                let t = s@.skip(start as int);
                lemma_first_token_is(t, i - start);
                assert(first_token(t) =~= s@.subrange(start as int, i as int));
                assert(!is_ws(t[0]));
                assert(ws_tokens(t) == seq![first_token(t)] + ws_tokens(
                    t.skip(first_token(t).len() as int),
                ));
                assert(t.skip(i - start) =~= s@.skip(i as int));
                assert(tok@ =~= first_token(t));
            }
            r.push(tok);
        }
    }
    proof {
        assert(s@.skip(n as int) =~= Seq::<char>::empty());
    }
    r
}

/// Index of the first occurrence of `c` in `s`, or `s.len()` if `c` is absent.
pub open spec fn idx_of(s: Seq<char>, c: char) -> int
    decreases s.len(),
{
    if s.len() == 0 {
        0
    } else if s[0] == c {
        0
    } else {
        1 + idx_of(s.drop_first(), c)
    }
}

pub proof fn lemma_idx_of(s: Seq<char>, c: char)
    ensures
        0 <= idx_of(s, c) <= s.len(),
        idx_of(s, c) < s.len() ==> s[idx_of(s, c)] == c,
        forall|k: int| 0 <= k < idx_of(s, c) ==> s[k] != c,
    decreases s.len(),
{
    if s.len() > 0 && s[0] != c {
        lemma_idx_of(s.drop_first(), c);
        assert forall|k: int| 0 <= k < idx_of(s, c) implies s[k] != c by {
            if k > 0 {
                assert(s.drop_first()[k - 1] != c);
            }
        }
    }
}

pub proof fn lemma_idx_of_is(s: Seq<char>, c: char, j: int)
    requires
        0 <= j <= s.len(),
        forall|k: int| 0 <= k < j ==> s[k] != c,
        j == s.len() || s[j] == c,
    ensures
        idx_of(s, c) == j,
    decreases s.len(),
{
    if j > 0 {
        assert(s[0] != c);
        lemma_idx_of_is(s.drop_first(), c, j - 1);
    }
}

/// Split `s` at every occurrence of `c`, keeping empty segments.
pub open spec fn split_on(s: Seq<char>, c: char) -> Seq<Seq<char>>
    decreases s.len(),
{
    if idx_of(s, c) == s.len() {
        seq![s]
    } else {
        proof {
            lemma_idx_of(s, c);
        }
        seq![s.take(idx_of(s, c))] + split_on(s.skip(idx_of(s, c) + 1), c)
    }
}

/// Index of the first occurrence of `c`, or the length of `s` if absent.
pub fn find_char(s: &str, c: char) -> (r: usize)
    requires
        s.is_ascii(),
        '\0' <= c <= '\u{7f}',
    ensures
        r == idx_of(s@, c),
        r <= s@.len(),
{
    let n = s.unicode_len();
    let cb = c as u8;
    let mut i: usize = 0;
    while i < n
        invariant
            s.is_ascii(),
            '\0' <= c <= '\u{7f}',
            cb == c as u8,
            n == s@.len(),
            0 <= i <= n,
            forall|k: int| 0 <= k < i ==> s@[k] != c,
        decreases n - i,
    {
        let b = s.get_ascii(i);
        proof {
            assert('\0' <= s@[i as int] <= '\u{7f}');
            assert((b == cb) == (s@[i as int] == c));
        }
        if b == cb {
            proof {
                lemma_idx_of_is(s@, c, i as int);
            }
            return i;
        }
        i = i + 1;
    }
    proof {
        lemma_idx_of_is(s@, c, n as int);
    }
    n
}

/// The segments to the left and right of the first `c` in `s`, if `c` occurs.
pub fn split_first<'a>(s: &'a str, c: char) -> (r: Option<(&'a str, &'a str)>)
    requires
        s.is_ascii(),
        '\0' <= c <= '\u{7f}',
    ensures
        match r {
            Some(p) => {
                &&& idx_of(s@, c) < s@.len()
                &&& p.0@ =~= s@.take(idx_of(s@, c))
                &&& p.1@ =~= s@.skip(idx_of(s@, c) + 1)
                &&& p.0.is_ascii()
                &&& p.1.is_ascii()
            },
            None => idx_of(s@, c) == s@.len(),
        },
{
    let n = s.unicode_len();
    let i = find_char(s, c);
    if i == n {
        None
    } else {
        let left = s.substring_ascii(0, i);
        let right = s.substring_ascii(i + 1, n);
        Some((left, right))
    }
}

/// Split `s` at every occurrence of `c`, keeping empty segments.
pub fn split_char<'a>(s: &'a str, c: char) -> (r: Vec<&'a str>)
    requires
        s.is_ascii(),
        '\0' <= c <= '\u{7f}',
    ensures
        r.deep_view() =~~= split_on(s@, c),
        forall|i: int| 0 <= i < r@.len() ==> (#[trigger] r@[i]).is_ascii(),
{
    let n = s.unicode_len();
    let cb = c as u8;
    let mut r: Vec<&'a str> = Vec::new();
    let mut start: usize = 0;
    let mut i: usize = 0;
    proof {
        assert(s@.skip(0) =~= s@);
    }
    while i < n
        invariant
            s.is_ascii(),
            '\0' <= c <= '\u{7f}',
            cb == c as u8,
            n == s@.len(),
            0 <= start <= i <= n,
            forall|k: int| start <= k < i ==> s@[k] != c,
            split_on(s@, c) =~~= r.deep_view() + split_on(s@.skip(start as int), c),
            forall|k: int| 0 <= k < r@.len() ==> (#[trigger] r@[k]).is_ascii(),
        decreases n - i,
    {
        let b = s.get_ascii(i);
        proof {
            assert('\0' <= s@[i as int] <= '\u{7f}');
            assert((b == cb) == (s@[i as int] == c));
        }
        if b == cb {
            let seg = s.substring_ascii(start, i);
            proof {
                let t = s@.skip(start as int);
                lemma_idx_of_is(t, c, i - start);
                assert(idx_of(t, c) < t.len());
                assert(split_on(t, c) == seq![t.take(i - start)] + split_on(
                    t.skip(i - start + 1),
                    c,
                ));
                assert(t.take(i - start) =~= s@.subrange(start as int, i as int));
                assert(t.skip(i - start + 1) =~= s@.skip(i as int + 1));
            }
            r.push(seg);
            i = i + 1;
            start = i;
        } else {
            i = i + 1;
        }
    }
    let tail = s.substring_ascii(start, n);
    proof {
        let t = s@.skip(start as int);
        lemma_idx_of_is(t, c, n - start);
        assert(split_on(t, c) == seq![t]);
        assert(t =~= s@.subrange(start as int, n as int));
    }
    r.push(tail);
    r
}

} // verus!
