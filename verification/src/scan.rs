//! Literal-prefix token scanners: the scale-factor token `sf=<digit>.<digits>`
//! of the window table, and the `commit <hex>` token embedded in a version
//! attribute. Both find the leftmost match and capture a maximal run.

use vstd::prelude::*;
use vstd::string::*;
use crate::numbers::{is_digit, fixed_micro_val, fixed_wf, fixed_in_range, parse_fixed};

verus! {

/// Whether the pattern `sf=<digit>.<digit>` begins at position `i`.
pub open spec fn sf_match_at(s: Seq<char>, i: int) -> bool {
    &&& 0 <= i
    &&& i + 6 <= s.len()
    &&& s[i] == 's'
    &&& s[i + 1] == 'f'
    &&& s[i + 2] == '='
    &&& is_digit(s[i + 3])
    &&& s[i + 4] == '.'
    &&& is_digit(s[i + 5])
}

/// The end of the run of digits that starts at `j`.
pub open spec fn digit_run_end(s: Seq<char>, j: int) -> int
    decreases s.len() - j when 0 <= j <= s.len()
{
    if j < s.len() && is_digit(s[j]) {
        digit_run_end(s, j + 1)
    } else {
        j
    }
}

pub proof fn lemma_digit_run_end(s: Seq<char>, j: int)
    requires
        0 <= j <= s.len(),
    ensures
        j <= digit_run_end(s, j) <= s.len(),
        forall|k: int| j <= k < digit_run_end(s, j) ==> is_digit(#[trigger] s[k]),
        digit_run_end(s, j) < s.len() ==> !is_digit(s[digit_run_end(s, j)]),
    decreases s.len() - j,
{
    if j < s.len() && is_digit(s[j]) {
        lemma_digit_run_end(s, j + 1);
    }
}

pub proof fn lemma_digit_run_end_is(s: Seq<char>, j: int, e: int)
    requires
        0 <= j <= e <= s.len(),
        forall|k: int| j <= k < e ==> is_digit(#[trigger] s[k]),
        e == s.len() || !is_digit(s[e]),
    ensures
        digit_run_end(s, j) == e,
    decreases e - j,
{
    if j < e {
        lemma_digit_run_end_is(s, j + 1, e);
    }
}

/// The numeral captured by a scale-factor match at `i`: one digit, the dot,
/// and the maximal digit run after it.
pub open spec fn sf_capture(s: Seq<char>, i: int) -> Seq<char> {
    s.subrange(i + 3, digit_run_end(s, i + 5))
}

/// The leftmost scale-factor match at or after position `i`.
pub open spec fn sf_scan_from(s: Seq<char>, i: int) -> Option<Seq<char>>
    decreases s.len() - i when 0 <= i
{
    if i + 6 > s.len() {
        None
    } else if sf_match_at(s, i) {
        Some(sf_capture(s, i))
    } else {
        sf_scan_from(s, i + 1)
    }
}

/// The numeral captured by the first scale-factor token of `s`, if any.
pub open spec fn sf_token(s: Seq<char>) -> Option<Seq<char>> {
    sf_scan_from(s, 0)
}

/// Scans for the first `sf=<digit>.<digits>` token and parses its numeral
/// into micro-units.
pub fn scan_sf(s: &str) -> (r: Option<i64>)
    requires
        s.is_ascii(),
    ensures
        match r {
            Some(v) => sf_token(s@) is Some && v == fixed_micro_val(sf_token(s@)->Some_0),
            None => sf_token(s@) is None,
        },
{
    let n = s.unicode_len();
    if n < 6 {
        return None;
    }
    let mut i: usize = 0;
    while i <= n - 6
        invariant
            s.is_ascii(),
            n == s@.len(),
            n >= 6,
            0 <= i <= n - 5,
            sf_token(s@) == sf_scan_from(s@, i as int),
        decreases n - i,
    {
        let c0 = s.get_ascii(i);
        let c1 = s.get_ascii(i + 1);
        let c2 = s.get_ascii(i + 2);
        let c3 = s.get_ascii(i + 3);
        let c4 = s.get_ascii(i + 4);
        let c5 = s.get_ascii(i + 5);
        proof {
            assert('\0' <= s@[i as int] <= '\u{7f}');
            assert('\0' <= s@[i as int + 1] <= '\u{7f}');
            assert('\0' <= s@[i as int + 2] <= '\u{7f}');
            assert('\0' <= s@[i as int + 3] <= '\u{7f}');
            assert('\0' <= s@[i as int + 4] <= '\u{7f}');
            assert('\0' <= s@[i as int + 5] <= '\u{7f}');
            assert((c0 == 115) == (s@[i as int] == 's'));
            assert((c1 == 102) == (s@[i as int + 1] == 'f'));
            assert((c2 == 61) == (s@[i as int + 2] == '='));
            assert((48 <= c3 <= 57) == is_digit(s@[i as int + 3]));
            assert((c4 == 46) == (s@[i as int + 4] == '.'));
            assert((48 <= c5 <= 57) == is_digit(s@[i as int + 5]));
        }
        if c0 == 115 && c1 == 102 && c2 == 61 && 48 <= c3 && c3 <= 57 && c4 == 46 && 48 <= c5
            && c5 <= 57 {
            let mut j = i + 6;
            while j < n
                invariant
                    s.is_ascii(),
                    n == s@.len(),
                    i + 6 <= j <= n,
                    forall|k: int| i + 5 <= k < j ==> is_digit(#[trigger] s@[k]),
                ensures
                    i + 6 <= j <= n,
                    forall|k: int| i + 5 <= k < j ==> is_digit(#[trigger] s@[k]),
                    j == n || !is_digit(s@[j as int]),
                decreases n - j,
            {
                let b = s.get_ascii(j);
                proof {
                    assert('\0' <= s@[j as int] <= '\u{7f}');
                    assert((48 <= b <= 57) == is_digit(s@[j as int]));
                }
                if b < 48 || b > 57 {
                    break;
                }
                j = j + 1;
            }
            let cap = s.substring_ascii(i + 3, j);
            proof {
                lemma_digit_run_end_is(s@, i as int + 5, j as int);
                assert(sf_match_at(s@, i as int));
                assert(cap@ =~= sf_capture(s@, i as int));
                assert(sf_scan_from(s@, i as int) == Some(cap@));
            }
            match parse_fixed(cap) {
                Some(v) => {
                    return Some(v);
                },
                None => {
                    proof {
                        lemma_sf_capture_wf(s@, i as int);
                        assert(false);
                    }
                    return None;
                },
            }
        }
        proof {
            assert(!sf_match_at(s@, i as int));
        }
        i = i + 1;
    }
    proof {
        assert(sf_scan_from(s@, i as int) is None);
    }
    None
}

/// A lower-case hexadecimal digit.
pub open spec fn is_hex(c: char) -> bool {
    is_digit(c) || 'a' <= c <= 'f'
}

/// The end of the run of hexadecimal digits that starts at `j`.
pub open spec fn hex_run_end(s: Seq<char>, j: int) -> int
    decreases s.len() - j when 0 <= j <= s.len()
{
    if j < s.len() && is_hex(s[j]) {
        hex_run_end(s, j + 1)
    } else {
        j
    }
}

pub proof fn lemma_hex_run_end_is(s: Seq<char>, j: int, e: int)
    requires
        0 <= j <= e <= s.len(),
        forall|k: int| j <= k < e ==> is_hex(#[trigger] s[k]),
        e == s.len() || !is_hex(s[e]),
    ensures
        hex_run_end(s, j) == e,
    decreases e - j,
{
    if j < e {
        lemma_hex_run_end_is(s, j + 1, e);
    }
}

/// Whether the pattern `commit <hex>` begins at position `i`.
pub open spec fn commit_match_at(s: Seq<char>, i: int) -> bool {
    &&& 0 <= i
    &&& i + 8 <= s.len()
    &&& s[i] == 'c'
    &&& s[i + 1] == 'o'
    &&& s[i + 2] == 'm'
    &&& s[i + 3] == 'm'
    &&& s[i + 4] == 'i'
    &&& s[i + 5] == 't'
    &&& s[i + 6] == ' '
    &&& is_hex(s[i + 7])
}

/// The hexadecimal run captured by a commit-marker match at `i`.
pub open spec fn commit_capture(s: Seq<char>, i: int) -> Seq<char> {
    s.subrange(i + 7, hex_run_end(s, i + 7))
}

/// The leftmost commit-marker match at or after position `i`.
pub open spec fn commit_scan_from(s: Seq<char>, i: int) -> Option<Seq<char>>
    decreases s.len() - i when 0 <= i
{
    if i + 8 > s.len() {
        None
    } else if commit_match_at(s, i) {
        Some(commit_capture(s, i))
    } else {
        commit_scan_from(s, i + 1)
    }
}

/// The hexadecimal token following the first `commit ` marker of `s`, if any.
pub open spec fn commit_token(s: Seq<char>) -> Option<Seq<char>> {
    commit_scan_from(s, 0)
}

/// Scans for the first `commit ` marker followed by a hexadecimal token and
/// returns that token.
pub fn scan_commit(s: &str) -> (r: Option<String>)
    ensures
        match r {
            Some(h) => commit_token(s@) == Some(h@),
            None => commit_token(s@) is None,
        },
{
    let n = s.unicode_len();
    if n < 8 {
        return None;
    }
    let mut i: usize = 0;
    while i <= n - 8
        invariant
            n == s@.len(),
            n >= 8,
            0 <= i <= n - 7,
            commit_token(s@) == commit_scan_from(s@, i as int),
        decreases n - i,
    {
        let c0 = s.get_char(i);
        let c1 = s.get_char(i + 1);
        let c2 = s.get_char(i + 2);
        let c3 = s.get_char(i + 3);
        let c4 = s.get_char(i + 4);
        let c5 = s.get_char(i + 5);
        let c6 = s.get_char(i + 6);
        let c7 = s.get_char(i + 7);
        if c0 == 'c' && c1 == 'o' && c2 == 'm' && c3 == 'm' && c4 == 'i' && c5 == 't' && c6 == ' '
            && (c7 >= '0' && c7 <= '9' || c7 >= 'a' && c7 <= 'f') {
            let mut j = i + 8;
            while j < n
                invariant
                    n == s@.len(),
                    i + 8 <= j <= n,
                    forall|k: int| i + 7 <= k < j ==> is_hex(#[trigger] s@[k]),
                ensures
                    i + 8 <= j <= n,
                    forall|k: int| i + 7 <= k < j ==> is_hex(#[trigger] s@[k]),
                    j == n || !is_hex(s@[j as int]),
                decreases n - j,
            {
                let c = s.get_char(j);
                if !(c >= '0' && c <= '9' || c >= 'a' && c <= 'f') {
                    break;
                }
                j = j + 1;
            }
            let cap = s.substring_char(i + 7, j);
            proof {
                lemma_hex_run_end_is(s@, i as int + 7, j as int);
                assert(commit_match_at(s@, i as int));
                assert(cap@ =~= commit_capture(s@, i as int));
                assert(commit_scan_from(s@, i as int) == Some(cap@));
            }
            return Some(cap.to_owned());
        }
        proof {
            assert(!commit_match_at(s@, i as int));
        }
        i = i + 1;
    }
    proof {
        assert(commit_scan_from(s@, i as int) is None);
    }
    None
}

/// A scale-factor capture is a well-formed in-range numeral.
proof fn lemma_sf_capture_wf(s: Seq<char>, i: int)
    requires
        sf_match_at(s, i),
    ensures
        fixed_wf(sf_capture(s, i)),
        fixed_in_range(sf_capture(s, i)),
{
    lemma_digit_run_end(s, i + 5);
    let cap = sf_capture(s, i);
    assert(cap[0] == s[i + 3]);
    assert(cap[1] == s[i + 4]);
    assert(crate::numbers::int_body(cap) =~= cap);
    crate::text::lemma_idx_of_is(cap, '.', 1);
    assert(crate::numbers::fixed_int_part(cap) =~= seq![s[i + 3]]);
    assert(crate::numbers::all_digits(crate::numbers::fixed_int_part(cap)));
    assert(crate::numbers::fixed_frac_part(cap) =~= s.subrange(i + 5, digit_run_end(s, i + 5)));
    assert(crate::numbers::all_digits(crate::numbers::fixed_frac_part(cap)));
    assert(crate::numbers::digits_val(seq![s[i + 3]]) <= 9) by {
        assert(seq![s[i + 3]].drop_last() =~= Seq::<char>::empty());
        assert(crate::numbers::digits_val(Seq::<char>::empty()) == 0);
        assert(seq![s[i + 3]].last() == s[i + 3]);
    }
}

} // verus!
