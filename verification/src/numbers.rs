//! Decimal numerals: parsing integer and fixed-point tokens into micro-units
//! (millionths), and rendering unsigned numbers back to decimal strings.
//!
//! Reference values carry at most a handful of decimal places, so every
//! numeric field of the tables is held exactly as a signed count of
//! millionths.

use vstd::prelude::*;
use vstd::string::*;
use crate::text::idx_of;

verus! {

/// One millionth: the resolution at which numeric fields are held.
pub const MICRO_SCALE: i64 = 1000000;

/// Magnitude cap on the integer part of a parsed numeral, chosen so that
/// scaling to micro-units can never overflow an `i64`.
pub const MAX_INT_PART: i64 = 9000000000000;

pub open spec fn is_digit(c: char) -> bool {
    '0' <= c <= '9'
}

pub open spec fn digit_val(c: char) -> int {
    c as int - '0' as int
}

pub open spec fn all_digits(s: Seq<char>) -> bool {
    forall|i: int| 0 <= i < s.len() ==> is_digit(#[trigger] s[i])
}

/// The value of an all-digit numeral, most significant digit first.
pub open spec fn digits_val(s: Seq<char>) -> int
    decreases s.len(),
{
    if s.len() == 0 {
        0
    } else {
        digits_val(s.drop_last()) * 10 + digit_val(s.last())
    }
}

pub open spec fn pow10(n: int) -> int
    decreases n,
{
    if n <= 0 {
        1
    } else {
        10 * pow10(n - 1)
    }
}

pub proof fn lemma_digits_val_nonneg(s: Seq<char>)
    requires
        all_digits(s),
    ensures
        digits_val(s) >= 0,
    decreases s.len(),
{
    if s.len() > 0 {
        assert(all_digits(s.drop_last()));
        lemma_digits_val_nonneg(s.drop_last());
    }
}

pub proof fn lemma_digits_val_bound(s: Seq<char>)
    requires
        all_digits(s),
    ensures
        0 <= digits_val(s) < pow10(s.len() as int),
    decreases s.len(),
{
    if s.len() > 0 {
        assert(all_digits(s.drop_last()));
        lemma_digits_val_bound(s.drop_last());
    }
}

pub proof fn lemma_digits_val_take_step(s: Seq<char>, i: int)
    requires
        0 <= i < s.len(),
    ensures
        digits_val(s.take(i + 1)) == digits_val(s.take(i)) * 10 + digit_val(s[i]),
{
    assert(s.take(i + 1).drop_last() =~= s.take(i));
    assert(s.take(i + 1).last() == s[i]);
}

pub proof fn lemma_digits_val_prefix_le(s: Seq<char>, j: int)
    requires
        all_digits(s),
        0 <= j <= s.len(),
    ensures
        digits_val(s.take(j)) <= digits_val(s),
    decreases s.len() - j,
{
    if j < s.len() {
        assert(all_digits(s.take(j))) by {
            assert(forall|k: int| 0 <= k < j ==> s.take(j)[k] == s[k]);
        }
        lemma_digits_val_nonneg(s.take(j));
        lemma_digits_val_take_step(s, j);
        lemma_digits_val_prefix_le(s, j + 1);
    } else {
        assert(s.take(j) =~= s);
    }
}

/// Parses a non-empty all-digit token whose value is at most `max`.
pub fn parse_digits(s: &str, max: i64) -> (r: Option<i64>)
    requires
        s.is_ascii(),
        max >= 9,
    ensures
        match r {
            Some(v) => {
                &&& s@.len() >= 1
                &&& all_digits(s@)
                &&& v == digits_val(s@)
                &&& 0 <= v <= max
            },
            None => !(s@.len() >= 1 && all_digits(s@) && digits_val(s@) <= max),
        },
{
    let n = s.unicode_len();
    if n == 0 {
        return None;
    }
    let mut acc: i64 = 0;
    let mut i: usize = 0;
    proof {
        assert(s@.take(0) =~= Seq::<char>::empty());
    }
    while i < n
        invariant
            s.is_ascii(),
            max >= 9,
            n == s@.len(),
            0 <= i <= n,
            all_digits(s@.take(i as int)),
            acc == digits_val(s@.take(i as int)),
            0 <= acc <= max,
        decreases n - i,
    {
        let b = s.get_ascii(i);
        proof {
            assert('\0' <= s@[i as int] <= '\u{7f}');
            assert((48 <= b <= 57) == is_digit(s@[i as int]));
        }
        if b < 48 || b > 57 {
            return None;
        }
        let d = (b - 48) as i64;
        proof {
            assert(d == digit_val(s@[i as int]));
            lemma_digits_val_take_step(s@, i as int);
        }
        if acc > (max - d) / 10 {
            proof {
                assert(acc * 10 + d > max) by (nonlinear_arith)
                    requires
                        acc > (max - d) / 10,
                        0 <= d <= 9,
                        max >= 9,
                        acc >= 0,
                ;
                if all_digits(s@) {
                    lemma_digits_val_prefix_le(s@, i as int + 1);
                }
            }
            return None;
        }
        proof {
            assert(acc * 10 + d <= max) by (nonlinear_arith)
                requires
                    acc <= (max - d) / 10,
                    0 <= d <= 9,
                    max >= 9,
                    acc >= 0,
            ;
        }
        acc = acc * 10 + d;
        i = i + 1;
    }
    proof {
        assert(s@.take(n as int) =~= s@);
    }
    Some(acc)
}

/// Whether every character of `s` from position `i` on is a digit.
fn s_all_digits(s: &str, from: usize) -> (r: bool)
    requires
        s.is_ascii(),
        from <= s@.len(),
    ensures
        r == forall|k: int| from <= k < s@.len() ==> is_digit(#[trigger] s@[k]),
{
    let n = s.unicode_len();
    let mut i = from;
    while i < n
        invariant
            s.is_ascii(),
            n == s@.len(),
            from <= i <= n,
            forall|k: int| from <= k < i ==> is_digit(#[trigger] s@[k]),
        decreases n - i,
    {
        let b = s.get_ascii(i);
        proof {
            assert('\0' <= s@[i as int] <= '\u{7f}');
            assert((48 <= b <= 57) == is_digit(s@[i as int]));
        }
        if b < 48 || b > 57 {
            return false;
        }
        i = i + 1;
    }
    true
}

/// The numeral with any leading minus sign removed.
pub open spec fn int_body(s: Seq<char>) -> Seq<char> {
    if s.len() > 0 && s[0] == '-' {
        s.drop_first()
    } else {
        s
    }
}

pub open spec fn int_sign(s: Seq<char>) -> int {
    if s.len() > 0 && s[0] == '-' {
        -1
    } else {
        1
    }
}

pub open spec fn is_int_str(s: Seq<char>) -> bool {
    int_body(s).len() >= 1 && all_digits(int_body(s))
}

pub open spec fn int_val(s: Seq<char>) -> int {
    int_sign(s) * digits_val(int_body(s))
}

/// Parses an optionally negated all-digit token with magnitude at most `max`.
pub fn parse_int(s: &str, max: i64) -> (r: Option<i64>)
    requires
        s.is_ascii(),
        max >= 9,
    ensures
        match r {
            Some(v) => is_int_str(s@) && v == int_val(s@) && -max <= v <= max,
            None => !(is_int_str(s@) && -max <= int_val(s@) <= max),
        },
{
    let n = s.unicode_len();
    if n >= 1 && s.get_ascii(0) == 45 {
        proof {
            assert('\0' <= s@[0] <= '\u{7f}');
            assert(s@[0] == '-');
        }
        let body = s.substring_ascii(1, n);
        proof {
            assert(body@ =~= int_body(s@));
        }
        match parse_digits(body, max) {
            Some(v) => Some(-v),
            None => {
                proof {
                    if is_int_str(s@) && -max <= int_val(s@) <= max {
                        lemma_digits_val_nonneg(int_body(s@));
                    }
                }
                None
            },
        }
    } else {
        proof {
            if n >= 1 {
                assert('\0' <= s@[0] <= '\u{7f}');
                assert(s@[0] != '-');
            }
            assert(int_body(s@) =~= s@);
        }
        match parse_digits(s, max) {
            Some(v) => Some(v),
            None => {
                proof {
                    if is_int_str(s@) && -max <= int_val(s@) <= max {
                        lemma_digits_val_nonneg(int_body(s@));
                    }
                }
                None
            },
        }
    }
}

/// The integer-part digits of an unsigned fixed-point numeral.
pub open spec fn fixed_int_part(b: Seq<char>) -> Seq<char> {
    b.take(idx_of(b, '.'))
}

/// The fractional digits of an unsigned fixed-point numeral (empty if no dot).
pub open spec fn fixed_frac_part(b: Seq<char>) -> Seq<char> {
    if idx_of(b, '.') == b.len() {
        Seq::empty()
    } else {
        b.skip(idx_of(b, '.') + 1)
    }
}

/// Well-formedness of a decimal numeral: optional minus sign, digits, at most
/// one dot, and at least one digit overall.
pub open spec fn fixed_wf(s: Seq<char>) -> bool {
    let b = int_body(s);
    &&& all_digits(fixed_int_part(b))
    &&& all_digits(fixed_frac_part(b))
    &&& b.len() >= 1
    &&& (idx_of(b, '.') < b.len() ==> b.len() >= 2)
}

/// Whether the integer part is small enough that scaling to micro-units is
/// exact in an `i64`.
pub open spec fn fixed_in_range(s: Seq<char>) -> bool {
    digits_val(fixed_int_part(int_body(s))) <= MAX_INT_PART
}

/// The fractional digits scaled to millionths; digits beyond the sixth are
/// dropped.
pub open spec fn frac_micro(f: Seq<char>) -> int {
    if f.len() >= 6 {
        digits_val(f.take(6))
    } else {
        digits_val(f) * pow10(6 - f.len())
    }
}

/// The value of a decimal numeral in micro-units.
pub open spec fn fixed_micro_val(s: Seq<char>) -> int {
    let b = int_body(s);
    int_sign(s) * (digits_val(fixed_int_part(b)) * (MICRO_SCALE as int) + frac_micro(
        fixed_frac_part(b),
    ))
}

fn pow10_small(k: usize) -> (r: i64)
    requires
        k <= 6,
    ensures
        r == pow10(k as int),
{
    proof {
        assert(pow10(0) == 1);
        assert(pow10(1) == 10);
        assert(pow10(2) == 100);
        assert(pow10(3) == 1000);
        assert(pow10(4) == 10000);
        assert(pow10(5) == 100000);
        assert(pow10(6) == 1000000);
    }
    if k == 0 {
        1
    } else if k == 1 {
        10
    } else if k == 2 {
        100
    } else if k == 3 {
        1000
    } else if k == 4 {
        10000
    } else if k == 5 {
        100000
    } else {
        1000000
    }
}

/// Parses the fractional digits of a numeral into millionths.
fn parse_frac_micro(f: &str) -> (r: Option<i64>)
    requires
        f.is_ascii(),
    ensures
        match r {
            Some(v) => all_digits(f@) && v == frac_micro(f@) && 0 <= v < MICRO_SCALE,
            None => !all_digits(f@),
        },
{
    let n = f.unicode_len();
    if n == 0 {
        proof {
            assert(f@.len() == 0);
            assert(frac_micro(f@) == 0);
        }
        return Some(0);
    }
    let k: usize = if n >= 6 {
        6
    } else {
        n
    };
    let head = f.substring_ascii(0, k);
    let v0 = match parse_digits(head, 999999) {
        Some(v) => v,
        None => {
            proof {
                if all_digits(f@) {
                    assert(head@ =~= f@.take(k as int));
                    assert(all_digits(head@));
                    lemma_digits_val_bound(head@);
                    lemma_pow10_vals();
                    if head@.len() < 6 {
                        assert(pow10(head@.len() as int) <= pow10(6)) by {
                            lemma_pow10_le(head@.len() as int, 6);
                        }
                    }
                }
            }
            return None;
        },
    };
    if !s_all_digits(f, k) {
        proof {
            let j = choose|j: int| k <= j < f@.len() && !is_digit(f@[j]);
            assert(!all_digits(f@));
        }
        return None;
    }
    proof {
        assert(head@ =~= f@.take(k as int));
        assert forall|i: int| 0 <= i < f@.len() implies is_digit(#[trigger] f@[i]) by {
            if i < k {
                assert(is_digit(head@[i]));
            }
        }
    }
    if n >= 6 {
        Some(v0)
    } else {
        let scale = pow10_small(6 - k);
        proof {
            assert(head@ =~= f@);
            lemma_digits_val_bound(f@);
            lemma_pow10_pos(6 - f@.len());
            assert(digits_val(f@) * pow10(6 - f@.len()) < pow10(f@.len() as int) * pow10(
                6 - f@.len(),
            )) by (nonlinear_arith)
                requires
                    digits_val(f@) < pow10(f@.len() as int),
                    digits_val(f@) >= 0,
                    pow10(6 - f@.len()) >= 1,
            ;
            lemma_pow10_mul(f@.len() as int, 6 - f@.len());
            lemma_pow10_vals();
        }
        Some(v0 * scale)
    }
}

pub proof fn lemma_pow10_pos(n: int)
    ensures
        pow10(n) >= 1,
    decreases n,
{
    if n > 0 {
        lemma_pow10_pos(n - 1);
    }
}

pub proof fn lemma_pow10_le(a: int, b: int)
    requires
        a <= b,
    ensures
        pow10(a) <= pow10(b),
    decreases b - a,
{
    if a < b {
        lemma_pow10_le(a, b - 1);
        lemma_pow10_pos(b - 1);
    }
}

pub proof fn lemma_pow10_mul(a: int, b: int)
    requires
        a >= 0,
        b >= 0,
    ensures
        pow10(a) * pow10(b) == pow10(a + b),
    decreases a,
{
    if a > 0 {
        lemma_pow10_mul(a - 1, b);
        assert(pow10(a) * pow10(b) == 10 * (pow10(a - 1) * pow10(b))) by (nonlinear_arith)
            requires
                pow10(a) == 10 * pow10(a - 1),
        ;
    }
}

pub proof fn lemma_pow10_vals()
    ensures
        pow10(0) == 1,
        pow10(1) == 10,
        pow10(2) == 100,
        pow10(3) == 1000,
        pow10(4) == 10000,
        pow10(5) == 100000,
        pow10(6) == 1000000,
{
    assert(pow10(0) == 1);
    assert(pow10(1) == 10);
    assert(pow10(2) == 100);
    assert(pow10(3) == 1000);
    assert(pow10(4) == 10000);
    assert(pow10(5) == 100000);
    assert(pow10(6) == 1000000);
}

/// Parses a decimal numeral (optional minus sign, optional fractional part)
/// into micro-units.
#[verifier::rlimit(60)]
pub fn parse_fixed(s: &str) -> (r: Option<i64>)
    requires
        s.is_ascii(),
    ensures
        match r {
            Some(v) => fixed_wf(s@) && fixed_in_range(s@) && v == fixed_micro_val(s@),
            None => !(fixed_wf(s@) && fixed_in_range(s@)),
        },
{
    let n = s.unicode_len();
    let (neg, body) = if n >= 1 && s.get_ascii(0) == 45 {
        proof {
            assert('\0' <= s@[0] <= '\u{7f}');
            assert(s@[0] == '-');
        }
        (true, s.substring_ascii(1, n))
    } else {
        proof {
            if n >= 1 {
                assert('\0' <= s@[0] <= '\u{7f}');
                assert(s@[0] != '-');
            }
        }
        (false, s.substring_ascii(0, n))
    };
    proof {
        assert(body@ =~= int_body(s@));
    }
    let bn = body.unicode_len();
    if bn == 0 {
        return None;
    }
    let dot = crate::text::find_char(body, '.');
    let (ip, fp) = if dot == bn {
        proof {
            assert(fixed_int_part(body@) =~= body@);
            assert(fixed_frac_part(body@) =~= Seq::<char>::empty());
        }
        (body, body.substring_ascii(bn, bn))
    } else {
        if bn < 2 {
            return None;
        }
        proof {
            assert(fixed_int_part(body@) =~= body@.subrange(0, dot as int));
            assert(fixed_frac_part(body@) =~= body@.subrange(dot as int + 1, bn as int));
        }
        (body.substring_ascii(0, dot), body.substring_ascii(dot + 1, bn))
    };
    proof {
        assert(ip@ =~= fixed_int_part(body@));
        assert(fp@ =~= fixed_frac_part(body@));
    }
    let iv: i64 = if ip.unicode_len() == 0 {
        proof {
            assert(digits_val(ip@) == 0);
        }
        0
    } else {
        match parse_digits(ip, MAX_INT_PART) {
            Some(v) => v,
            None => {
                return None;
            },
        }
    };
    let fv: i64 = match parse_frac_micro(fp) {
        Some(v) => v,
        None => {
            return None;
        },
    };
    proof {
        lemma_digits_val_nonneg(ip@);
    }
    let mag = iv * MICRO_SCALE + fv;
    proof {
        assert(fixed_wf(s@));
        assert(fixed_in_range(s@));
        assert(iv == digits_val(fixed_int_part(int_body(s@))));
        assert(fv == frac_micro(fixed_frac_part(int_body(s@))));
        assert(mag == digits_val(fixed_int_part(int_body(s@))) * (MICRO_SCALE as int) + frac_micro(
            fixed_frac_part(int_body(s@)),
        ));
    }
    if neg {
        proof {
            assert(int_sign(s@) == -1);
            assert(-mag == fixed_micro_val(s@));
        }
        Some(-mag)
    } else {
        proof {
            assert(int_sign(s@) == 1);
            assert(mag == fixed_micro_val(s@));
        }
        Some(mag)
    }
}

/// The character for one decimal digit.
pub open spec fn digit_char(d: int) -> char {
    if d == 0 {
        '0'
    } else if d == 1 {
        '1'
    } else if d == 2 {
        '2'
    } else if d == 3 {
        '3'
    } else if d == 4 {
        '4'
    } else if d == 5 {
        '5'
    } else if d == 6 {
        '6'
    } else if d == 7 {
        '7'
    } else if d == 8 {
        '8'
    } else {
        '9'
    }
}

/// The decimal rendering of a non-negative number, without leading zeros.
pub open spec fn dec_str(n: int) -> Seq<char>
    decreases n,
{
    if n < 10 {
        seq![digit_char(n)]
    } else {
        dec_str(n / 10).push(digit_char(n % 10))
    }
}

fn digit_str(d: u64) -> (r: &'static str)
    requires
        d < 10,
    ensures
        r@ =~= seq![digit_char(d as int)],
{
    proof {
        reveal_strlit("0");
        reveal_strlit("1");
        reveal_strlit("2");
        reveal_strlit("3");
        reveal_strlit("4");
        reveal_strlit("5");
        reveal_strlit("6");
        reveal_strlit("7");
        reveal_strlit("8");
        reveal_strlit("9");
    }
    if d == 0 {
        "0"
    } else if d == 1 {
        "1"
    } else if d == 2 {
        "2"
    } else if d == 3 {
        "3"
    } else if d == 4 {
        "4"
    } else if d == 5 {
        "5"
    } else if d == 6 {
        "6"
    } else if d == 7 {
        "7"
    } else if d == 8 {
        "8"
    } else {
        "9"
    }
}

/// Renders a number in decimal.
pub fn u64_dec(n: u64) -> (r: String)
    ensures
        r@ =~= dec_str(n as int),
    decreases n,
{
    if n < 10 {
        digit_str(n).to_owned()
    } else {
        let mut s = u64_dec(n / 10);
        s.append(digit_str(n % 10));
        proof {
            assert(s@ =~= dec_str(n as int));
        }
        s
    }
}

} // verus!
