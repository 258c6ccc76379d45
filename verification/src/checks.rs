//! The comparison engine: tolerant numeric comparison against the data
//! source, string-attribute checks, presence checks, and the per-category
//! check functions, each reporting through the verbosity reporter.

use vstd::prelude::*;
use vstd::string::*;
use crate::numbers::{dec_str, u64_dec};
use crate::report::{Report, ReportLine, CmdLineArgs, LineKind, appended_one, unchanged_rep, extends, line_is};
use crate::source::{SourceData, VarData, VarDataV, AttrData, AttrDataV, find_var, find_attr};

verus! {

/// The absolute tolerance in micro-units: one ten-thousandth, reflecting
/// that compared values are only meaningful to four decimal places.
pub const TOLERANCE_MICRO: i64 = 100;

/// Approximate equality: within one ten-thousandth of the expected value.
pub open spec fn micro_close(expected: int, actual: int) -> bool {
    -(TOLERANCE_MICRO as int) <= expected - actual <= TOLERANCE_MICRO as int
}

/// Whether `actual` is within tolerance of `expected`, both in micro-units.
pub fn approx_equal_micro(expected: i64, actual: i64) -> (r: bool)
    ensures
        r == micro_close(expected as int, actual as int),
{
    let d: i128 = expected as i128 - actual as i128;
    -(TOLERANCE_MICRO as i128) <= d && d <= TOLERANCE_MICRO as i128
}

/// How many values fall outside the tolerance around `expected`.
pub open spec fn count_far(vals: Seq<i64>, expected: int) -> nat
    decreases vals.len(),
{
    if vals.len() == 0 {
        0
    } else {
        count_far(vals.drop_last(), expected) + if micro_close(expected, vals.last() as int) {
            0nat
        } else {
            1nat
        }
    }
}

/// Counts the values outside tolerance.
pub fn count_mismatches(vals: &Vec<i64>, expected: i64) -> (n: usize)
    ensures
        n == count_far(vals@, expected as int),
        n <= vals@.len(),
{
    let mut n: usize = 0;
    let mut i: usize = 0;
    proof {
        assert(vals@.take(0) =~= Seq::<i64>::empty());
    }
    while i < vals.len()
        invariant
            0 <= i <= vals@.len(),
            n == count_far(vals@.take(i as int), expected as int),
            n <= i,
        decreases vals@.len() - i,
    {
        proof {
            assert(vals@.take(i as int + 1).drop_last() =~= vals@.take(i as int));
            assert(vals@.take(i as int + 1).last() == vals@[i as int]);
        }
        if !approx_equal_micro(expected, vals[i]) {
            n = n + 1;
        }
        i = i + 1;
    }
    proof {
        assert(vals@.take(vals@.len() as int) =~= vals@);
    }
    n
}

/// The mismatch percentage in hundredths of a percent, rounded to nearest.
pub open spec fn percent_hundredths(wrong: int, total: int) -> int {
    (20000 * wrong + total) / (2 * total)
}

fn percent_hundredths_exec(wrong: usize, total: usize) -> (p: u64)
    requires
        total > 0,
        wrong <= total,
    ensures
        p == percent_hundredths(wrong as int, total as int),
        p <= 10000,
{
    let num: u128 = 20000u128 * (wrong as u128) + (total as u128);
    let den: u128 = 2u128 * (total as u128);
    let p = num / den;
    proof {
        assert(p <= 10000) by (nonlinear_arith)
            requires
                p == ((20000 * (wrong as int) + (total as int)) / (2 * (total as int))),
                0 < total,
                wrong <= total,
        ;
    }
    p as u64
}

/// The two-digit fractional part of a percentage.
pub open spec fn two_frac(f: int) -> Seq<char> {
    if f < 10 {
        seq!['0'] + dec_str(f)
    } else {
        dec_str(f)
    }
}

/// A percentage with two decimal places.
pub open spec fn percent_str(wrong: int, total: int) -> Seq<char> {
    dec_str(percent_hundredths(wrong, total) / 100) + seq!['.'] + two_frac(
        percent_hundredths(wrong, total) % 100,
    )
}

fn percent_string(wrong: usize, total: usize) -> (r: String)
    requires
        total > 0,
        wrong <= total,
    ensures
        r@ =~= percent_str(wrong as int, total as int),
{
    let p = percent_hundredths_exec(wrong, total);
    let mut s = u64_dec(p / 100);
    s.append(".");
    proof {
        reveal_strlit(".");
        assert("."@ =~= seq!['.']);
    }
    let frac = p % 100;
    if frac < 10 {
        s.append("0");
        proof {
            reveal_strlit("0");
            assert("0"@ =~= seq!['0']);
        }
    }
    let fs = u64_dec(frac);
    s.append(fs.as_str());
    s
}

/// The per-variable missing-value report line.
pub open spec fn msg_var_missing(name: Seq<char>) -> Seq<char> {
    "    - FAIL: variable '"@ + name + "' is missing"@
}

/// The per-variable pass report line.
pub open spec fn msg_var_pass(name: Seq<char>) -> Seq<char> {
    "    - PASS: "@ + name
}

/// The per-variable mismatch report line with count and percentage.
pub open spec fn msg_var_fail(name: Seq<char>, wrong: int, total: int) -> Seq<char> {
    "    - FAIL: "@ + dec_str(wrong) + "/"@ + dec_str(total) + " ("@ + percent_str(wrong, total)
        + "%) of "@ + name + " have incorrect values"@
}

/// Reports one variable's comparison result: a pass line or a counted
/// mismatch line at per-variable verbosity.
pub fn print_variable_results(varname: &String, n_total: usize, n_wrong: usize, rep: &mut Report) -> (r:
    bool)
    requires
        old(rep).wf(),
        n_wrong <= n_total,
    ensures
        final(rep).wf(),
        r == (n_wrong == 0),
        old(rep).policy.verbosity < 0 ==> unchanged_rep(*old(rep), *final(rep)),
        n_wrong == 0 ==> if old(rep).policy.verbosity >= 3 && !old(rep).policy.failures_only {
            appended_one(*old(rep), *final(rep), LineKind::Pass, msg_var_pass(varname@))
        } else {
            unchanged_rep(*old(rep), *final(rep))
        },
        n_wrong != 0 ==> if old(rep).policy.verbosity >= 3 {
            appended_one(
                *old(rep),
                *final(rep),
                LineKind::Fail,
                msg_var_fail(varname@, n_wrong as int, n_total as int),
            )
        } else {
            unchanged_rep(*old(rep), *final(rep))
        },
{
    let is_ok = n_wrong == 0;
    if is_ok {
        let mut t = String::new();
        t.append("    - PASS: ");
        t.append(varname.as_str());
        let gate = rep.policy.verbosity >= 3;
        rep.pass(gate, t);
    } else {
        let mut t = String::new();
        t.append("    - FAIL: ");
        let w = u64_dec(n_wrong as u64);
        t.append(w.as_str());
        t.append("/");
        let tot = u64_dec(n_total as u64);
        t.append(tot.as_str());
        t.append(" (");
        let pct = percent_string(n_wrong, n_total);
        t.append(pct.as_str());
        t.append("%) of ");
        t.append(varname.as_str());
        t.append(" have incorrect values");
        proof {
            assert(t@ =~= msg_var_fail(varname@, n_wrong as int, n_total as int));
        }
        let gate = rep.policy.verbosity >= 3;
        rep.fail(gate, t);
    }
    is_ok
}

/// The outcome of one numeric variable check: pass or fail, or nothing when
/// the run must abort (an unreadable variable, or a missing one that is not
/// acceptable to miss).
pub open spec fn fv_outcome(data: SourceData, name: Seq<char>, expected: int, missing_ok: bool) -> Option<
    bool,
> {
    match data.var(name) {
        None => if missing_ok {
            Some(false)
        } else {
            None
        },
        Some(VarDataV::Unreadable) => None,
        Some(VarDataV::Floats(vs)) => Some(count_far(vs, expected) == 0),
    }
}

/// Checks that every element of the named variable is within tolerance of
/// the expected value. A missing variable fails the check when acceptable
/// and aborts the run otherwise.
pub fn check_float_variable(
    data: &SourceData,
    varname: &String,
    expected: i64,
    missing_ok: bool,
    rep: &mut Report,
) -> (r: Result<bool, String>)
    requires
        old(rep).wf(),
    ensures
        final(rep).wf(),
        extends(*old(rep), *final(rep)),
        old(rep).policy.verbosity < 0 ==> unchanged_rep(*old(rep), *final(rep)),
        match fv_outcome(*data, varname@, expected as int, missing_ok) {
            Some(b) => r == Ok::<bool, String>(b),
            None => r is Err,
        },
        data.var(varname@) is None && missing_ok ==> if old(rep).policy.verbosity == 3 {
            appended_one(*old(rep), *final(rep), LineKind::Fail, msg_var_missing(varname@))
        } else {
            unchanged_rep(*old(rep), *final(rep))
        },
        data.var(varname@) is None && !missing_ok ==> unchanged_rep(*old(rep), *final(rep)),
        match data.var(varname@) {
            Some(VarDataV::Floats(vs)) => if count_far(vs, expected as int) == 0 {
                if old(rep).policy.verbosity >= 3 && !old(rep).policy.failures_only {
                    appended_one(*old(rep), *final(rep), LineKind::Pass, msg_var_pass(varname@))
                } else {
                    unchanged_rep(*old(rep), *final(rep))
                }
            } else {
                if old(rep).policy.verbosity >= 3 {
                    appended_one(
                        *old(rep),
                        *final(rep),
                        LineKind::Fail,
                        msg_var_fail(varname@, count_far(vs, expected as int) as int, vs.len() as int),
                    )
                } else {
                    unchanged_rep(*old(rep), *final(rep))
                }
            },
            _ => true,
        },
{
    match find_var(data, varname) {
        None => {
            if missing_ok {
                let mut t = String::new();
                t.append("    - FAIL: variable '");
                t.append(varname.as_str());
                t.append("' is missing");
                let gate = rep.policy.verbosity == 3;
                rep.fail(gate, t);
                proof {
                    crate::report::lemma_case_extends(
                        *old(rep),
                        *rep,
                        LineKind::Fail,
                        msg_var_missing(varname@),
                    );
                }
                Ok(false)
            } else {
                let mut t = String::new();
                t.append("Could not read variable '");
                t.append(varname.as_str());
                t.append("'");
                proof {
                    crate::report::lemma_unchanged_extends(*old(rep), *rep);
                }
                Err(t)
            }
        },
        Some(d) => match d {
            VarData::Unreadable => {
                let mut t = String::new();
                t.append("Could not get data of '");
                t.append(varname.as_str());
                t.append("' variable");
                proof {
                    crate::report::lemma_unchanged_extends(*old(rep), *rep);
                }
                Err(t)
            },
            VarData::Floats(vals) => {
                let n_wrong = count_mismatches(vals, expected);
                let ok = print_variable_results(varname, vals.len(), n_wrong, rep);
                proof {
                    if n_wrong == 0 {
                        crate::report::lemma_case_extends(
                            *old(rep),
                            *rep,
                            LineKind::Pass,
                            msg_var_pass(varname@),
                        );
                    } else {
                        crate::report::lemma_case_extends(
                            *old(rep),
                            *rep,
                            LineKind::Fail,
                            msg_var_fail(varname@, n_wrong as int, vals@.len() as int),
                        );
                    }
                }
                Ok(ok)
            },
        },
    }
}

/// Character-wise string equality.
pub fn str_eq(a: &str, b: &str) -> (r: bool)
    ensures
        r == (a@ == b@),
{
    let an = a.unicode_len();
    let bn = b.unicode_len();
    if an != bn {
        return false;
    }
    let mut i: usize = 0;
    while i < an
        invariant
            an == a@.len(),
            bn == b@.len(),
            an == bn,
            0 <= i <= an,
            forall|k: int| 0 <= k < i ==> a@[k] == b@[k],
        decreases an - i,
    {
        let ca = a.get_char(i);
        let cb = b.get_char(i);
        if ca != cb {
            return false;
        }
        i = i + 1;
    }
    proof {
        assert(a@ =~= b@);
    }
    true
}

/// Both conjuncts decided, or nothing when either aborts the run.
pub open spec fn opt_and(a: Option<bool>, b: Option<bool>) -> Option<bool> {
    match (a, b) {
        (Some(x), Some(y)) => Some(x && y),
        _ => None,
    }
}

/// The missing-attribute report line.
pub open spec fn msg_attr_missing(name: Seq<char>) -> Seq<char> {
    "  - FAIL: attribute '"@ + name + "' is not present"@
}

/// The matching-attribute report line at per-group verbosity.
pub open spec fn msg_attr_pass(name: Seq<char>) -> Seq<char> {
    "  - PASS: attribute '"@ + name + "' has the expected value"@
}

/// The matching-attribute report line at per-variable verbosity, showing
/// the expected text.
pub open spec fn msg_attr_pass_val(name: Seq<char>, expected: Seq<char>) -> Seq<char> {
    "  - PASS: attribute '"@ + name + "' has the expected value ('"@ + expected + "')"@
}

/// The mismatching-attribute report line.
pub open spec fn msg_attr_wrong(name: Seq<char>) -> Seq<char> {
    "  - FAIL: attribute '"@ + name + "' has the wrong value"@
}

/// The expected/actual detail line shown on a mismatch at per-variable
/// verbosity.
pub open spec fn msg_attr_detail(expected: Seq<char>, actual: Seq<char>) -> Seq<char> {
    "      (expected = '"@ + expected + "', actual = '"@ + actual + "')"@
}

/// The value fetched for a string attribute: its text, the missing-value
/// sentinel when the attribute is absent, or nothing when the run must
/// abort (an unreadable or non-string attribute).
pub open spec fn attr_value_outcome(data: SourceData, name: Seq<char>) -> Option<Seq<char>> {
    match data.attr(name) {
        None => Some(crate::refdata::ATT_MISSING_STR@),
        Some(AttrDataV::Str(s)) => Some(s),
        Some(AttrDataV::NonString) => None,
        Some(AttrDataV::Unreadable) => None,
    }
}

/// Fetches a string attribute; a missing one yields the sentinel value and
/// a fail line at per-group verbosity.
pub fn get_string_attribute_value(data: &SourceData, att_name: &String, rep: &mut Report) -> (r:
    Result<String, String>)
    requires
        old(rep).wf(),
    ensures
        final(rep).wf(),
        extends(*old(rep), *final(rep)),
        old(rep).policy.verbosity < 0 ==> unchanged_rep(*old(rep), *final(rep)),
        match attr_value_outcome(*data, att_name@) {
            Some(v) => r matches Ok(s) && s@ == v,
            None => r is Err,
        },
        data.attr(att_name@) is None ==> if old(rep).policy.verbosity >= 2 {
            appended_one(*old(rep), *final(rep), LineKind::Fail, msg_attr_missing(att_name@))
        } else {
            unchanged_rep(*old(rep), *final(rep))
        },
        data.attr(att_name@) is Some ==> unchanged_rep(*old(rep), *final(rep)),
{
    match find_attr(data, att_name) {
        None => {
            let mut t = String::new();
            t.append("  - FAIL: attribute '");
            t.append(att_name.as_str());
            t.append("' is not present");
            proof {
                assert(t@ =~= msg_attr_missing(att_name@));
            }
            let gate = rep.policy.verbosity >= 2;
            rep.fail(gate, t.clone());
            proof {
                crate::report::lemma_case_extends(
                    *old(rep),
                    *rep,
                    LineKind::Fail,
                    "  - FAIL: attribute '"@ + att_name@ + "' is not present"@,
                );
            }
            Ok(crate::refdata::ATT_MISSING_STR.to_owned())
        },
        Some(d) => {
            proof {
                crate::report::lemma_unchanged_extends(*old(rep), *rep);
            }
            match d {
                AttrData::Str(s) => Ok(s.clone()),
                AttrData::NonString => {
                    let mut t = String::new();
                    t.append("Attribute '");
                    t.append(att_name.as_str());
                    t.append("' has an unexpected type (expected string)");
                    Err(t)
                },
                AttrData::Unreadable => {
                    let mut t = String::new();
                    t.append("Could not get value for attribute '");
                    t.append(att_name.as_str());
                    t.append("'");
                    Err(t)
                },
            }
        },
    }
}

/// The outcome of one string-attribute check: a missing attribute fails
/// without aborting; a wrongly-typed one aborts.
pub open spec fn attr_check_outcome(data: SourceData, name: Seq<char>, expected: Seq<char>) -> Option<
    bool,
> {
    match attr_value_outcome(data, name) {
        None => None,
        Some(v) => if v == crate::refdata::ATT_MISSING_STR@ {
            Some(false)
        } else {
            Some(v == expected)
        },
    }
}

/// Checks a string attribute for exact equality with the expected text.
pub fn check_string_attribute_value(
    data: &SourceData,
    att_name: &String,
    expected_value: &str,
    rep: &mut Report,
) -> (r: Result<bool, String>)
    requires
        old(rep).wf(),
    ensures
        final(rep).wf(),
        extends(*old(rep), *final(rep)),
        old(rep).policy.verbosity < 0 ==> unchanged_rep(*old(rep), *final(rep)),
        match attr_check_outcome(*data, att_name@, expected_value@) {
            Some(b) => r == Ok::<bool, String>(b),
            None => r is Err,
        },
        match data.attr(att_name@) {
            None => if old(rep).policy.verbosity >= 2 {
                appended_one(*old(rep), *final(rep), LineKind::Fail, msg_attr_missing(att_name@))
            } else {
                unchanged_rep(*old(rep), *final(rep))
            },
            Some(AttrDataV::Str(s)) => if s == crate::refdata::ATT_MISSING_STR@ {
                unchanged_rep(*old(rep), *final(rep))
            } else if s == expected_value@ {
                if old(rep).policy.verbosity == 2 && !old(rep).policy.failures_only {
                    appended_one(*old(rep), *final(rep), LineKind::Pass, msg_attr_pass(att_name@))
                } else if old(rep).policy.verbosity == 3 && !old(rep).policy.failures_only {
                    appended_one(
                        *old(rep),
                        *final(rep),
                        LineKind::Pass,
                        msg_attr_pass_val(att_name@, expected_value@),
                    )
                } else {
                    unchanged_rep(*old(rep), *final(rep))
                }
            } else {
                if old(rep).policy.verbosity == 3 {
                    crate::report::appended_two(
                        *old(rep),
                        *final(rep),
                        LineKind::Fail,
                        msg_attr_wrong(att_name@),
                        LineKind::Fail,
                        msg_attr_detail(expected_value@, s),
                    )
                } else if old(rep).policy.verbosity >= 2 {
                    appended_one(*old(rep), *final(rep), LineKind::Fail, msg_attr_wrong(att_name@))
                } else {
                    unchanged_rep(*old(rep), *final(rep))
                }
            },
            Some(_) => unchanged_rep(*old(rep), *final(rep)),
        },
{
    let att_val = match get_string_attribute_value(data, att_name, rep) {
        Ok(v) => v,
        Err(e) => {
            return Err(e);
        },
    };
    let ghost mid = *rep;
    if str_eq(att_val.as_str(), crate::refdata::ATT_MISSING_STR) {
        return Ok(false);
    }
    let att_ok = str_eq(att_val.as_str(), expected_value);
    if att_ok {
        if rep.policy.verbosity == 2 {
            let mut t = String::new();
            t.append("  - PASS: attribute '");
            t.append(att_name.as_str());
            t.append("' has the expected value");
            rep.pass(true, t);
        } else if rep.policy.verbosity == 3 {
            let mut t = String::new();
            t.append("  - PASS: attribute '");
            t.append(att_name.as_str());
            t.append("' has the expected value ('");
            t.append(expected_value);
            t.append("')");
            rep.pass(true, t);
        }
    } else {
        let mut t = String::new();
        t.append("  - FAIL: attribute '");
        t.append(att_name.as_str());
        t.append("' has the wrong value");
        let gate = rep.policy.verbosity >= 2;
        rep.fail(gate, t);
        let ghost mid2 = *rep;
        if rep.policy.verbosity == 3 {
            let mut t2 = String::new();
            t2.append("      (expected = '");
            t2.append(expected_value);
            t2.append("', actual = '");
            t2.append(att_val.as_str());
            t2.append("')");
            rep.fail(true, t2);
        }
        proof {
            lemma_step_seq(mid, mid2, *rep);
        }
    }
    proof {
        lemma_step_seq(*old(rep), mid, *rep);
    }
    Ok(att_ok)
}

/// Two reporter steps in sequence extend the report.
proof fn lemma_step_seq(a: Report, b: Report, c: Report)
    requires
        extends(a, b),
        b.policy == c.policy,
        c.lines@.len() >= b.lines@.len(),
        c.lines@.take(b.lines@.len() as int) =~= b.lines@,
    ensures
        extends(a, c),
{
    crate::report::lemma_extends_trans(a, b, c);
}

/// The outcome of the embedded commit-hash check on the composite version
/// attribute: a missing attribute fails; one without the `commit ` marker
/// aborts the run.
pub open spec fn hash_outcome(data: SourceData) -> Option<bool> {
    match attr_value_outcome(data, "code_version"@) {
        None => None,
        Some(v) => if v == crate::refdata::ATT_MISSING_STR@ {
            Some(false)
        } else {
            match crate::scan::commit_token(v) {
                None => None,
                Some(h) => Some(h == crate::refdata::WRITE_NC_HASH@),
            }
        },
    }
}

/// Checks the commit hash embedded after the `commit ` marker of the
/// composite version attribute.
pub fn check_write_netcdf_hash(data: &SourceData, rep: &mut Report) -> (r: Result<bool, String>)
    requires
        old(rep).wf(),
    ensures
        final(rep).wf(),
        extends(*old(rep), *final(rep)),
        old(rep).policy.verbosity < 0 ==> unchanged_rep(*old(rep), *final(rep)),
        match hash_outcome(*data) {
            Some(b) => r == Ok::<bool, String>(b),
            None => r is Err,
        },
{
    let att_name: String = "code_version".to_owned();
    let att_val = match get_string_attribute_value(data, &att_name, rep) {
        Ok(v) => v,
        Err(e) => {
            return Err(e);
        },
    };
    let ghost r1 = *rep;
    if str_eq(att_val.as_str(), crate::refdata::ATT_MISSING_STR) {
        let mut t = String::new();
        t.append("  - FAIL: attribute '");
        t.append(att_name.as_str());
        t.append("' is not present");
        let gate = rep.policy.verbosity >= 2;
        rep.fail(gate, t);
        proof {
            crate::report::lemma_case_extends(
                r1,
                *rep,
                LineKind::Fail,
                "  - FAIL: attribute '"@ + att_name@ + "' is not present"@,
            );
            crate::report::lemma_extends_trans(*old(rep), r1, *rep);
        }
        return Ok(false);
    }
    let hash = match crate::scan::scan_commit(att_val.as_str()) {
        Some(h) => h,
        None => {
            let mut t = String::new();
            t.append("Could not get the write_netcdf commit hash from the attribute ");
            t.append(att_name.as_str());
            return Err(t);
        },
    };
    let hash_ok = str_eq(hash.as_str(), crate::refdata::WRITE_NC_HASH);
    if hash_ok {
        if rep.policy.verbosity == 2 {
            let mut t = String::new();
            t.append("  - PASS: write_netcdf hash in attribute '");
            t.append(att_name.as_str());
            t.append("' has the expected value");
            rep.pass(true, t);
        } else if rep.policy.verbosity == 3 {
            let mut t = String::new();
            t.append("  - PASS: write_netcdf hash in attribute '");
            t.append(att_name.as_str());
            t.append("' has the expected value ('");
            t.append(crate::refdata::WRITE_NC_HASH);
            t.append("')");
            rep.pass(true, t);
        }
    } else {
        let mut t = String::new();
        t.append("  - FAIL: write_netcdf hash in attribute '");
        t.append(att_name.as_str());
        t.append("' has the wrong value");
        let gate = rep.policy.verbosity >= 2;
        rep.fail(gate, t);
        let ghost r2 = *rep;
        if rep.policy.verbosity == 3 {
            let mut t2 = String::new();
            t2.append("      (expected = '");
            t2.append(crate::refdata::WRITE_NC_HASH);
            t2.append("', actual = '");
            t2.append(hash.as_str());
            t2.append("')");
            rep.fail(true, t2);
        }
        proof {
            lemma_step_seq(r1, r2, *rep);
        }
    }
    proof {
        lemma_step_seq(*old(rep), r1, *rep);
    }
    Ok(hash_ok)
}

/// The outcome of the program-version category: six version attributes and
/// the embedded commit hash.
pub open spec fn versions_outcome(data: SourceData) -> Option<bool> {
    opt_and(
        opt_and(
            opt_and(
                opt_and(
                    opt_and(
                        opt_and(
                            attr_check_outcome(
                                data,
                                "gsetup_version"@,
                                crate::refdata::GSETUP_VERSION@,
                            ),
                            attr_check_outcome(data, "gfit_version"@, crate::refdata::GFIT_VERSION@),
                        ),
                        attr_check_outcome(
                            data,
                            "collate_results_version"@,
                            crate::refdata::COLLATE_VERSION@,
                        ),
                    ),
                    attr_check_outcome(
                        data,
                        "apply_airmass_correction_version"@,
                        crate::refdata::AIRMASS_VERSION@,
                    ),
                ),
                attr_check_outcome(
                    data,
                    "average_results_version"@,
                    crate::refdata::AVERAGE_VERSION@,
                ),
            ),
            attr_check_outcome(
                data,
                "apply_insitu_correction_version"@,
                crate::refdata::INSITU_VERSION@,
            ),
        ),
        hash_outcome(data),
    )
}

/// Checks every upstream program's version attribute and the embedded
/// commit hash.
pub fn check_program_versions(data: &SourceData, rep: &mut Report) -> (r: Result<bool, String>)
    requires
        old(rep).wf(),
    ensures
        final(rep).wf(),
        extends(*old(rep), *final(rep)),
        old(rep).policy.verbosity < 0 ==> unchanged_rep(*old(rep), *final(rep)),
        match versions_outcome(*data) {
            Some(b) => r == Ok::<bool, String>(b),
            None => r is Err,
        },
{
    let ghost r0 = *rep;
    rep.info(rep.policy.verbosity > 1, "\n=== Checking program versions ===".to_owned());
    proof {
        crate::report::lemma_case_extends(
            r0,
            *rep,
            LineKind::Info,
            "\n=== Checking program versions ==="@,
        );
    }
    let ghost r1 = *rep;
    let gsetup_ok = match check_string_attribute_value(
        data,
        &"gsetup_version".to_owned(),
        crate::refdata::GSETUP_VERSION,
        rep,
    ) {
        Ok(b) => b,
        Err(e) => {
            proof {
                crate::report::lemma_extends_trans(r0, r1, *rep);
            }
            return Err(e);
        },
    };
    let ghost r2 = *rep;
    let gfit_ok = match check_string_attribute_value(
        data,
        &"gfit_version".to_owned(),
        crate::refdata::GFIT_VERSION,
        rep,
    ) {
        Ok(b) => b,
        Err(e) => {
            proof {
                crate::report::lemma_extends_trans(r0, r1, r2);
                crate::report::lemma_extends_trans(r0, r2, *rep);
            }
            return Err(e);
        },
    };
    proof {
        crate::report::lemma_extends_trans(r0, r1, r2);
    }
    let ghost r3 = *rep;
    let collate_ok = match check_string_attribute_value(
        data,
        &"collate_results_version".to_owned(),
        crate::refdata::COLLATE_VERSION,
        rep,
    ) {
        Ok(b) => b,
        Err(e) => {
            proof {
                crate::report::lemma_extends_trans(r0, r2, r3);
                crate::report::lemma_extends_trans(r0, r3, *rep);
            }
            return Err(e);
        },
    };
    proof {
        crate::report::lemma_extends_trans(r0, r2, r3);
    }
    let ghost r4 = *rep;
    let airmass_ok = match check_string_attribute_value(
        data,
        &"apply_airmass_correction_version".to_owned(),
        crate::refdata::AIRMASS_VERSION,
        rep,
    ) {
        Ok(b) => b,
        Err(e) => {
            proof {
                crate::report::lemma_extends_trans(r0, r3, r4);
                crate::report::lemma_extends_trans(r0, r4, *rep);
            }
            return Err(e);
        },
    };
    proof {
        crate::report::lemma_extends_trans(r0, r3, r4);
    }
    let ghost r5 = *rep;
    let average_ok = match check_string_attribute_value(
        data,
        &"average_results_version".to_owned(),
        crate::refdata::AVERAGE_VERSION,
        rep,
    ) {
        Ok(b) => b,
        Err(e) => {
            proof {
                crate::report::lemma_extends_trans(r0, r4, r5);
                crate::report::lemma_extends_trans(r0, r5, *rep);
            }
            return Err(e);
        },
    };
    proof {
        crate::report::lemma_extends_trans(r0, r4, r5);
    }
    let ghost r6 = *rep;
    let insitu_ok = match check_string_attribute_value(
        data,
        &"apply_insitu_correction_version".to_owned(),
        crate::refdata::INSITU_VERSION,
        rep,
    ) {
        Ok(b) => b,
        Err(e) => {
            proof {
                crate::report::lemma_extends_trans(r0, r5, r6);
                crate::report::lemma_extends_trans(r0, r6, *rep);
            }
            return Err(e);
        },
    };
    proof {
        crate::report::lemma_extends_trans(r0, r5, r6);
    }
    let ghost r7 = *rep;
    let write_nc_ok = match check_write_netcdf_hash(data, rep) {
        Ok(b) => b,
        Err(e) => {
            proof {
                crate::report::lemma_extends_trans(r0, r6, r7);
                crate::report::lemma_extends_trans(r0, r7, *rep);
            }
            return Err(e);
        },
    };
    proof {
        crate::report::lemma_extends_trans(r0, r6, r7);
    }
    let all_ok = gsetup_ok && gfit_ok && collate_ok && airmass_ok && average_ok && insitu_ok
        && write_nc_ok;
    let ghost r8 = *rep;
    proof {
        crate::report::lemma_extends_trans(r0, r7, r8);
    }
    if rep.policy.verbosity == 1 {
        if all_ok {
            rep.pass(true, "* PASS: All program versions match expected".to_owned());
        } else {
            rep.fail(true, "* FAIL: At least one program version does not match expected".to_owned());
        }
    }
    proof {
        lemma_step_seq(r0, r8, *rep);
        crate::report::lemma_extends_trans(*old(rep), r0, *rep);
    }
    Ok(all_ok)
}

/// Whether every listed variable's presence matches the expectation.
pub open spec fn presence_ok(data: SourceData, names: Seq<Seq<char>>, expected: bool) -> bool {
    forall|i: int| 0 <= i < names.len() ==> (data.has_var(#[trigger] names[i]) == expected)
}

/// The per-name presence report line.
pub open spec fn msg_presence(name: Seq<char>, present: bool, expected: bool) -> Seq<char> {
    if present {
        if expected {
            "  - PASS: variable '"@ + name + "' is present as expected"@
        } else {
            "  - FAIL: variable '"@ + name + "' is present but should not be"@
        }
    } else {
        if expected {
            "  - FAIL: variable '"@ + name + "' is not present but should be"@
        } else {
            "  - PASS: variable '"@ + name + "' is absent as expected"@
        }
    }
}

/// The lines a presence check appends for `names`, in order: one line per
/// name at per-group verbosity, pass lines suppressed in failures-only
/// mode, fail lines always kept.
pub open spec fn presence_report(
    data: SourceData,
    names: Seq<Seq<char>>,
    expected: bool,
    policy: CmdLineArgs,
    added: Seq<ReportLine>,
) -> bool
    decreases names.len(),
{
    if names.len() == 0 {
        added.len() == 0
    } else {
        let n = names.last();
        let present = data.has_var(n);
        let shown = policy.verbosity >= 2 && (present != expected || !policy.failures_only);
        if shown {
            &&& added.len() >= 1
            &&& presence_report(data, names.drop_last(), expected, policy, added.drop_last())
            &&& line_is(
                added.last(),
                if present == expected {
                    LineKind::Pass
                } else {
                    LineKind::Fail
                },
                msg_presence(n, present, expected),
            )
        } else {
            presence_report(data, names.drop_last(), expected, policy, added)
        }
    }
}

/// Checks that each listed variable is present (or absent) as expected.
pub fn check_variables_present(
    data: &SourceData,
    variables: &Vec<String>,
    expected: bool,
    rep: &mut Report,
) -> (r: Result<bool, String>)
    requires
        old(rep).wf(),
    ensures
        final(rep).wf(),
        extends(*old(rep), *final(rep)),
        old(rep).policy.verbosity < 0 ==> unchanged_rep(*old(rep), *final(rep)),
        r == Ok::<bool, String>(
            presence_ok(*data, crate::keyed::views_of(variables@), expected),
        ),
        presence_report(
            *data,
            crate::keyed::views_of(variables@),
            expected,
            old(rep).policy,
            final(rep).lines@.skip(old(rep).lines@.len() as int),
        ),
{
    let ghost names = crate::keyed::views_of(variables@);
    proof {
        assert(rep.lines@.skip(old(rep).lines@.len() as int) =~= Seq::<ReportLine>::empty());
        assert(names.take(0) =~= Seq::<Seq<char>>::empty());
    }
    let mut vars_ok = true;
    let mut i: usize = 0;
    while i < variables.len()
        invariant
            old(rep).wf(),
            rep.wf(),
            extends(*old(rep), *rep),
            old(rep).policy.verbosity < 0 ==> unchanged_rep(*old(rep), *rep),
            0 <= i <= variables@.len(),
            names == crate::keyed::views_of(variables@),
            vars_ok == (forall|k: int|
                0 <= k < i ==> (data.has_var(#[trigger] names[k]) == expected)),
            presence_report(
                *data,
                names.take(i as int),
                expected,
                old(rep).policy,
                rep.lines@.skip(old(rep).lines@.len() as int),
            ),
        decreases variables@.len() - i,
    {
        let ghost rpre = *rep;
        let ghost added = rep.lines@.skip(old(rep).lines@.len() as int);
        proof {
            assert(names[i as int] == variables@[i as int]@);
        }
        let present = crate::source::has_var(data, &variables[i]);
        let this_ok = present == expected;
        if present {
            if expected {
                let mut t = String::new();
                t.append("  - PASS: variable '");
                t.append(variables[i].as_str());
                t.append("' is present as expected");
                proof {
                    assert(t@ =~= msg_presence(names[i as int], present, expected));
                }
                rep.pass(rep.policy.verbosity >= 2, t);
            } else {
                let mut t = String::new();
                t.append("  - FAIL: variable '");
                t.append(variables[i].as_str());
                t.append("' is present but should not be");
                proof {
                    assert(t@ =~= msg_presence(names[i as int], present, expected));
                }
                rep.fail(rep.policy.verbosity >= 2, t);
            }
        } else {
            if expected {
                let mut t = String::new();
                t.append("  - FAIL: variable '");
                t.append(variables[i].as_str());
                t.append("' is not present but should be");
                proof {
                    assert(t@ =~= msg_presence(names[i as int], present, expected));
                }
                rep.fail(rep.policy.verbosity >= 2, t);
            } else {
                let mut t = String::new();
                t.append("  - PASS: variable '");
                t.append(variables[i].as_str());
                t.append("' is absent as expected");
                proof {
                    assert(t@ =~= msg_presence(names[i as int], present, expected));
                }
                rep.pass(rep.policy.verbosity >= 2, t);
            }
        }
        vars_ok = vars_ok && this_ok;
        proof {
            lemma_step_seq(*old(rep), rpre, *rep);
            assert(names.take(i as int + 1).drop_last() =~= names.take(i as int));
            assert(names.take(i as int + 1).last() == names[i as int]);
            let added2 = rep.lines@.skip(old(rep).lines@.len() as int);
            if rep.lines@.len() > rpre.lines@.len() {
                assert(rep.lines@ =~= rpre.lines@.push(rep.lines@.last()));
                assert(added2 =~= added.push(rep.lines@.last()));
                assert(added2.drop_last() =~= added);
            } else {
                assert(added2 =~= added);
            }
        }
        i = i + 1;
    }
    proof {
        assert(names.take(variables@.len() as int) =~= names);
    }
    Ok(vars_ok)
}

/// The outcome of the four correction-factor variables of one window.
pub open spec fn one_adcf_outcome(data: SourceData, key: Seq<char>, a: crate::tables::AdcfV) -> Option<
    bool,
> {
    opt_and(
        opt_and(
            opt_and(
                fv_outcome(data, key + "_adcf"@, a.adcf, true),
                fv_outcome(data, key + "_adcf_error"@, a.err, true),
            ),
            fv_outcome(data, key + "_g"@, a.g * 1000000, true),
        ),
        fv_outcome(data, key + "_p"@, a.p * 1000000, true),
    )
}

/// Checks one window's correction factor, uncertainty, and tuning
/// exponents.
pub fn check_one_adcf(
    data: &SourceData,
    window: &String,
    adcf: &crate::tables::Adcf,
    rep: &mut Report,
) -> (r: Result<bool, String>)
    requires
        old(rep).wf(),
        crate::tables::adcf_bounded(adcf@),
    ensures
        final(rep).wf(),
        extends(*old(rep), *final(rep)),
        old(rep).policy.verbosity < 0 ==> unchanged_rep(*old(rep), *final(rep)),
        match one_adcf_outcome(*data, window@, adcf@) {
            Some(b) => r == Ok::<bool, String>(b),
            None => r is Err,
        },
{
    let ghost r0 = *rep;
    {
        let mut t = String::new();
        t.append("  * Checking ");
        t.append(window.as_str());
        t.append(" ADCFS:");
        rep.info(rep.policy.verbosity > 2, t);
    }
    proof {
        crate::report::lemma_case_extends(
            r0,
            *rep,
            LineKind::Info,
            "  * Checking "@ + window@ + " ADCFS:"@,
        );
    }
    let ghost r1 = *rep;
    let mut name_adcf = String::new();
    name_adcf.append(window.as_str());
    name_adcf.append("_adcf");
    let adcfs_ok = match check_float_variable(data, &name_adcf, adcf.adcf, true, rep) {
        Ok(b) => b,
        Err(e) => {
            proof {
                crate::report::lemma_extends_trans(r0, r1, *rep);
            }
            return Err(e);
        },
    };
    proof {
        crate::report::lemma_extends_trans(r0, r1, *rep);
    }
    let ghost r2 = *rep;
    let mut name_err = String::new();
    name_err.append(window.as_str());
    name_err.append("_adcf_error");
    let errs_ok = match check_float_variable(data, &name_err, adcf.err, true, rep) {
        Ok(b) => b,
        Err(e) => {
            proof {
                crate::report::lemma_extends_trans(r0, r2, *rep);
            }
            return Err(e);
        },
    };
    proof {
        crate::report::lemma_extends_trans(r0, r2, *rep);
    }
    let ghost r3 = *rep;
    let mut name_g = String::new();
    name_g.append(window.as_str());
    name_g.append("_g");
    let g_ok = match check_float_variable(data, &name_g, adcf.g * 1000000, true, rep) {
        Ok(b) => b,
        Err(e) => {
            proof {
                crate::report::lemma_extends_trans(r0, r3, *rep);
            }
            return Err(e);
        },
    };
    proof {
        crate::report::lemma_extends_trans(r0, r3, *rep);
    }
    let ghost r4 = *rep;
    let mut name_p = String::new();
    name_p.append(window.as_str());
    name_p.append("_p");
    let p_ok = match check_float_variable(data, &name_p, adcf.p * 1000000, true, rep) {
        Ok(b) => b,
        Err(e) => {
            proof {
                crate::report::lemma_extends_trans(r0, r4, *rep);
            }
            return Err(e);
        },
    };
    proof {
        crate::report::lemma_extends_trans(r0, r4, *rep);
    }
    let all_ok = adcfs_ok && errs_ok && g_ok && p_ok;
    let ghost r5 = *rep;
    if rep.policy.verbosity == 2 {
        if all_ok {
            let mut t = String::new();
            t.append("  - PASS: ");
            t.append(window.as_str());
            t.append(" ADCFs are correct");
            rep.pass(true, t);
        } else {
            let mut t = String::new();
            t.append("  - FAIL: ");
            t.append(window.as_str());
            t.append(" ADCFS are incorrect");
            rep.fail(true, t);
        }
    }
    proof {
        lemma_step_seq(r0, r5, *rep);
        crate::report::lemma_extends_trans(*old(rep), r0, *rep);
    }
    Ok(all_ok)
}

/// The outcome of the correction-factor category over all windows.
pub open spec fn adcfs_outcome(data: SourceData, entries: Seq<crate::keyed::Entry<crate::tables::Adcf>>) -> Option<
    bool,
>
    decreases entries.len(),
{
    if entries.len() == 0 {
        Some(true)
    } else {
        opt_and(
            adcfs_outcome(data, entries.drop_last()),
            one_adcf_outcome(data, entries.last().key@, entries.last().val@),
        )
    }
}

proof fn lemma_adcfs_outcome_none(
    data: SourceData,
    entries: Seq<crate::keyed::Entry<crate::tables::Adcf>>,
    j: int,
)
    requires
        0 <= j <= entries.len(),
        adcfs_outcome(data, entries.take(j)) is None,
    ensures
        adcfs_outcome(data, entries) is None,
    decreases entries.len() - j,
{
    if j < entries.len() {
        assert(entries.take(j + 1).drop_last() =~= entries.take(j));
        lemma_adcfs_outcome_none(data, entries, j + 1);
    } else {
        assert(entries.take(j) =~= entries);
    }
}

/// Checks every window's correction factors, in key order.
pub fn check_adcfs(
    data: &SourceData,
    adcfs: &Vec<crate::keyed::Entry<crate::tables::Adcf>>,
    rep: &mut Report,
) -> (r: Result<bool, String>)
    requires
        old(rep).wf(),
        forall|i: int|
            0 <= i < adcfs@.len() ==> crate::tables::adcf_bounded(#[trigger] adcfs@[i].val@),
    ensures
        final(rep).wf(),
        extends(*old(rep), *final(rep)),
        old(rep).policy.verbosity < 0 ==> unchanged_rep(*old(rep), *final(rep)),
        match adcfs_outcome(*data, adcfs@) {
            Some(b) => r == Ok::<bool, String>(b),
            None => r is Err,
        },
{
    let ghost r0 = *rep;
    rep.info(rep.policy.verbosity > 1, "=== Checking ADCF values ===".to_owned());
    proof {
        crate::report::lemma_case_extends(
            r0,
            *rep,
            LineKind::Info,
            "=== Checking ADCF values ==="@,
        );
        assert(adcfs_outcome(*data, adcfs@.take(0)) == Some(true)) by {
            assert(adcfs@.take(0) =~= Seq::<crate::keyed::Entry<crate::tables::Adcf>>::empty());
        }
    }
    let mut all_ok = true;
    let mut i: usize = 0;
    while i < adcfs.len()
        invariant
            old(rep).wf(),
            rep.wf(),
            extends(r0, *rep),
            extends(*old(rep), r0),
            old(rep).policy.verbosity < 0 ==> unchanged_rep(*old(rep), *rep),
            r0.policy == rep.policy,
            0 <= i <= adcfs@.len(),
            forall|k: int|
                0 <= k < adcfs@.len() ==> crate::tables::adcf_bounded(#[trigger] adcfs@[k].val@),
            adcfs_outcome(*data, adcfs@.take(i as int)) == Some(all_ok),
        decreases adcfs@.len() - i,
    {
        proof {
            assert(adcfs@.take(i as int + 1).drop_last() =~= adcfs@.take(i as int));
            assert(adcfs@.take(i as int + 1).last() == adcfs@[i as int]);
        }
        let ghost rpre = *rep;
        let win_ok = match check_one_adcf(data, &adcfs[i].key, &adcfs[i].val, rep) {
            Ok(b) => b,
            Err(e) => {
                proof {
                    lemma_adcfs_outcome_none(*data, adcfs@, i as int + 1);
                    crate::report::lemma_extends_trans(r0, rpre, *rep);
                    crate::report::lemma_extends_trans(*old(rep), r0, *rep);
                }
                return Err(e);
            },
        };
        all_ok = all_ok && win_ok;
        proof {
            crate::report::lemma_extends_trans(r0, rpre, *rep);
        }
        i = i + 1;
    }
    proof {
        assert(adcfs@.take(adcfs@.len() as int) =~= adcfs@);
    }
    let ghost r5 = *rep;
    if rep.policy.verbosity == 1 {
        if all_ok {
            rep.pass(true, "* PASS: ADCFs match expected values".to_owned());
        } else {
            rep.fail(true, "* FAIL: ADCFs do not match expected values".to_owned());
        }
    }
    proof {
        lemma_step_seq(r0, r5, *rep);
        crate::report::lemma_extends_trans(*old(rep), r0, *rep);
    }
    Ok(all_ok)
}

/// The outcome of the two independent-correction variables of one gas.
pub open spec fn one_aicf_outcome(data: SourceData, key: Seq<char>, a: crate::tables::AicfV) -> Option<
    bool,
> {
    opt_and(
        fv_outcome(data, key + "_aicf"@, a.aicf, true),
        fv_outcome(data, key + "_aicf_error"@, a.err, true),
    )
}

/// Checks one gas's independent correction and uncertainty.
pub fn check_one_aicf(
    data: &SourceData,
    gas: &String,
    aicf: &crate::tables::Aicf,
    rep: &mut Report,
) -> (r: Result<bool, String>)
    requires
        old(rep).wf(),
    ensures
        final(rep).wf(),
        extends(*old(rep), *final(rep)),
        old(rep).policy.verbosity < 0 ==> unchanged_rep(*old(rep), *final(rep)),
        match one_aicf_outcome(*data, gas@, aicf@) {
            Some(b) => r == Ok::<bool, String>(b),
            None => r is Err,
        },
{
    let ghost r0 = *rep;
    let mut name_aicf = String::new();
    name_aicf.append(gas.as_str());
    name_aicf.append("_aicf");
    let aicfs_ok = match check_float_variable(data, &name_aicf, aicf.aicf, true, rep) {
        Ok(b) => b,
        Err(e) => {
            return Err(e);
        },
    };
    let ghost r1 = *rep;
    let mut name_err = String::new();
    name_err.append(gas.as_str());
    name_err.append("_aicf_error");
    let errs_ok = match check_float_variable(data, &name_err, aicf.err, true, rep) {
        Ok(b) => b,
        Err(e) => {
            proof {
                crate::report::lemma_extends_trans(r0, r1, *rep);
            }
            return Err(e);
        },
    };
    proof {
        crate::report::lemma_extends_trans(r0, r1, *rep);
    }
    let all_ok = aicfs_ok && errs_ok;
    let ghost r2 = *rep;
    if rep.policy.verbosity == 2 {
        if all_ok {
            let mut t = String::new();
            t.append("  - PASS: ");
            t.append(gas.as_str());
            t.append(" AICFS are correct");
            rep.pass(true, t);
        } else {
            let mut t = String::new();
            t.append("  - FAIL: ");
            t.append(gas.as_str());
            t.append(" AICFS are not correct");
            rep.fail(true, t);
        }
    }
    proof {
        lemma_step_seq(r0, r2, *rep);
    }
    Ok(all_ok)
}

/// The outcome of the independent-correction category over all gases.
pub open spec fn aicfs_outcome(data: SourceData, entries: Seq<crate::keyed::Entry<crate::tables::Aicf>>) -> Option<
    bool,
>
    decreases entries.len(),
{
    if entries.len() == 0 {
        Some(true)
    } else {
        opt_and(
            aicfs_outcome(data, entries.drop_last()),
            one_aicf_outcome(data, entries.last().key@, entries.last().val@),
        )
    }
}

proof fn lemma_aicfs_outcome_none(
    data: SourceData,
    entries: Seq<crate::keyed::Entry<crate::tables::Aicf>>,
    j: int,
)
    requires
        0 <= j <= entries.len(),
        aicfs_outcome(data, entries.take(j)) is None,
    ensures
        aicfs_outcome(data, entries) is None,
    decreases entries.len() - j,
{
    if j < entries.len() {
        assert(entries.take(j + 1).drop_last() =~= entries.take(j));
        lemma_aicfs_outcome_none(data, entries, j + 1);
    } else {
        assert(entries.take(j) =~= entries);
    }
}

/// Checks every gas's independent correction, in key order.
pub fn check_aicfs(
    data: &SourceData,
    aicfs: &Vec<crate::keyed::Entry<crate::tables::Aicf>>,
    rep: &mut Report,
) -> (r: Result<bool, String>)
    requires
        old(rep).wf(),
    ensures
        final(rep).wf(),
        extends(*old(rep), *final(rep)),
        old(rep).policy.verbosity < 0 ==> unchanged_rep(*old(rep), *final(rep)),
        match aicfs_outcome(*data, aicfs@) {
            Some(b) => r == Ok::<bool, String>(b),
            None => r is Err,
        },
{
    let ghost r0 = *rep;
    rep.info(rep.policy.verbosity > 1, "\n=== Checking AICF values ===".to_owned());
    proof {
        crate::report::lemma_case_extends(
            r0,
            *rep,
            LineKind::Info,
            "\n=== Checking AICF values ==="@,
        );
        assert(aicfs_outcome(*data, aicfs@.take(0)) == Some(true)) by {
            assert(aicfs@.take(0) =~= Seq::<crate::keyed::Entry<crate::tables::Aicf>>::empty());
        }
    }
    let mut all_ok = true;
    let mut i: usize = 0;
    while i < aicfs.len()
        invariant
            old(rep).wf(),
            rep.wf(),
            extends(r0, *rep),
            extends(*old(rep), r0),
            old(rep).policy.verbosity < 0 ==> unchanged_rep(*old(rep), *rep),
            r0.policy == rep.policy,
            0 <= i <= aicfs@.len(),
            aicfs_outcome(*data, aicfs@.take(i as int)) == Some(all_ok),
        decreases aicfs@.len() - i,
    {
        proof {
            assert(aicfs@.take(i as int + 1).drop_last() =~= aicfs@.take(i as int));
            assert(aicfs@.take(i as int + 1).last() == aicfs@[i as int]);
        }
        let ghost rpre = *rep;
        let gas_ok = match check_one_aicf(data, &aicfs[i].key, &aicfs[i].val, rep) {
            Ok(b) => b,
            Err(e) => {
                proof {
                    lemma_aicfs_outcome_none(*data, aicfs@, i as int + 1);
                    crate::report::lemma_extends_trans(r0, rpre, *rep);
                    crate::report::lemma_extends_trans(*old(rep), r0, *rep);
                }
                return Err(e);
            },
        };
        all_ok = all_ok && gas_ok;
        proof {
            crate::report::lemma_extends_trans(r0, rpre, *rep);
        }
        i = i + 1;
    }
    proof {
        assert(aicfs@.take(aicfs@.len() as int) =~= aicfs@);
    }
    let ghost r5 = *rep;
    if rep.policy.verbosity == 1 {
        if all_ok {
            rep.pass(true, "* PASS: AICFs match expected values".to_owned());
        } else {
            rep.fail(true, "* FAIL: AICFs do not match expected values".to_owned());
        }
    }
    proof {
        lemma_step_seq(r0, r5, *rep);
        crate::report::lemma_extends_trans(*old(rep), r0, *rep);
    }
    Ok(all_ok)
}

/// The outcome of one window's scale-factor variable; here a missing
/// variable aborts the run.
pub open spec fn one_sf_outcome(data: SourceData, key: Seq<char>, w: crate::tables::WindowV) -> Option<
    bool,
> {
    fv_outcome(data, "vsw_sf_"@ + key, w.sf, false)
}

/// Checks one window's window-to-window scale factors.
pub fn check_one_window_sf(
    data: &SourceData,
    win_name: &String,
    window: &crate::tables::Window,
    rep: &mut Report,
) -> (r: Result<bool, String>)
    requires
        old(rep).wf(),
    ensures
        final(rep).wf(),
        extends(*old(rep), *final(rep)),
        old(rep).policy.verbosity < 0 ==> unchanged_rep(*old(rep), *final(rep)),
        match one_sf_outcome(*data, win_name@, window@) {
            Some(b) => r == Ok::<bool, String>(b),
            None => r is Err,
        },
{
    let ghost r0 = *rep;
    let mut name = String::new();
    name.append("vsw_sf_");
    name.append(win_name.as_str());
    let sfs_ok = match check_float_variable(data, &name, window.sf, false, rep) {
        Ok(b) => b,
        Err(e) => {
            return Err(e);
        },
    };
    let ghost r1 = *rep;
    if rep.policy.verbosity == 2 {
        if sfs_ok {
            let mut t = String::new();
            t.append("  - PASS: ");
            t.append(win_name.as_str());
            t.append(" window-to-window scale factors are correct");
            rep.pass(true, t);
        } else {
            let mut t = String::new();
            t.append("  - FAIL: ");
            t.append(win_name.as_str());
            t.append(" window-to-window scale factors are not correct");
            rep.fail(true, t);
        }
    }
    proof {
        lemma_step_seq(r0, r1, *rep);
    }
    Ok(sfs_ok)
}

/// The outcome of the scale-factor category over all windows.
pub open spec fn sfs_outcome(data: SourceData, entries: Seq<crate::keyed::Entry<crate::tables::Window>>) -> Option<
    bool,
>
    decreases entries.len(),
{
    if entries.len() == 0 {
        Some(true)
    } else {
        opt_and(
            sfs_outcome(data, entries.drop_last()),
            one_sf_outcome(data, entries.last().key@, entries.last().val@),
        )
    }
}

proof fn lemma_sfs_outcome_none(
    data: SourceData,
    entries: Seq<crate::keyed::Entry<crate::tables::Window>>,
    j: int,
)
    requires
        0 <= j <= entries.len(),
        sfs_outcome(data, entries.take(j)) is None,
    ensures
        sfs_outcome(data, entries) is None,
    decreases entries.len() - j,
{
    if j < entries.len() {
        assert(entries.take(j + 1).drop_last() =~= entries.take(j));
        lemma_sfs_outcome_none(data, entries, j + 1);
    } else {
        assert(entries.take(j) =~= entries);
    }
}

/// Checks every window's scale factors, in key order.
pub fn check_window_scale_factors(
    data: &SourceData,
    windows: &Vec<crate::keyed::Entry<crate::tables::Window>>,
    rep: &mut Report,
) -> (r: Result<bool, String>)
    requires
        old(rep).wf(),
    ensures
        final(rep).wf(),
        extends(*old(rep), *final(rep)),
        old(rep).policy.verbosity < 0 ==> unchanged_rep(*old(rep), *final(rep)),
        match sfs_outcome(*data, windows@) {
            Some(b) => r == Ok::<bool, String>(b),
            None => r is Err,
        },
{
    let ghost r0 = *rep;
    rep.info(
        rep.policy.verbosity > 1,
        "\n=== Checking window-to-window scale factors ===".to_owned(),
    );
    proof {
        crate::report::lemma_case_extends(
            r0,
            *rep,
            LineKind::Info,
            "\n=== Checking window-to-window scale factors ==="@,
        );
        assert(sfs_outcome(*data, windows@.take(0)) == Some(true)) by {
            assert(windows@.take(0) =~= Seq::<crate::keyed::Entry<crate::tables::Window>>::empty());
        }
    }
    let mut all_ok = true;
    let mut i: usize = 0;
    while i < windows.len()
        invariant
            old(rep).wf(),
            rep.wf(),
            extends(r0, *rep),
            extends(*old(rep), r0),
            old(rep).policy.verbosity < 0 ==> unchanged_rep(*old(rep), *rep),
            r0.policy == rep.policy,
            0 <= i <= windows@.len(),
            sfs_outcome(*data, windows@.take(i as int)) == Some(all_ok),
        decreases windows@.len() - i,
    {
        proof {
            assert(windows@.take(i as int + 1).drop_last() =~= windows@.take(i as int));
            assert(windows@.take(i as int + 1).last() == windows@[i as int]);
        }
        let ghost rpre = *rep;
        let win_ok = match check_one_window_sf(data, &windows[i].key, &windows[i].val, rep) {
            Ok(b) => b,
            Err(e) => {
                proof {
                    lemma_sfs_outcome_none(*data, windows@, i as int + 1);
                    crate::report::lemma_extends_trans(r0, rpre, *rep);
                    crate::report::lemma_extends_trans(*old(rep), r0, *rep);
                }
                return Err(e);
            },
        };
        all_ok = all_ok && win_ok;
        proof {
            crate::report::lemma_extends_trans(r0, rpre, *rep);
        }
        i = i + 1;
    }
    proof {
        assert(windows@.take(windows@.len() as int) =~= windows@);
    }
    let ghost r5 = *rep;
    if rep.policy.verbosity == 1 {
        if all_ok {
            rep.pass(
                true,
                "* PASS: Window-to-window scale factors match expected values".to_owned(),
            );
        } else {
            rep.fail(
                true,
                "* FAIL: Window-to-window scale factors do not match expected values".to_owned(),
            );
        }
    }
    proof {
        lemma_step_seq(r0, r5, *rep);
        crate::report::lemma_extends_trans(*old(rep), r0, *rep);
    }
    Ok(all_ok)
}

/// The per-window presence variable names of the active windows.
pub open spec fn win_var_names(entries: Seq<crate::keyed::Entry<crate::tables::Window>>) -> Seq<
    Seq<char>,
> {
    entries.map_values(|e: crate::keyed::Entry<crate::tables::Window>| "vsw_ada_x"@ + e.key@)
}

/// The per-window presence variable names of the disabled windows.
pub open spec fn skip_var_names(names: Seq<String>) -> Seq<Seq<char>> {
    names.map_values(|n: String| "vsw_ada_x"@ + n@)
}

/// The outcome of the window presence category: every active window's
/// variable present, every disabled window's variable absent.
pub open spec fn included_outcome(
    data: SourceData,
    entries: Seq<crate::keyed::Entry<crate::tables::Window>>,
    skipped: Seq<String>,
) -> bool {
    presence_ok(data, win_var_names(entries), true) && presence_ok(
        data,
        skip_var_names(skipped),
        false,
    )
}

/// Checks that every active window's variable is present and every
/// disabled window's variable is absent.
pub fn check_included_windows(
    data: &SourceData,
    windows: &Vec<crate::keyed::Entry<crate::tables::Window>>,
    skipped_windows: &Vec<String>,
    rep: &mut Report,
) -> (r: Result<bool, String>)
    requires
        old(rep).wf(),
    ensures
        final(rep).wf(),
        extends(*old(rep), *final(rep)),
        old(rep).policy.verbosity < 0 ==> unchanged_rep(*old(rep), *final(rep)),
        r == Ok::<bool, String>(included_outcome(*data, windows@, skipped_windows@)),
{
    let mut expected_win_vars: Vec<String> = Vec::new();
    let mut i: usize = 0;
    while i < windows.len()
        invariant
            0 <= i <= windows@.len(),
            crate::keyed::views_of(expected_win_vars@) =~= win_var_names(windows@.take(i as int)),
        decreases windows@.len() - i,
    {
        let mut t = String::new();
        t.append("vsw_ada_x");
        t.append(windows[i].key.as_str());
        proof {
            assert(t@ =~= "vsw_ada_x"@ + windows@[i as int].key@);
        }
        let ghost tv = t@;
        let ghost oldv = expected_win_vars@;
        expected_win_vars.push(t);
        proof {
            assert(crate::keyed::views_of(oldv).len() == oldv.len());
            assert(win_var_names(windows@.take(i as int)).len() == i);
            assert(oldv.len() == i);
            assert forall|k: int| 0 <= k < i + 1 implies crate::keyed::views_of(
                expected_win_vars@,
            )[k] == win_var_names(windows@.take(i as int + 1))[k] by {
                assert(windows@.take(i as int + 1)[k] == windows@[k]);
                if k < i {
                    assert(expected_win_vars@[k] == oldv[k]);
                    assert(crate::keyed::views_of(oldv)[k] == win_var_names(
                        windows@.take(i as int),
                    )[k]);
                    assert(windows@.take(i as int)[k] == windows@[k]);
                } else {
                    assert(crate::keyed::views_of(expected_win_vars@)[k] == tv);
                }
            }
            assert(crate::keyed::views_of(expected_win_vars@) =~= win_var_names(
                windows@.take(i as int + 1),
            ));
        }
        i = i + 1;
    }
    proof {
        assert(windows@.take(windows@.len() as int) =~= windows@);
    }
    let mut unexpected_win_vars: Vec<String> = Vec::new();
    let mut j: usize = 0;
    while j < skipped_windows.len()
        invariant
            0 <= j <= skipped_windows@.len(),
            crate::keyed::views_of(unexpected_win_vars@) =~= skip_var_names(
                skipped_windows@.take(j as int),
            ),
        decreases skipped_windows@.len() - j,
    {
        let mut t = String::new();
        t.append("vsw_ada_x");
        t.append(skipped_windows[j].as_str());
        proof {
            assert(t@ =~= "vsw_ada_x"@ + skipped_windows@[j as int]@);
        }
        let ghost tv = t@;
        let ghost oldv = unexpected_win_vars@;
        unexpected_win_vars.push(t);
        proof {
            assert(crate::keyed::views_of(oldv).len() == oldv.len());
            assert(skip_var_names(skipped_windows@.take(j as int)).len() == j);
            assert(oldv.len() == j);
            assert forall|k: int| 0 <= k < j + 1 implies crate::keyed::views_of(
                unexpected_win_vars@,
            )[k] == skip_var_names(skipped_windows@.take(j as int + 1))[k] by {
                assert(skipped_windows@.take(j as int + 1)[k] == skipped_windows@[k]);
                if k < j {
                    assert(unexpected_win_vars@[k] == oldv[k]);
                    assert(crate::keyed::views_of(oldv)[k] == skip_var_names(
                        skipped_windows@.take(j as int),
                    )[k]);
                    assert(skipped_windows@.take(j as int)[k] == skipped_windows@[k]);
                } else {
                    assert(crate::keyed::views_of(unexpected_win_vars@)[k] == tv);
                }
            }
            assert(crate::keyed::views_of(unexpected_win_vars@) =~= skip_var_names(
                skipped_windows@.take(j as int + 1),
            ));
        }
        j = j + 1;
    }
    proof {
        assert(skipped_windows@.take(skipped_windows@.len() as int) =~= skipped_windows@);
    }
    let ghost r0 = *rep;
    rep.info(rep.policy.verbosity > 1, "\n=== Checking windows present ===".to_owned());
    proof {
        crate::report::lemma_case_extends(
            r0,
            *rep,
            LineKind::Info,
            "\n=== Checking windows present ==="@,
        );
    }
    let ghost r1 = *rep;
    let ok_expected = match check_variables_present(data, &expected_win_vars, true, rep) {
        Ok(b) => b,
        Err(e) => {
            return Err(e);
        },
    };
    proof {
        crate::report::lemma_extends_trans(r0, r1, *rep);
    }
    let ghost r2 = *rep;
    let ok_unexpected = match check_variables_present(data, &unexpected_win_vars, false, rep) {
        Ok(b) => b,
        Err(e) => {
            return Err(e);
        },
    };
    proof {
        crate::report::lemma_extends_trans(r0, r2, *rep);
    }
    let ghost r3 = *rep;
    if rep.policy.verbosity == 1 {
        if ok_expected {
            rep.pass(true, "* PASS: All windows expected to be present are".to_owned());
        } else {
            rep.fail(
                true,
                "* FAIL: At least one window expected to be present is missing".to_owned(),
            );
        }
    }
    let ghost r4 = *rep;
    proof {
        lemma_step_seq(r0, r3, r4);
    }
    if rep.policy.verbosity == 1 {
        if ok_unexpected {
            rep.pass(true, "* PASS: All windows expected to be removed are".to_owned());
        } else {
            rep.fail(
                true,
                "* FAIL: At least one window expected to have been removed is present".to_owned(),
            );
        }
    }
    proof {
        lemma_step_seq(r0, r4, *rep);
        crate::report::lemma_extends_trans(*old(rep), r0, *rep);
    }
    Ok(ok_expected && ok_unexpected)
}

/// How many of the expected variables the source lacks.
pub open spec fn count_missing(data: SourceData, names: Seq<Seq<char>>) -> nat
    decreases names.len(),
{
    if names.len() == 0 {
        0
    } else {
        count_missing(data, names.drop_last()) + if data.has_var(names.last()) {
            0nat
        } else {
            1nat
        }
    }
}

/// The missing-variable report line of the expected-list check.
pub open spec fn msg_ingaas_missing(name: Seq<char>) -> Seq<char> {
    "    - FAIL: variable is "@ + name + " missing"@
}

/// The failing summary line of the expected-list check.
pub open spec fn msg_ingaas_summary(missing: int, total: int) -> Seq<char> {
    "* FAIL: "@ + dec_str(missing) + "/"@ + dec_str(total) + " expected InGaAs variables missing"@
}

/// The lines the expected-list check appends while scanning `names`: at
/// per-variable verbosity one line per missing name, capped at ten with a
/// single elision notice, unless the level is at its maximum, where every
/// missing name is shown.
pub open spec fn ingaas_scan_lines(
    data: SourceData,
    names: Seq<Seq<char>>,
    policy: CmdLineArgs,
    added: Seq<ReportLine>,
) -> bool
    decreases names.len(),
{
    if names.len() == 0 {
        added.len() == 0
    } else {
        let rest = names.drop_last();
        if data.has_var(names.last()) {
            ingaas_scan_lines(data, rest, policy, added)
        } else {
            let m = count_missing(data, names);
            if policy.verbosity >= 3 && (policy.verbosity == 4 || m < 11) {
                &&& added.len() >= 1
                &&& ingaas_scan_lines(data, rest, policy, added.drop_last())
                &&& line_is(added.last(), LineKind::Fail, msg_ingaas_missing(names.last()))
            } else if policy.verbosity >= 3 && m == 11 {
                &&& added.len() >= 1
                &&& ingaas_scan_lines(data, rest, policy, added.drop_last())
                &&& line_is(
                    added.last(),
                    LineKind::Fail,
                    "    (further missing variables omitted)"@,
                )
            } else {
                ingaas_scan_lines(data, rest, policy, added)
            }
        }
    }
}

/// Whether the expected-list check opens with a heading line.
pub open spec fn ingaas_header_count(policy: CmdLineArgs) -> int {
    if policy.verbosity > 1 {
        1
    } else {
        0
    }
}

/// Whether the expected-list check closes with a summary line.
pub open spec fn ingaas_summary_count(policy: CmdLineArgs, missing: nat) -> int {
    if policy.verbosity >= 1 && (missing > 0 || !policy.failures_only) {
        1
    } else {
        0
    }
}

/// The outcome of the expected-variable-list category: pass when no listed
/// name is missing.
pub open spec fn ingaas_outcome(data: SourceData) -> Option<bool> {
    if crate::refdata::ingaas_list_ok() {
        Some(count_missing(data, crate::refdata::ingaas_name_list()) == 0)
    } else {
        None
    }
}

/// Checks that every name of the embedded expected-variable list is present
/// in the source.
pub fn check_ingaas_variables(data: &SourceData, rep: &mut Report) -> (r: Result<bool, String>)
    requires
        old(rep).wf(),
    ensures
        final(rep).wf(),
        extends(*old(rep), *final(rep)),
        old(rep).policy.verbosity < 0 ==> unchanged_rep(*old(rep), *final(rep)),
        match ingaas_outcome(*data) {
            Some(b) => r == Ok::<bool, String>(b),
            None => r is Err,
        },
        r is Ok ==> ({
            let oldn = old(rep).lines@.len() as int;
            let m = count_missing(*data, crate::refdata::ingaas_name_list());
            let h = ingaas_header_count(old(rep).policy);
            let sc = ingaas_summary_count(old(rep).policy, m);
            let total = final(rep).lines@.len() as int;
            &&& total - sc >= oldn + h
            &&& (h == 1 ==> line_is(
                final(rep).lines@[oldn],
                LineKind::Info,
                "\n=== Checking InGaAs variables ==="@,
            ))
            &&& ingaas_scan_lines(
                *data,
                crate::refdata::ingaas_name_list(),
                old(rep).policy,
                final(rep).lines@.subrange(oldn + h, total - sc),
            )
            &&& (sc == 1 ==> line_is(
                final(rep).lines@.last(),
                if m == 0 {
                    LineKind::Pass
                } else {
                    LineKind::Fail
                },
                if m == 0 {
                    "* PASS: All expected InGaAs variables present"@
                } else {
                    msg_ingaas_summary(m as int, crate::refdata::ingaas_name_list().len() as int)
                },
            ))
        }),
{
    let variable_list = match crate::refdata::expected_ingaas_variables() {
        Ok(v) => v,
        Err(e) => {
            return Err(e);
        },
    };
    let ghost names = crate::refdata::ingaas_name_list();
    let ntotal = variable_list.len();
    let mut nmissing: usize = 0;
    let ghost r0 = *rep;
    rep.info(rep.policy.verbosity > 1, "\n=== Checking InGaAs variables ===".to_owned());
    let ghost base = rep.lines@.len() as int;
    proof {
        crate::report::lemma_case_extends(
            r0,
            *rep,
            LineKind::Info,
            "\n=== Checking InGaAs variables ==="@,
        );
        assert(base == r0.lines@.len() + ingaas_header_count(r0.policy));
        assert(names.take(0) =~= Seq::<Seq<char>>::empty());
        assert(rep.lines@.subrange(base, rep.lines@.len() as int) =~= Seq::<ReportLine>::empty());
    }
    let ghost rh = *rep;
    let mut i: usize = 0;
    while i < variable_list.len()
        invariant
            old(rep).wf(),
            rep.wf(),
            extends(r0, *rep),
            extends(*old(rep), r0),
            extends(rh, *rep),
            old(rep).policy.verbosity < 0 ==> unchanged_rep(*old(rep), *rep),
            r0.policy == rep.policy,
            rh.policy == rep.policy,
            base == rh.lines@.len(),
            base == r0.lines@.len() + ingaas_header_count(r0.policy),
            ingaas_header_count(r0.policy) == 1 ==> line_is(
                rh.lines@[r0.lines@.len() as int],
                LineKind::Info,
                "\n=== Checking InGaAs variables ==="@,
            ),
            0 <= i <= variable_list@.len(),
            variable_list.deep_view() =~~= names,
            names.len() == variable_list@.len(),
            nmissing == count_missing(*data, names.take(i as int)),
            nmissing <= i,
            ingaas_scan_lines(
                *data,
                names.take(i as int),
                rep.policy,
                rep.lines@.subrange(base, rep.lines@.len() as int),
            ),
        decreases variable_list@.len() - i,
    {
        proof {
            assert(names.take(i as int + 1).drop_last() =~= names.take(i as int));
            assert(names.take(i as int + 1).last() == names[i as int]);
            assert(variable_list@[i as int]@ == names[i as int]);
        }
        let ghost rpre = *rep;
        let ghost added = rep.lines@.subrange(base, rep.lines@.len() as int);
        let present = crate::source::has_var_str(data, variable_list[i]);
        if !present {
            nmissing = nmissing + 1;
            let gate_fail = rep.policy.verbosity >= 3 && (rep.policy.verbosity == 4 || nmissing
                < 11);
            let gate_elide = rep.policy.verbosity >= 3 && !(rep.policy.verbosity == 4 || nmissing
                < 11) && nmissing == 11;
            if gate_fail {
                let mut t = String::new();
                t.append("    - FAIL: variable is ");
                t.append(variable_list[i]);
                t.append(" missing");
                proof {
                    assert(t@ =~= msg_ingaas_missing(names[i as int]));
                }
                rep.fail(true, t);
            } else if gate_elide {
                rep.fail(true, "    (further missing variables omitted)".to_owned());
            }
        }
        proof {
            lemma_step_seq(r0, rpre, *rep);
            lemma_step_seq(rh, rpre, *rep);
            let added2 = rep.lines@.subrange(base, rep.lines@.len() as int);
            if rep.lines@.len() > rpre.lines@.len() {
                assert(rep.lines@ =~= rpre.lines@.push(rep.lines@.last()));
                assert(added2 =~= added.push(rep.lines@.last()));
                assert(added2.drop_last() =~= added);
            } else {
                assert(added2 =~= added);
            }
        }
        i = i + 1;
    }
    proof {
        assert(names.take(names.len() as int) =~= names);
    }
    let ghost r5 = *rep;
    if rep.policy.verbosity >= 1 {
        if nmissing == 0 {
            rep.pass(true, "* PASS: All expected InGaAs variables present".to_owned());
        } else {
            let mut t = String::new();
            t.append("* FAIL: ");
            let nm = u64_dec(nmissing as u64);
            t.append(nm.as_str());
            t.append("/");
            let nt = u64_dec(ntotal as u64);
            t.append(nt.as_str());
            t.append(" expected InGaAs variables missing");
            proof {
                assert(t@ =~= msg_ingaas_summary(nmissing as int, names.len() as int));
            }
            rep.fail(true, t);
        }
    }
    proof {
        lemma_step_seq(r0, r5, *rep);
        crate::report::lemma_extends_trans(*old(rep), r0, *rep);
        let m = count_missing(*data, names);
        let sc = ingaas_summary_count(r0.policy, m);
        assert(rep.lines@.len() == r5.lines@.len() + sc);
        if sc == 1 && rep.lines@.len() > r5.lines@.len() {
            assert(rep.lines@ =~= r5.lines@.push(rep.lines@.last()));
        }
        assert(rep.lines@.subrange(base, rep.lines@.len() - sc) =~= r5.lines@.subrange(
            base,
            r5.lines@.len() as int,
        ));
        if ingaas_header_count(r0.policy) == 1 {
            assert(rep.lines@[r0.lines@.len() as int] == rh.lines@[r0.lines@.len() as int]) by {
                assert(extends(rh, *rep));
                assert(rep.lines@.take(rh.lines@.len() as int)[r0.lines@.len() as int]
                    == rh.lines@[r0.lines@.len() as int]);
            }
        }
    }
    Ok(nmissing == 0)
}

} // verus!
