//! Tests of the comparison engine: tolerance, mismatch counting, missing
//! variables, string attributes, and the embedded commit hash.

use refcheck::checks::{
    approx_equal_micro, check_float_variable, check_string_attribute_value,
    check_write_netcdf_hash, check_variables_present, print_variable_results,
};
use refcheck::report::{Report, CmdLineArgs, LineKind};
use refcheck::source::{SourceData, SourceVar, SourceAttr, VarData, AttrData};

fn empty_source() -> SourceData {
    SourceData { vars: Vec::new(), attrs: Vec::new() }
}

fn source_with_var(name: &str, values: Vec<i64>) -> SourceData {
    let mut s = empty_source();
    s.vars.push(SourceVar { name: name.to_string(), data: VarData::Floats(values) });
    s
}

fn source_with_attr(name: &str, value: AttrData) -> SourceData {
    let mut s = empty_source();
    s.attrs.push(SourceAttr { name: name.to_string(), value });
    s
}

fn report(verbosity: i8, failures_only: bool) -> Report {
    Report::new(CmdLineArgs { verbosity, failures_only })
}

#[test]
fn tolerance_accepts_within_epsilon() {
    // expected 1.0101, actual 1.01005: inside the 1e-4 margin.
    assert!(approx_equal_micro(1010100, 1010050));
    // expected 1.0101, actual 1.0098: outside it.
    assert!(!approx_equal_micro(1010100, 1009800));
}

#[test]
fn tolerance_is_symmetric_at_the_edge() {
    assert!(approx_equal_micro(1010100, 1010200));
    assert!(approx_equal_micro(1010100, 1010000));
    assert!(!approx_equal_micro(1010100, 1010201));
    assert!(!approx_equal_micro(1010100, 1009999));
}

#[test]
fn broadcast_check_counts_mismatches() {
    let mut values = vec![1010100i64; 93];
    for _ in 0..7 {
        values.push(2000000);
    }
    let data = source_with_var("x", values);
    let mut rep = report(3, false);
    let ok = check_float_variable(&data, &"x".to_string(), 1010100, true, &mut rep).unwrap();
    assert!(!ok);
    assert_eq!(rep.lines.len(), 1);
    assert!(matches!(rep.lines[0].kind, LineKind::Fail));
    assert_eq!(rep.lines[0].text, "    - FAIL: 7/100 (7.00%) of x have incorrect values");
}

#[test]
fn broadcast_check_passes_when_all_close() {
    let data = source_with_var("x", vec![1010100, 1010050, 1010150]);
    let mut rep = report(3, false);
    let ok = check_float_variable(&data, &"x".to_string(), 1010100, true, &mut rep).unwrap();
    assert!(ok);
    assert_eq!(rep.lines.len(), 1);
    assert!(matches!(rep.lines[0].kind, LineKind::Pass));
    assert_eq!(rep.lines[0].text, "    - PASS: x");
}

#[test]
fn percent_line_rounds_to_two_places() {
    let mut rep = report(3, false);
    let ok = print_variable_results(&"y".to_string(), 3, 1, &mut rep);
    assert!(!ok);
    // 1/3 = 33.3333...%, printed to two decimal places.
    assert_eq!(rep.lines[0].text, "    - FAIL: 1/3 (33.33%) of y have incorrect values");
}

#[test]
fn missing_optional_variable_fails_without_error() {
    let data = empty_source();
    let mut rep = report(3, false);
    let r = check_float_variable(&data, &"absent".to_string(), 1, true, &mut rep);
    assert_eq!(r, Ok(false));
    assert_eq!(rep.lines.len(), 1);
    assert_eq!(rep.lines[0].text, "    - FAIL: variable 'absent' is missing");
}

#[test]
fn missing_required_variable_is_fatal() {
    let data = empty_source();
    let mut rep = report(3, false);
    let r = check_float_variable(&data, &"absent".to_string(), 1, false, &mut rep);
    assert!(r.is_err());
    assert_eq!(rep.lines.len(), 0);
}

#[test]
fn unreadable_variable_is_fatal() {
    let mut data = empty_source();
    data.vars.push(SourceVar { name: "bad".to_string(), data: VarData::Unreadable });
    let mut rep = report(0, false);
    assert!(check_float_variable(&data, &"bad".to_string(), 1, true, &mut rep).is_err());
}

#[test]
fn string_attribute_match_and_mismatch() {
    let data = source_with_attr("v", AttrData::Str("4.70; 2020-06-29; GCT".to_string()));
    let mut rep = report(0, false);
    assert_eq!(
        check_string_attribute_value(&data, &"v".to_string(), "4.70; 2020-06-29; GCT", &mut rep),
        Ok(true)
    );
    assert_eq!(
        check_string_attribute_value(&data, &"v".to_string(), "5.00", &mut rep),
        Ok(false)
    );
}

#[test]
fn missing_attribute_fails_without_error() {
    let data = empty_source();
    let mut rep = report(2, false);
    assert_eq!(
        check_string_attribute_value(&data, &"gone".to_string(), "x", &mut rep),
        Ok(false)
    );
    assert_eq!(rep.lines[0].text, "  - FAIL: attribute 'gone' is not present");
}

#[test]
fn non_string_attribute_is_fatal() {
    let data = source_with_attr("v", AttrData::NonString);
    let mut rep = report(0, false);
    assert!(check_string_attribute_value(&data, &"v".to_string(), "x", &mut rep).is_err());
}

#[test]
fn mismatch_detail_line_at_full_verbosity() {
    let data = source_with_attr("v", AttrData::Str("actual text".to_string()));
    let mut rep = report(3, false);
    assert_eq!(
        check_string_attribute_value(&data, &"v".to_string(), "wanted text", &mut rep),
        Ok(false)
    );
    assert_eq!(rep.lines.len(), 2);
    assert_eq!(rep.lines[0].text, "  - FAIL: attribute 'v' has the wrong value");
    assert_eq!(rep.lines[1].text, "      (expected = 'wanted text', actual = 'actual text')");
}

#[test]
fn commit_hash_extracted_and_compared() {
    let data = source_with_attr(
        "code_version",
        AttrData::Str("Created from write_netcdf.py commit 42ed12d (branch master)".to_string()),
    );
    let mut rep = report(0, false);
    assert_eq!(check_write_netcdf_hash(&data, &mut rep), Ok(true));

    let data = source_with_attr(
        "code_version",
        AttrData::Str("write_netcdf.py commit abc9f00".to_string()),
    );
    let mut rep = report(0, false);
    assert_eq!(check_write_netcdf_hash(&data, &mut rep), Ok(false));
}

#[test]
fn commit_marker_absent_is_fatal() {
    let data = source_with_attr("code_version", AttrData::Str("no marker here".to_string()));
    let mut rep = report(0, false);
    assert!(check_write_netcdf_hash(&data, &mut rep).is_err());
}

#[test]
fn commit_hash_skips_non_hex_marker_text() {
    // The first marker is not followed by a hexadecimal token, so the
    // scanner keeps looking and finds the second one.
    let data = source_with_attr(
        "code_version",
        AttrData::Str("commit zzz then commit 42ed12d".to_string()),
    );
    let mut rep = report(0, false);
    assert_eq!(check_write_netcdf_hash(&data, &mut rep), Ok(true));
}

#[test]
fn missing_hash_attribute_fails_without_error() {
    let data = empty_source();
    let mut rep = report(2, false);
    assert_eq!(check_write_netcdf_hash(&data, &mut rep), Ok(false));
    // The missing attribute is reported twice, as the fetch and the hash
    // check each note it.
    assert_eq!(rep.lines.len(), 2);
}

#[test]
fn presence_checks_match_expectation() {
    let data = source_with_var("here", vec![0]);
    let mut rep = report(0, false);
    let names = vec!["here".to_string(), "gone".to_string()];
    assert_eq!(check_variables_present(&data, &names, true, &mut rep), Ok(false));
    let only_here = vec!["here".to_string()];
    assert_eq!(check_variables_present(&data, &only_here, true, &mut rep), Ok(true));
    assert_eq!(check_variables_present(&data, &only_here, false, &mut rep), Ok(false));
    let only_gone = vec!["gone".to_string()];
    assert_eq!(check_variables_present(&data, &only_gone, false, &mut rep), Ok(true));
}
