//! End-to-end tests: a synthetic data source that matches every reference
//! table, failures-only reporting, and the final verdict.

use refcheck::driver::driver;
use refcheck::refdata;
use refcheck::report::{Report, CmdLineArgs, LineKind};
use refcheck::source::{SourceData, SourceVar, SourceAttr, VarData, AttrData};
use refcheck::tables::ReferenceRegistry;

/// A data source on which every check passes.
fn matching_source() -> SourceData {
    let reg = ReferenceRegistry::build().unwrap();
    let mut vars: Vec<SourceVar> = Vec::new();
    for e in reg.adcfs.iter() {
        vars.push(SourceVar {
            name: format!("{}_adcf", e.key),
            data: VarData::Floats(vec![e.val.adcf; 3]),
        });
        vars.push(SourceVar {
            name: format!("{}_adcf_error", e.key),
            data: VarData::Floats(vec![e.val.err; 3]),
        });
        vars.push(SourceVar {
            name: format!("{}_g", e.key),
            data: VarData::Floats(vec![e.val.g * 1000000; 3]),
        });
        vars.push(SourceVar {
            name: format!("{}_p", e.key),
            data: VarData::Floats(vec![e.val.p * 1000000; 3]),
        });
    }
    for e in reg.aicfs.iter() {
        vars.push(SourceVar {
            name: format!("{}_aicf", e.key),
            data: VarData::Floats(vec![e.val.aicf; 3]),
        });
        vars.push(SourceVar {
            name: format!("{}_aicf_error", e.key),
            data: VarData::Floats(vec![e.val.err; 3]),
        });
    }
    for e in reg.windows.iter() {
        vars.push(SourceVar {
            name: format!("vsw_sf_{}", e.key),
            data: VarData::Floats(vec![e.val.sf; 3]),
        });
        vars.push(SourceVar {
            name: format!("vsw_ada_x{}", e.key),
            data: VarData::Floats(vec![0]),
        });
    }
    // The expected-name list overlaps the per-window variables above, so
    // placeholders are only added for names not already present.
    let taken: std::collections::HashSet<String> =
        vars.iter().map(|v| v.name.clone()).collect();
    for name in refcheck::refdata::expected_ingaas_variables().unwrap() {
        if !taken.contains(name) {
            vars.push(SourceVar { name: name.to_string(), data: VarData::Floats(vec![0]) });
        }
    }
    let mut attrs: Vec<SourceAttr> = Vec::new();
    for (name, value) in [
        ("gsetup_version", refdata::GSETUP_VERSION),
        ("gfit_version", refdata::GFIT_VERSION),
        ("collate_results_version", refdata::COLLATE_VERSION),
        ("apply_airmass_correction_version", refdata::AIRMASS_VERSION),
        ("average_results_version", refdata::AVERAGE_VERSION),
        ("apply_insitu_correction_version", refdata::INSITU_VERSION),
    ] {
        attrs.push(SourceAttr { name: name.to_string(), value: AttrData::Str(value.to_string()) });
    }
    attrs.push(SourceAttr {
        name: "code_version".to_string(),
        value: AttrData::Str(format!(
            "Created with write_netcdf.py commit {}",
            refdata::WRITE_NC_HASH
        )),
    });
    SourceData { vars, attrs }
}

fn report(verbosity: i8, failures_only: bool) -> Report {
    Report::new(CmdLineArgs { verbosity, failures_only })
}

#[test]
fn fully_matching_source_passes() {
    let data = matching_source();
    let mut rep = report(0, false);
    let r = driver(&data, "test.nc", &mut rep);
    assert_eq!(r, Ok(true));
    assert_eq!(rep.lines.len(), 1);
    assert!(matches!(rep.lines[0].kind, LineKind::Summary));
    assert_eq!(
        rep.lines[0].text,
        "test.nc PASSES all tests - it appears to be a correct Phase 2 file"
    );
}

#[test]
fn one_bad_scale_factor_fails_the_run() {
    let mut data = matching_source();
    for v in data.vars.iter_mut() {
        if v.name == "vsw_sf_luft_6146" {
            v.data = VarData::Floats(vec![1000000, 1000000, 1000101]);
        }
    }
    let mut rep = report(1, false);
    let r = driver(&data, "test.nc", &mut rep);
    assert_eq!(r, Ok(false));
    assert!(rep.lines.iter().any(|l| l.text
        == "* FAIL: Window-to-window scale factors do not match expected values"));
    let last = rep.lines.last().unwrap();
    assert_eq!(
        last.text,
        "test.nc FAILS at least one test - it may be a Phase 1 file or there was a problem in processing."
    );
}

#[test]
fn missing_required_scale_factor_variable_aborts() {
    let mut data = matching_source();
    data.vars.retain(|v| v.name != "vsw_sf_luft_6146");
    let mut rep = report(0, false);
    assert!(driver(&data, "test.nc", &mut rep).is_err());
}

#[test]
fn missing_optional_variable_only_fails() {
    let mut data = matching_source();
    data.vars.retain(|v| v.name != "xco2_6220_adcf");
    let mut rep = report(0, false);
    assert_eq!(driver(&data, "test.nc", &mut rep), Ok(false));
}

#[test]
fn silent_level_emits_no_lines() {
    let data = matching_source();
    let mut rep = report(-1, false);
    assert_eq!(driver(&data, "test.nc", &mut rep), Ok(true));
    assert_eq!(rep.lines.len(), 0);
}

#[test]
fn failures_only_suppresses_pass_lines() {
    let mut data = matching_source();
    // One failing item among many: a wrong correction factor.
    for v in data.vars.iter_mut() {
        if v.name == "xco2_6220_adcf" {
            v.data = VarData::Floats(vec![777777]);
        }
    }
    let mut rep = report(3, true);
    let r = driver(&data, "test.nc", &mut rep);
    assert_eq!(r, Ok(false));
    for l in rep.lines.iter() {
        assert!(!matches!(l.kind, LineKind::Pass));
    }
    assert!(rep.lines.iter().any(|l| l.text.contains("FAIL") && l.text.contains("xco2_6220_adcf")));
}

#[test]
fn fully_passing_category_prints_no_pass_lines_when_failures_only() {
    let data = matching_source();
    let mut rep = report(3, true);
    assert_eq!(driver(&data, "test.nc", &mut rep), Ok(true));
    for l in rep.lines.iter() {
        assert!(!matches!(l.kind, LineKind::Pass));
        if !matches!(l.kind, LineKind::Summary) {
            assert!(!l.text.contains("PASS"));
        }
    }
}

#[test]
fn pass_lines_present_without_failures_only() {
    let data = matching_source();
    let mut rep = report(3, false);
    assert_eq!(driver(&data, "test.nc", &mut rep), Ok(true));
    assert!(rep.lines.iter().any(|l| matches!(l.kind, LineKind::Pass)));
    assert!(rep.lines.iter().any(|l| l.text == "    - PASS: xco2_6220_adcf"));
}

#[test]
fn verdict_follows_blank_line_at_positive_verbosity() {
    let data = matching_source();
    let mut rep = report(1, false);
    assert_eq!(driver(&data, "test.nc", &mut rep), Ok(true));
    let n = rep.lines.len();
    assert!(n >= 2);
    assert_eq!(rep.lines[n - 2].text, "");
    assert!(matches!(rep.lines[n - 1].kind, LineKind::Summary));
}

#[test]
fn wrong_version_attribute_fails_category() {
    let mut data = matching_source();
    for a in data.attrs.iter_mut() {
        if a.name == "gfit_version" {
            a.value = AttrData::Str("0.00; some other build".to_string());
        }
    }
    let mut rep = report(1, false);
    assert_eq!(driver(&data, "test.nc", &mut rep), Ok(false));
    assert!(rep.lines.iter().any(|l| l.text
        == "* FAIL: At least one program version does not match expected"));
}

#[test]
fn extra_window_variable_fails_removed_check() {
    let mut data = matching_source();
    // A disabled window's variable that should be absent.
    let reg = ReferenceRegistry::build().unwrap();
    let name = format!("vsw_ada_x{}", reg.skipped_windows[0]);
    data.vars.push(SourceVar { name, data: VarData::Floats(vec![0]) });
    let mut rep = report(1, false);
    assert_eq!(driver(&data, "test.nc", &mut rep), Ok(false));
    assert!(rep.lines.iter().any(|l| l.text
        == "* FAIL: At least one window expected to have been removed is present"));
}

#[test]
fn missing_ingaas_variable_fails_category() {
    let mut data = matching_source();
    data.vars.retain(|v| v.name != "prior_time");
    let mut rep = report(1, false);
    assert_eq!(driver(&data, "test.nc", &mut rep), Ok(false));
    assert!(rep.lines.iter().any(|l| l.text == "* FAIL: 1/2556 expected InGaAs variables missing"));
}

#[test]
fn ingaas_fail_lines_truncate_after_ten() {
    let mut data = matching_source();
    let doomed: Vec<String> = refdata::expected_ingaas_variables()
        .unwrap()
        .iter()
        .take(12)
        .map(|s| s.to_string())
        .collect();
    data.vars.retain(|v| !doomed.contains(&v.name));
    let mut rep = report(3, false);
    assert_eq!(driver(&data, "test.nc", &mut rep), Ok(false));
    let fail_lines: Vec<_> = rep
        .lines
        .iter()
        .filter(|l| l.text.starts_with("    - FAIL: variable is "))
        .collect();
    assert_eq!(fail_lines.len(), 10);
    assert!(rep.lines.iter().any(|l| l.text == "    (further missing variables omitted)"));
}

#[test]
fn ingaas_fail_lines_all_shown_at_maximum_level() {
    let mut data = matching_source();
    let doomed: Vec<String> = refdata::expected_ingaas_variables()
        .unwrap()
        .iter()
        .take(12)
        .map(|s| s.to_string())
        .collect();
    data.vars.retain(|v| !doomed.contains(&v.name));
    let mut rep = report(4, false);
    assert_eq!(driver(&data, "test.nc", &mut rep), Ok(false));
    let fail_lines: Vec<_> = rep
        .lines
        .iter()
        .filter(|l| l.text.starts_with("    - FAIL: variable is "))
        .collect();
    assert_eq!(fail_lines.len(), 12);
    assert!(!rep.lines.iter().any(|l| l.text == "    (further missing variables omitted)"));
}
