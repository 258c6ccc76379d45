//! Tests of the table parser: name derivation, scale-factor extraction,
//! disabled-row handling, and the embedded reference tables.

use refcheck::tables::{
    parse_adcf_text, parse_aicf_text, parse_windows_text, get_window_name, read_adcf_table,
    read_aicf_table, read_windows_table, ReferenceRegistry,
};

fn window_sf(text: &str, name: &str) -> Option<i64> {
    let (wins, _) = parse_windows_text(text).unwrap();
    for e in wins.iter() {
        if e.key == name {
            return Some(e.val.sf);
        }
    }
    None
}

#[test]
fn derived_name_from_example_row() {
    let row = "6076.90   3.85  15 1 1 0  ncbf=2  fs  sg     sf=1.018 : h2o  ch4 hdo co2";
    let (name, gas, center) = get_window_name(row).unwrap();
    assert_eq!(name, "h2o_6076");
    assert_eq!(gas, "h2o");
    assert_eq!(center, "6076");
}

#[test]
fn example_row_scale_factor() {
    let text = "hdr\n6076.90   3.85  15 1 1 0  ncbf=2  fs  sg     sf=1.018 : h2o  ch4 hdo co2";
    assert_eq!(window_sf(text, "h2o_6076"), Some(1018000));
}

#[test]
fn center_is_truncated_not_rounded() {
    let (name, _, center) = get_window_name("4598.69 10.78 : h2o ch4").unwrap();
    assert_eq!(center, "4598");
    assert_eq!(name, "h2o_4598");
}

#[test]
fn row_without_scale_factor_defaults_to_one() {
    let text = "hdr\n4852.20  87.60  15 1 1 0  ncbf=3  fs  sg  nv          : zco2 h2o hdo";
    assert_eq!(window_sf(text, "zco2_4852"), Some(1000000));
}

#[test]
fn scale_factor_needs_single_leading_digit() {
    // The token pattern wants exactly one digit before the dot, so this row
    // falls back to the default factor.
    let text = "hdr\n100.5 1 2 sf=12.5 : gasa";
    assert_eq!(window_sf(text, "gasa_100"), Some(1000000));
}

#[test]
fn later_active_row_overrides_earlier() {
    let text = "hdr\n100.5 1 sf=1.100 : gasa\n100.9 2 sf=1.200 : gasa";
    let (wins, _) = parse_windows_text(text).unwrap();
    assert_eq!(wins.len(), 1);
    assert_eq!(wins[0].key, "gasa_100");
    assert_eq!(wins[0].val.sf, 1200000);
}

#[test]
fn disabled_row_superseded_by_active_row() {
    let text = "hdr\n:100.5 1 sf=1.000 : gasa\n100.9 2 sf=1.300 : gasa\n:200.5 1 : gasb";
    let (wins, skipped) = parse_windows_text(text).unwrap();
    assert_eq!(wins.len(), 1);
    assert_eq!(wins[0].key, "gasa_100");
    assert_eq!(wins[0].val.sf, 1300000);
    assert_eq!(skipped, vec!["gasb_200".to_string()]);
}

#[test]
fn embedded_table_superseded_disabled_window() {
    // The disabled row at 6177.30 derives the same name as the active row
    // at 6177.51, so it must survive only as an active window.
    let (wins, skipped) = read_windows_table().unwrap();
    let hit: Vec<_> = wins.iter().filter(|e| e.key == "h2o_6177").collect();
    assert_eq!(hit.len(), 1);
    assert_eq!(hit[0].val.center, 6177);
    assert_eq!(hit[0].val.sf, 1005000);
    assert!(!skipped.iter().any(|n| n == "h2o_6177"));
}

#[test]
fn embedded_window_table_contents() {
    let (wins, skipped) = read_windows_table().unwrap();
    for e in wins.iter() {
        assert!(!skipped.iter().any(|n| *n == e.key));
    }
    let luft: Vec<_> = wins.iter().filter(|e| e.key == "luft_6146").collect();
    assert_eq!(luft.len(), 1);
    assert_eq!(luft[0].val.sf, 1000000);
    assert_eq!(luft[0].val.gas, "luft");
    assert!(skipped.iter().any(|n| n == "h2o_6219"));
    assert!(skipped.iter().any(|n| n == "ao2_13082"));
    // The list arrives sorted.
    for w in skipped.windows(2) {
        assert!(w[0] <= w[1]);
    }
}

#[test]
fn embedded_adcf_table_contents() {
    let adcfs = read_adcf_table().unwrap();
    assert_eq!(adcfs.len(), 14);
    let rec: Vec<_> = adcfs.iter().filter(|e| e.key == "xco2_6220").collect();
    assert_eq!(rec.len(), 1);
    assert_eq!(rec[0].val.adcf, -9030);
    assert_eq!(rec[0].val.err, 250);
    assert_eq!(rec[0].val.g, 15);
    assert_eq!(rec[0].val.p, 4);
    // Sorted by window name.
    for w in adcfs.windows(2) {
        assert!(w[0].key < w[1].key);
    }
}

#[test]
fn embedded_aicf_table_contents() {
    let aicfs = read_aicf_table().unwrap();
    assert_eq!(aicfs.len(), 8);
    let rec: Vec<_> = aicfs.iter().filter(|e| e.key == "xco2").collect();
    assert_eq!(rec[0].val.aicf, 1010100);
    assert_eq!(rec[0].val.err, 500);
    let rec: Vec<_> = aicfs.iter().filter(|e| e.key == "xn2o").collect();
    assert_eq!(rec[0].val.aicf, 982100);
    assert_eq!(rec[0].val.err, 9800);
}

#[test]
fn registry_builds_from_embedded_tables() {
    let reg = ReferenceRegistry::build().unwrap();
    assert_eq!(reg.adcfs.len(), 14);
    assert_eq!(reg.aicfs.len(), 8);
    assert!(reg.windows.len() > 50);
    assert!(reg.skipped_windows.len() > 10);
}

#[test]
fn malformed_numeric_field_is_fatal() {
    assert!(parse_adcf_text(" h\n\"w\" abc 0.1 1 2").is_err());
    assert!(parse_adcf_text(" h\n\"w\" 0.1 0.1 1").is_err());
    assert!(parse_aicf_text(" h\n\"g\" 1.0 nope").is_err());
}

#[test]
fn unquoted_key_is_fatal() {
    assert!(parse_adcf_text(" h\nw 0.1 0.1 1 2").is_err());
    assert!(parse_aicf_text(" h\n\"g 1.0 0.1").is_err());
}

#[test]
fn window_row_without_separator_is_fatal() {
    assert!(parse_windows_text("hdr\n100.5 1 2 sf=1.000 gasa").is_err());
    assert!(parse_windows_text("hdr\n:100.5 1 2 no separator after strip").is_err());
}

#[test]
fn window_row_with_bad_center_is_fatal() {
    assert!(parse_windows_text("hdr\nx100.5 1 : gasa").is_err());
}

#[test]
fn empty_tables_parse_to_nothing() {
    assert_eq!(parse_adcf_text("header only").unwrap().len(), 0);
    let (wins, skipped) = parse_windows_text("header only").unwrap();
    assert_eq!(wins.len(), 0);
    assert_eq!(skipped.len(), 0);
}
