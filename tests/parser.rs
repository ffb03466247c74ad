use maple_ocr::parser::{
    parse_exp, parse_level, parse_meso, parse_sol_erda_count, parse_sol_erda_gauge,
    parse_sol_erda_piece,
};

fn exp_as_percent(text: &str) -> Option<f64> {
    parse_exp(text).map(|v| v as f64 / 1000.0)
}

#[test]
fn test_parse_level() {
    assert_eq!(parse_level("Lv.287"), Some(287));
    assert_eq!(parse_level("LV287"), Some(287));
    assert_eq!(parse_level("Lv 300"), Some(300));
    assert_eq!(parse_level("lv.250 규빅"), Some(250));
    assert_eq!(parse_level("invalid"), None);
}

#[test]
fn test_parse_exp() {
    assert_eq!(exp_as_percent("67.432%"), Some(67.432));
    assert_eq!(exp_as_percent("67.432 %"), Some(67.432));
    assert_eq!(exp_as_percent("50%"), Some(50.0));
    assert_eq!(exp_as_percent("invalid"), None);
}

#[test]
fn test_parse_meso() {
    assert_eq!(parse_meso("25억 2758만 6086"), Some(2527586086));
    assert_eq!(parse_meso("25역 2758만 6086"), Some(2527586086));
    assert_eq!(parse_meso("1억"), Some(100000000));
    assert_eq!(parse_meso("5000만"), Some(50000000));
    assert_eq!(parse_meso("1234"), Some(1234));
    assert_eq!(parse_meso("invalid"), None);
}

#[test]
fn test_parse_sol_erda_count() {
    assert_eq!(parse_sol_erda_count("19"), Some(19));
    assert_eq!(parse_sol_erda_count("0"), Some(0));
    assert_eq!(parse_sol_erda_count("20"), Some(20));
    assert_eq!(parse_sol_erda_count("21"), None);
}

#[test]
fn test_parse_sol_erda_gauge() {
    assert_eq!(parse_sol_erda_gauge("348/1000"), Some(348));
    assert_eq!(parse_sol_erda_gauge("348 / 1000"), Some(348));
    assert_eq!(parse_sol_erda_gauge("0/1000"), Some(0));
    assert_eq!(parse_sol_erda_gauge("invalid"), None);
}

#[test]
fn test_parse_sol_erda_piece() {
    assert_eq!(parse_sol_erda_piece("41"), Some(41));
    assert_eq!(parse_sol_erda_piece("1,234"), Some(1234));
    assert_eq!(parse_sol_erda_piece("invalid"), None);
}

#[test]
fn level_outside_known_range_is_rejected() {
    assert_eq!(parse_level("Lv.999"), None);
    assert_eq!(parse_level("Lv.0"), None);
    assert_eq!(parse_level("Lv.99999999999999999999999"), None);
    assert_eq!(parse_level("Lv.999 Lv.123"), Some(123));
    assert_eq!(parse_level("Lv"), None);
    assert_eq!(parse_level(""), None);
}

#[test]
fn exp_never_reaches_one_hundred() {
    assert_eq!(parse_exp("100.000%"), None);
    assert_eq!(parse_exp("123.4%"), None);
    assert_eq!(parse_exp("100%"), None);
    assert_eq!(parse_exp("99.999%"), Some(99999));
    assert_eq!(parse_exp("0.0%"), Some(0));
}

#[test]
fn exp_prefers_decimal_form_and_truncates_fraction() {
    assert_eq!(parse_exp("12% then 34.5%"), Some(34500));
    assert_eq!(parse_exp("EXP 7.12345 %"), Some(7123));
    assert_eq!(parse_exp("7.1%"), Some(7100));
    assert_eq!(parse_exp("7.12%"), Some(7120));
    assert_eq!(parse_exp("67.432"), None);
}

#[test]
fn meso_round_trip_examples() {
    assert_eq!(parse_meso("0억 0만 0"), Some(0));
    assert_eq!(parse_meso("99억 9999만 9999"), Some(9_999_999_999));
    assert_eq!(parse_meso("99역 9999만 9999"), Some(9_999_999_999));
    assert_eq!(parse_meso("7억 12만 5"), Some(700_120_005));
}

#[test]
fn meso_fallbacks_in_priority_order() {
    assert_eq!(parse_meso("2,913,009,385"), Some(2_913_009_385));
    assert_eq!(parse_meso("12,345"), None);
    assert_eq!(parse_meso("  98765  "), Some(98765));
    assert_eq!(parse_meso("meso 98765"), None);
    assert_eq!(parse_meso("3억 1,000,000,000"), Some(300_000_001));
}

#[test]
fn count_and_gauge_edges() {
    assert_eq!(parse_sol_erda_count("123"), None);
    assert_eq!(parse_sol_erda_count("19 348/1000"), Some(19));
    assert_eq!(parse_sol_erda_count(""), None);
    assert_eq!(parse_sol_erda_gauge("999/1000"), Some(999));
    assert_eq!(parse_sol_erda_gauge("1000/1000"), None);
    assert_eq!(parse_sol_erda_gauge("348/1,000"), Some(348));
    assert_eq!(parse_sol_erda_gauge("348/10000"), None);
    assert_eq!(parse_sol_erda_gauge("19 348/1000"), Some(348));
}

#[test]
fn counter_boundary_over_whole_range() {
    for n in 0..=20 {
        assert_eq!(parse_sol_erda_count(&n.to_string()), Some(n));
    }
    assert_eq!(parse_sol_erda_count("21"), None);
    for n in 0..1000 {
        assert_eq!(parse_sol_erda_gauge(&format!("{}/1000", n)), Some(n));
    }
    assert_eq!(parse_sol_erda_gauge("1000/1000"), None);
    assert_eq!(parse_sol_erda_gauge("1500/1000"), None);
}

#[test]
fn piece_prefers_number_next_to_keyword() {
    assert_eq!(parse_sol_erda_piece("보유 88개, 조각: 345"), Some(345));
    assert_eq!(parse_sol_erda_piece("12 조각: 345"), Some(12));
    assert_eq!(parse_sol_erda_piece("7 조각"), Some(7));
    assert_eq!(parse_sol_erda_piece("100000"), None);
    assert_eq!(parse_sol_erda_piece("99999"), Some(99999));
    assert_eq!(parse_sol_erda_piece(" 1,2 "), Some(12));
}

#[test]
fn level_accepts_unicode_spacing() {
    assert_eq!(parse_level("Lv\u{3000}287"), Some(287));
    assert_eq!(parse_level("Lv.\u{0C}250"), Some(250));
    assert_eq!(parse_level("LV\u{A0}.\u{2009}201"), Some(201));
}
