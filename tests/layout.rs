use astrocalc::{
    degrees_report, dms_line, emphasize, flag_enabled, normalize_line, pi_radians_report,
    plan_conversion, radians_line, remove_pi, render, separation_report, step_line, strip_ansi,
    trim, unsupported_report, visible_width, ConversionPlan, TraceLog,
};

fn lines(items: &[&str]) -> Vec<String> {
    items.iter().map(|s| s.to_string()).collect()
}

#[test]
fn strip_removes_styling_sequences() {
    assert_eq!(strip_ansi("\x1b[1m\x1b[37mabc\x1b[0m"), "abc");
    assert_eq!(strip_ansi("a\x1b[1;32mb\x1b[mc"), "abc");
    assert_eq!(strip_ansi("plain"), "plain");
    assert_eq!(strip_ansi(""), "");
}

#[test]
fn strip_keeps_incomplete_sequences() {
    assert_eq!(strip_ansi("\x1b[12"), "\x1b[12");
    assert_eq!(strip_ansi("\x1b[1x"), "\x1b[1x");
}

#[test]
fn strip_does_not_rescan_what_it_joined() {
    assert_eq!(strip_ansi("\x1b\x1b[m[m"), "\x1b[m");
}

#[test]
fn visible_width_ignores_styling() {
    assert_eq!(visible_width("\x1b[1m\x1b[37mabc\x1b[0m"), 3);
    assert_eq!(visible_width("abc"), 3);
    assert_eq!(visible_width(""), 0);
}

#[test]
fn visible_width_does_not_depend_on_the_codes() {
    let a = visible_width("ab\x1b[31mcd\x1b[0m");
    let b = visible_width("ab\x1b[1;4;38;5;208mcd\x1b[m");
    assert_eq!(a, visible_width("abcd"));
    assert_eq!(a, b);
}

#[test]
fn visible_width_counts_wide_glyphs_twice() {
    assert_eq!(visible_width("日本"), 4);
    assert_eq!(visible_width("\x1b[1m日本\x1b[0m"), 4);
    assert_eq!(visible_width("e\u{301}"), 1);
}

#[test]
fn render_empty_is_degenerate_frame() {
    assert_eq!(render(&[]), "┏┓\n┗┛");
}

#[test]
fn render_pads_by_visible_width() {
    let out = render(&lines(&["ab", "\x1b[1mc\x1b[0m"]));
    assert_eq!(out, "┏━━┓\n┃ab┃\n┃\x1b[1mc\x1b[0m ┃\n┗━━┛");
}

#[test]
fn render_rows_span_the_border_width() {
    let input = lines(&["x", "\x1b[1m\x1b[37mlonger text\x1b[0m", "日本語"]);
    let out = render(&input);
    let rows: Vec<&str> = out.split('\n').collect();
    assert_eq!(rows.len(), 5);
    let border = visible_width(rows[0]);
    assert_eq!(border, 11 + 2);
    for row in &rows {
        assert_eq!(visible_width(row), border);
    }
}

#[test]
fn render_wide_glyph_line() {
    assert_eq!(render(&lines(&["日", "abc"])), "┏━━━┓\n┃日 ┃\n┃abc┃\n┗━━━┛");
}

#[test]
fn trim_removes_unicode_white_space() {
    assert_eq!(trim("  180 "), "180");
    assert_eq!(trim("\u{3000}x y\t\n"), "x y");
    assert_eq!(trim("   "), "");
    assert_eq!(trim(""), "");
}

#[test]
fn remove_pi_scans_from_the_left() {
    assert_eq!(remove_pi("2pi"), "2");
    assert_eq!(remove_pi("pipi"), "");
    assert_eq!(remove_pi("ppii"), "pi");
    assert_eq!(remove_pi("spin"), "sn");
}

#[test]
fn plan_degrees_to_radians() {
    match plan_conversion("deg-rad", " 180 ") {
        ConversionPlan::DegreesToPiRadians { degrees } => assert_eq!(degrees, "180"),
        _ => panic!("wrong plan"),
    }
}

#[test]
fn plan_pi_multiple() {
    match plan_conversion("rad-deg", "2pi") {
        ConversionPlan::PiMultipleToDegrees { coefficient } => {
            assert_eq!(coefficient, Some("2".to_string()))
        }
        _ => panic!("wrong plan"),
    }
}

#[test]
fn plan_bare_pi_has_coefficient_one() {
    match plan_conversion("rad-deg", " pi ") {
        ConversionPlan::PiMultipleToDegrees { coefficient } => assert_eq!(coefficient, None),
        _ => panic!("wrong plan"),
    }
}

#[test]
fn plan_plain_radians() {
    match plan_conversion("rad-deg", "3.14159265") {
        ConversionPlan::RadiansToDegrees { radians } => assert_eq!(radians, "3.14159265"),
        _ => panic!("wrong plan"),
    }
}

#[test]
fn plan_unknown_kind() {
    assert!(matches!(plan_conversion("bogus", "5"), ConversionPlan::Unsupported));
    assert!(matches!(plan_conversion("degree", "5"), ConversionPlan::Unsupported));
}

#[test]
fn unsupported_message_is_boxed() {
    let out = unsupported_report();
    let bar = "━".repeat(23);
    assert_eq!(out, format!("┏{}┓\n┃Invalid conversion type┃\n┗{}┛", bar, bar));
}

#[test]
fn conversion_results_are_boxed() {
    assert_eq!(pi_radians_report("1"), "┏━━━━━━┓\n┃1π rad┃\n┗━━━━━━┛");
    assert_eq!(degrees_report("360"), "┏━━━━┓\n┃360°┃\n┗━━━━┛");
}

#[test]
fn flag_only_true_is_on() {
    assert!(flag_enabled("true"));
    assert!(!flag_enabled("false"));
    assert!(!flag_enabled("True"));
    assert!(!flag_enabled(""));
}

#[test]
fn emphasis_wraps_in_bold_white() {
    assert_eq!(emphasize("42"), "\x1b[1m\x1b[37m42\x1b[0m");
    assert_eq!(visible_width(&emphasize("42")), 2);
}

#[test]
fn result_lines() {
    assert_eq!(radians_line("0"), "θ = \x1b[1m\x1b[37m0\x1b[0m rad");
    assert_eq!(dms_line("180", "0", "0"), "θ = \x1b[1m\x1b[37m180°0′0″\x1b[0m");
}

#[test]
fn identical_points_report() {
    let out = separation_report("0", "0", "0", "0");
    let expected = format!(
        "┏{}┓\n┃θ = \x1b[1m\x1b[37m0\x1b[0m rad ┃\n┃θ = \x1b[1m\x1b[37m0°0′0″\x1b[0m┃\n┗{}┛",
        "━".repeat(10),
        "━".repeat(10)
    );
    assert_eq!(out, expected);
}

#[test]
fn antipodal_points_report() {
    let out = separation_report("3.1415927", "180", "0", "0");
    let expected = format!(
        "┏{}┓\n┃θ = \x1b[1m\x1b[37m3.1415927\x1b[0m rad┃\n┃θ = \x1b[1m\x1b[37m180°0′0″\x1b[0m     ┃\n┗{}┛",
        "━".repeat(17),
        "━".repeat(17)
    );
    assert_eq!(out, expected);
}

#[test]
fn trace_lines() {
    assert_eq!(step_line("cos(θ)", "1"), "\tcos(θ) = \x1b[1m\x1b[37m1\x1b[0m");
    assert_eq!(
        normalize_line("α₁", "180", "3.1415927"),
        "\tα₁ = 180 * π/180 = \x1b[1m\x1b[37m3.1415927\x1b[0m"
    );
}

#[test]
fn trace_log_keeps_order_when_on() {
    let mut log = TraceLog::new(true);
    log.record("first".to_string());
    log.record("second".to_string());
    assert_eq!(log.events, vec!["first".to_string(), "second".to_string()]);
}

#[test]
fn trace_log_off_records_nothing() {
    let mut log = TraceLog::new(false);
    log.record("first".to_string());
    assert!(log.events.is_empty());
}
