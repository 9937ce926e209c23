use jughisto::template::fill;
use jughisto::test_path::format_width;
use jughisto::isolate::trim_end;
use jughisto::text::{base_name, int_to_string, join_path, padded_int_to_string, parent, parse_i32, strip_extension};

#[test]
fn format_width_pads_the_first_placeholder() {
    assert_eq!(format_width("t/%03d.in", 7), Some("t/007.in".to_string()));
    assert_eq!(format_width("a%02db%1d", 5), Some("a05b%1d".to_string()));
}

#[test]
fn format_width_edge_cases() {
    assert_eq!(format_width("tests/%01d", 123), Some("tests/123".to_string()));
    assert_eq!(format_width("%012d", 42), Some("000000000042".to_string()));
    assert_eq!(format_width("plain", 3), Some("plain".to_string()));
    assert_eq!(format_width("%3d %02d", 9), Some("%3d 09".to_string()));
    assert_eq!(format_width("%099999999999999999999999d", 1), None);
}

#[test]
fn parse_i32_follows_from_str() {
    assert_eq!(parse_i32("42"), Some(42));
    assert_eq!(parse_i32("-17"), Some(-17));
    assert_eq!(parse_i32("+8"), Some(8));
    assert_eq!(parse_i32("2147483647"), Some(i32::MAX));
    assert_eq!(parse_i32("-2147483648"), Some(i32::MIN));
    assert_eq!(parse_i32("2147483648"), None);
    assert_eq!(parse_i32("-"), None);
    assert_eq!(parse_i32(""), None);
    assert_eq!(parse_i32(" 1"), None);
    assert_eq!(parse_i32("1x"), None);
}

#[test]
fn integers_render_in_decimal() {
    assert_eq!(int_to_string(0), "0");
    assert_eq!(int_to_string(-305), "-305");
    assert_eq!(int_to_string(i32::MIN), "-2147483648");
    assert_eq!(padded_int_to_string(5, 3), "005");
    assert_eq!(padded_int_to_string(-5, 3), "-05");
    assert_eq!(padded_int_to_string(1234, 3), "1234");
}

#[test]
fn paths_split_and_join() {
    assert_eq!(join_path("./data", "p/t1"), "./data/p/t1");
    assert_eq!(join_path("/x/", "y"), "/x/y");
    assert_eq!(join_path("", "y"), "y");
    assert_eq!(base_name("a/b/check.cpp"), "check.cpp");
    assert_eq!(parent("a/b/check.cpp"), "a/b");
    assert_eq!(parent("/check"), "/");
    assert_eq!(parent("check"), "");
    assert_eq!(strip_extension("a/b/check.cpp"), "a/b/check");
    assert_eq!(strip_extension("a.d/check"), "a.d/check");
    assert_eq!(strip_extension("a/.hidden"), "a/.hidden");
    assert_eq!(trim_end("/var/box \n\t"), "/var/box");
}

#[test]
fn templates_fill_both_placeholders() {
    assert_eq!(fill("-o{output}", "program.pas", "program"), "-oprogram");
    assert_eq!(fill("{source}", "program.py", "program"), "program.py");
    assert_eq!(fill("{output}.class", "A.java", "A"), "A.class");
    assert_eq!(fill("{sourc}", "s", "o"), "{sourc}");
}
