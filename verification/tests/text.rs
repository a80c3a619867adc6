use outcomes_lookup::text::{
    decimal_text, join_text, labelled_text, quote_text, OptFormat, PLACEHOLDER,
};

#[test]
fn decimal_of_small_and_large_numbers() {
    assert_eq!(decimal_text(0), "0");
    assert_eq!(decimal_text(7), "7");
    assert_eq!(decimal_text(10), "10");
    assert_eq!(decimal_text(42), "42");
    assert_eq!(decimal_text(1_000_000), "1000000");
    assert_eq!(decimal_text(9_007_199_254_740_993), "9007199254740993");
    assert_eq!(decimal_text(u64::MAX), "18446744073709551615");
}

#[test]
fn decimal_agrees_with_the_standard_library() {
    let mut n: u64 = 1;
    for _ in 0..64 {
        assert_eq!(decimal_text(n), format!("{}", n));
        assert_eq!(decimal_text(n - 1), format!("{}", n - 1));
        assert_eq!(decimal_text(n), format!("{:#?}", n));
        n = n.wrapping_mul(2);
    }
    for n in 0u64..1200 {
        assert_eq!(decimal_text(n), format!("{}", n));
    }
}

#[test]
fn join_of_no_part_is_empty() {
    let parts: Vec<String> = Vec::new();
    assert_eq!(join_text(&parts, " and "), "");
}

#[test]
fn join_of_one_part_has_no_separator() {
    let parts = vec![String::from("a = 1")];
    assert_eq!(join_text(&parts, " and "), "a = 1");
}

#[test]
fn join_puts_the_separator_between_parts() {
    let parts = vec![String::from("a"), String::from("b"), String::from("c")];
    assert_eq!(join_text(&parts, " and "), "a and b and c");
    assert_eq!(join_text(&parts, ""), "abc");
    assert_eq!(join_text(&parts, " and "), parts.join(" and "));
}

#[test]
fn join_keeps_empty_parts() {
    let parts = vec![String::new(), String::from("b"), String::new()];
    assert_eq!(join_text(&parts, ","), ",b,");
}

#[test]
fn labelled_line_has_colon_and_space() {
    assert_eq!(labelled_text("org_id", "7"), "org_id: 7");
    assert_eq!(labelled_text("reason", "-"), "reason: -");
    assert_eq!(labelled_text("", ""), ": ");
}

#[test]
fn placeholder_is_one_dash() {
    assert_eq!(PLACEHOLDER, "-");
}

#[test]
fn absent_value_renders_the_placeholder() {
    let shown = OptFormat(None).render();
    assert_eq!(shown, "-");
    assert_ne!(shown, "");
    assert_ne!(shown, "null");
}

#[test]
fn present_value_renders_itself() {
    assert_eq!(OptFormat(Some(String::from("17"))).render(), "17");
    assert_eq!(OptFormat(Some(String::new())).render(), "");
    assert_eq!(OptFormat(Some(String::from("-"))).render(), "-");
}

#[test]
fn quoted_text_stands_between_double_quotes() {
    assert_eq!(quote_text("rate_limited"), "\"rate_limited\"");
    assert_eq!(quote_text(""), "\"\"");
}

#[test]
fn quoted_text_escapes_what_cannot_stand_as_it_is() {
    assert_eq!(quote_text("a\"b"), "\"a\\\"b\"");
    assert_eq!(quote_text("line\nbreak"), "\"line\\nbreak\"");
    assert_eq!(quote_text("back\\slash"), "\"back\\\\slash\"");
    assert_eq!(quote_text("tab\there"), format!("{:#?}", "tab\there"));
}
