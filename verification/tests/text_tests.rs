use starboard::text::{
    badge_string, cut_body, cut_quote, decimal_string, quote_lines, same_text, starts_with,
    BODY_LIMIT, QUOTE_KEEP, QUOTE_LIMIT,
};

#[test]
fn decimal_of_small_and_large_numbers() {
    assert_eq!(decimal_string(0), "0");
    assert_eq!(decimal_string(7), "7");
    assert_eq!(decimal_string(10), "10");
    assert_eq!(decimal_string(1475), "1475");
    assert_eq!(decimal_string(u64::MAX), "18446744073709551615");
}

#[test]
fn badge_is_count_and_star() {
    assert_eq!(badge_string(0), "0 ⭐");
    assert_eq!(badge_string(3), "3 ⭐");
    assert_eq!(badge_string(100), "100 ⭐");
}

#[test]
fn limits_are_as_documented() {
    assert_eq!(BODY_LIMIT, 1475);
    assert_eq!(QUOTE_LIMIT, 512);
    assert_eq!(QUOTE_KEEP, 509);
}

#[test]
fn body_at_the_limit_is_kept() {
    let text = "a".repeat(1475);
    assert_eq!(cut_body(&text), text);
    assert_eq!(cut_body(""), "");
    assert_eq!(cut_body("short"), "short");
}

#[test]
fn body_over_the_limit_is_cut() {
    let text = "a".repeat(1476);
    let expected = format!("{}...", "a".repeat(1475));
    assert_eq!(cut_body(&text), expected);
    let long = "b".repeat(5000);
    assert_eq!(cut_body(&long), format!("{}...", "b".repeat(1475)));
}

#[test]
fn body_is_cut_by_characters() {
    let text = "é".repeat(1476);
    let expected = format!("{}...", "é".repeat(1475));
    assert_eq!(cut_body(&text), expected);
    let whole = "é".repeat(1475);
    assert_eq!(cut_body(&whole), whole);
}

#[test]
fn quote_between_keep_and_limit_is_kept() {
    for n in [509usize, 510, 511, 512] {
        let text = "q".repeat(n);
        assert_eq!(cut_quote(&text), text);
    }
}

#[test]
fn quote_over_the_limit_is_cut_to_keep() {
    let text = "q".repeat(513);
    assert_eq!(cut_quote(&text), format!("{}...", "q".repeat(509)));
}

#[test]
fn lines_are_prefixed() {
    assert_eq!(quote_lines("one"), "> one\n");
    assert_eq!(quote_lines("one\ntwo"), "> one\n> two\n");
    assert_eq!(quote_lines("one\ntwo\nthree"), "> one\n> two\n> three\n");
}

#[test]
fn final_line_feed_opens_no_line() {
    assert_eq!(quote_lines("one\n"), "> one\n");
    assert_eq!(quote_lines("one\n\n"), "> one\n> \n");
    assert_eq!(quote_lines("\n"), "> \n");
    assert_eq!(quote_lines(""), "");
}

#[test]
fn empty_lines_are_quoted() {
    assert_eq!(quote_lines("\n\nx"), "> \n> \n> x\n");
    assert_eq!(quote_lines("a\n\nb"), "> a\n> \n> b\n");
}

#[test]
fn carriage_return_before_line_feed_is_dropped() {
    assert_eq!(quote_lines("a\r\nb"), "> a\n> b\n");
    assert_eq!(quote_lines("a\r\n"), "> a\n");
    assert_eq!(quote_lines("\r\nb"), "> \n> b\n");
}

#[test]
fn other_carriage_returns_stay() {
    assert_eq!(quote_lines("a\rb\nc"), "> a\rb\n> c\n");
    assert_eq!(quote_lines("a\nb\r"), "> a\n> b\r\n");
    assert_eq!(quote_lines("a\r\r\nb"), "> a\r\n> b\n");
}

#[test]
fn quoting_agrees_with_line_iteration() {
    for text in ["", "x", "x\n", "x\ny", "x\r\ny\r\n", "\n", "\r", "\r\n", "a\n\n\nb", "ü\në"] {
        let mut expected = String::new();
        for line in text.lines() {
            expected.push_str("> ");
            expected.push_str(line);
            expected.push('\n');
        }
        assert_eq!(quote_lines(text), expected);
    }
}

#[test]
fn text_comparison() {
    assert!(same_text("image", "image"));
    assert!(!same_text("image", "images"));
    assert!(!same_text("", "x"));
    assert!(same_text("", ""));
}

#[test]
fn prefix_test() {
    assert!(starts_with("video/mp4", "video/"));
    assert!(starts_with("video/", "video/"));
    assert!(!starts_with("video", "video/"));
    assert!(!starts_with("image/png", "video/"));
    assert!(starts_with("anything", ""));
}
