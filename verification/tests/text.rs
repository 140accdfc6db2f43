use ptlk::text::{format_time, is_wide_char, wrap_text};

#[test]
fn test_wrap_text_english() {
    let text = "Hello world";
    let lines = wrap_text(text, 20);
    assert_eq!(lines, vec!["Hello world"]);
}

#[test]
fn test_wrap_text_chinese() {
    let text = "你好世界这是一段中文";
    let lines = wrap_text(text, 10);
    // Each Chinese char is 2 columns, so 5 chars per line
    assert_eq!(lines.len(), 2);
    assert_eq!(lines[0], "你好世界这");
    assert_eq!(lines[1], "是一段中文");
}

#[test]
fn test_wrap_text_with_newlines() {
    let text = "Line1\nLine2\nLine3";
    let lines = wrap_text(text, 50);
    assert_eq!(lines, vec!["Line1", "Line2", "Line3"]);
}

#[test]
fn test_wrap_text_empty() {
    let lines = wrap_text("", 50);
    assert!(lines.is_empty());
}

#[test]
fn test_wrap_text_zero_width() {
    // Should use minimum width of 10
    let text = "Hello";
    let lines = wrap_text(text, 0);
    assert_eq!(lines, vec!["Hello"]);
}

#[test]
fn test_is_wide_char() {
    assert!(is_wide_char('中'));
    assert!(is_wide_char('あ'));
    assert!(is_wide_char('한'));
    assert!(!is_wide_char('a'));
    assert!(!is_wide_char('1'));
}

#[test]
fn test_wrap_zero_width_equals_min_width() {
    let text = "The quick brown fox jumps over the lazy dog";
    assert_eq!(wrap_text(text, 0), wrap_text(text, 10));
    assert_eq!(wrap_text(text, 7), wrap_text(text, 10));
}

#[test]
fn test_wrap_narrow_lines_never_exceed_width() {
    let text = "abcdefghijklmnopqrstuvwxyz abcdefghijklmnopqrstuvwxyz";
    for width in [10usize, 13, 20, 40] {
        for line in wrap_text(text, width) {
            assert!(line.chars().count() <= width);
        }
    }
}

#[test]
fn test_wrap_wide_line_count_formula() {
    // 7 double-width characters at width 10: floor(10/2) = 5 per line,
    // ceil(7/5) = 2 lines.
    let text = "中中中中中中中";
    let lines = wrap_text(text, 10);
    assert_eq!(lines.len(), 2);
    assert_eq!(lines[0], "中中中中中");
    assert_eq!(lines[1], "中中");
}

#[test]
fn test_wrap_preserves_blank_lines() {
    let lines = wrap_text("a\n\nb", 50);
    assert_eq!(lines, vec!["a", "", "b"]);
}

#[test]
fn test_wrap_trailing_newline_yields_empty_line() {
    let lines = wrap_text("a\n", 50);
    assert_eq!(lines, vec!["a", ""]);
}

#[test]
fn test_wrap_single_overwide_sequence_progresses() {
    // 11 single-width chars at clamped width 10 split greedily.
    let lines = wrap_text("abcdefghijk", 3);
    assert_eq!(lines, vec!["abcdefghij", "k"]);
}

#[test]
fn test_format_time_standard() {
    assert_eq!(format_time("2024-01-01T00:00:00Z"), "2024-01-01 00:00");
}

#[test]
fn test_format_time_short_returned_verbatim() {
    assert_eq!(format_time("2024-01-01"), "2024-01-01");
    assert_eq!(format_time(""), "");
    assert_eq!(format_time("123456789012345"), "123456789012345");
}

#[test]
fn test_format_time_exactly_sixteen() {
    assert_eq!(format_time("2024-06-30T12:34"), "2024-06-30 12:34");
}
