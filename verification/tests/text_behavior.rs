use memora_ui::text::{
    cat2, char_run, confirmation_accepted, content_preview, format_hundredths, format_u64,
    pad_right, split_lines,
};

#[test]
fn decimal_formatting() {
    assert_eq!(format_u64(0), "0");
    assert_eq!(format_u64(7), "7");
    assert_eq!(format_u64(12345), "12345");
    assert_eq!(format_u64(1000), "1000");
}

#[test]
fn hundredths_formatting() {
    assert_eq!(format_hundredths(97), "0.97");
    assert_eq!(format_hundredths(0), "0.00");
    assert_eq!(format_hundredths(1234), "12.34");
    assert_eq!(format_hundredths(100), "1.00");
    assert_eq!(format_hundredths(5), "0.05");
}

#[test]
fn padding_and_runs() {
    assert_eq!(pad_right("Agent ID", 11), "Agent ID   ");
    assert_eq!(pad_right("a-very-long-name", 8), "a-very-long-name");
    assert_eq!(char_run("\u{2500}", 3), "\u{2500}\u{2500}\u{2500}");
    assert_eq!(cat2("ab", "cd"), "abcd");
}

#[test]
fn preview_short_content_is_verbatim() {
    let s = "short note";
    assert_eq!(content_preview(s), s);
    let exactly60: String = "x".repeat(60);
    assert_eq!(content_preview(&exactly60), exactly60);
}

#[test]
fn preview_long_content_is_truncated() {
    let content: String = "a".repeat(100);
    let preview = content_preview(&content);
    assert_eq!(preview.chars().count(), 60);
    let expected = format!("{}...", "a".repeat(57));
    assert_eq!(preview, expected);
}

#[test]
fn preview_truncates_at_character_boundaries() {
    let content: String = "é".repeat(70);
    let preview = content_preview(&content);
    let expected = format!("{}...", "é".repeat(57));
    assert_eq!(preview, expected);
}

#[test]
fn confirmation_affirmative_inputs() {
    assert!(confirmation_accepted("y"));
    assert!(confirmation_accepted("Y"));
    assert!(confirmation_accepted("yes"));
    assert!(confirmation_accepted("YES"));
    assert!(confirmation_accepted(" y \n"));
    assert!(confirmation_accepted("Yes\n"));
}

#[test]
fn confirmation_negative_inputs() {
    assert!(!confirmation_accepted(""));
    assert!(!confirmation_accepted("n"));
    assert!(!confirmation_accepted("maybe"));
    assert!(!confirmation_accepted("\n"));
    assert!(!confirmation_accepted("yess"));
}

#[test]
fn split_lines_behaves_like_str_lines() {
    let cases = [
        "",
        "one line",
        "a\nb",
        "a\nb\n",
        "a\r\nb",
        "a\n\nb",
        "trailing\r\n",
    ];
    for case in cases {
        let got = split_lines(case);
        let want: Vec<String> = case.lines().map(|l| l.to_string()).collect();
        assert_eq!(got, want);
    }
}
