use song_sheet::text::{
    chars_of, count_of, find_from, has_char, push_decimal, push_joined, same_text, split_lines,
    text_of,
};

fn lines(s: &str) -> Vec<String> {
    split_lines(&chars_of(s))
}

fn numeral(n: u64) -> String {
    let mut out = String::from("n=");
    push_decimal(&mut out, n);
    out
}

fn join(parts: &[&str], sep: &str) -> String {
    let parts: Vec<String> = parts.iter().map(|p| p.to_string()).collect();
    let mut out = String::from("<");
    push_joined(&mut out, &parts, sep);
    out
}

#[test]
fn chars_of_keeps_every_character() {
    assert_eq!(chars_of(""), Vec::<char>::new());
    assert_eq!(chars_of("a\u{e9}\u{1f3b5}\n"), vec!['a', '\u{e9}', '\u{1f3b5}', '\n']);
}

#[test]
fn text_of_takes_the_range() {
    let chars = chars_of("h\u{e9}llo");
    assert_eq!(text_of(&chars, 0, 5), "h\u{e9}llo");
    assert_eq!(text_of(&chars, 1, 3), "\u{e9}l");
    assert_eq!(text_of(&chars, 2, 2), "");
}

#[test]
fn same_text_compares_characters() {
    assert!(same_text("abc", "abc"));
    assert!(same_text("", ""));
    assert!(!same_text("abc", "abd"));
    assert!(!same_text("abc", "ab"));
}

#[test]
fn has_char_and_count_of() {
    let chars = chars_of("vcvbv");
    assert!(has_char(&chars, 'c'));
    assert!(has_char(&chars, 'b'));
    assert!(!has_char(&chars, 'x'));
    assert_eq!(count_of(&chars, 'v'), 3);
    assert_eq!(count_of(&chars, 'c'), 1);
    assert_eq!(count_of(&chars, 'x'), 0);
    assert_eq!(count_of(&chars_of(""), 'v'), 0);
}

#[test]
fn find_from_finds_the_first_at_or_after() {
    let chars = chars_of("a\nb\nc");
    assert_eq!(find_from(&chars, '\n', 0), 1);
    assert_eq!(find_from(&chars, '\n', 1), 1);
    assert_eq!(find_from(&chars, '\n', 2), 3);
    assert_eq!(find_from(&chars, '\n', 4), 5);
    assert_eq!(find_from(&chars, '\n', 5), 5);
}

#[test]
fn lines_end_at_line_feeds() {
    assert_eq!(lines("one\ntwo\nthree"), vec!["one", "two", "three"]);
    assert_eq!(lines("one\ntwo\n"), vec!["one", "two"]);
    assert_eq!(lines("single"), vec!["single"]);
}

#[test]
fn empty_text_has_no_lines() {
    assert_eq!(lines(""), Vec::<String>::new());
}

#[test]
fn blank_lines_are_lines() {
    assert_eq!(lines("\n"), vec![""]);
    assert_eq!(lines("a\n\nb"), vec!["a", "", "b"]);
    assert_eq!(lines("\n\n"), vec!["", ""]);
}

#[test]
fn carriage_return_before_line_feed_goes_with_it() {
    assert_eq!(lines("one\r\ntwo\r\n"), vec!["one", "two"]);
    assert_eq!(lines("\r\n"), vec![""]);
    assert_eq!(lines("a\r\r\nb"), vec!["a\r", "b"]);
}

#[test]
fn carriage_return_alone_stays() {
    assert_eq!(lines("one\rtwo"), vec!["one\rtwo"]);
    assert_eq!(lines("one\ntwo\r"), vec!["one", "two\r"]);
}

#[test]
fn lines_agree_with_std() {
    for s in ["", "a", "a\n", "\na", "a\r\nb\r", "\r", "x\n\ny\n\n", "\r\n\r\n", "a\rb\nc"] {
        let expected: Vec<String> = s.lines().map(|l| l.to_string()).collect();
        assert_eq!(lines(s), expected, "{:?}", s);
    }
}

#[test]
fn decimal_numerals() {
    assert_eq!(numeral(0), "n=0");
    assert_eq!(numeral(7), "n=7");
    assert_eq!(numeral(10), "n=10");
    assert_eq!(numeral(255), "n=255");
    assert_eq!(numeral(1234567890), "n=1234567890");
    assert_eq!(numeral(u64::MAX), "n=18446744073709551615");
}

#[test]
fn joined_puts_the_separator_between() {
    assert_eq!(join(&[], ", "), "<");
    assert_eq!(join(&["a"], ", "), "<a");
    assert_eq!(join(&["a", "b", "c"], ", "), "<a, b, c");
    assert_eq!(join(&["", ""], "-"), "<-");
}
