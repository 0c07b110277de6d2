use binocular::text::{decimal_string, join_lines, split_lines};

fn lines(text: &str) -> Vec<String> {
    split_lines(text).iter().map(|line| line.iter().collect()).collect()
}

#[test]
fn split_lines_cuts_at_each_newline() {
    assert_eq!(lines("a\nb\nc"), vec!["a", "b", "c"]);
    assert_eq!(lines("a\n\nb"), vec!["a", "", "b"]);
    assert_eq!(lines("a\n"), vec!["a", ""]);
    assert_eq!(lines("\n"), vec!["", ""]);
    assert_eq!(lines(""), vec![""]);
    assert_eq!(lines("no newline"), vec!["no newline"]);
    assert_eq!(lines("a\r\nb"), vec!["a\r", "b"]);
}

#[test]
fn join_lines_puts_a_newline_between() {
    let joined = join_lines(&vec!["a".to_string(), "b".to_string(), "c".to_string()]);
    assert_eq!(joined, "a\nb\nc");
    assert_eq!(join_lines(&vec!["alone".to_string()]), "alone");
    assert_eq!(join_lines(&Vec::new()), "");
    assert_eq!(join_lines(&vec![String::new(), String::new()]), "\n");
}

#[test]
fn joining_the_lines_gives_the_text_back() {
    for text in ["", "a", "a\nb", "\n\n", "a\n", "\nb", "x\ny\n\nz\n"] {
        assert_eq!(join_lines(&lines(text)), text);
    }
}

#[test]
fn decimal_string_spells_numbers() {
    assert_eq!(decimal_string(0), "0");
    assert_eq!(decimal_string(7), "7");
    assert_eq!(decimal_string(10), "10");
    assert_eq!(decimal_string(65535), "65535");
    assert_eq!(decimal_string(1234567890), "1234567890");
    assert_eq!(decimal_string(u64::MAX), "18446744073709551615");
}

#[test]
fn lines_keep_every_character() {
    assert_eq!(lines("aé∀\n\t x"), vec!["aé∀", "\t x"]);
}
