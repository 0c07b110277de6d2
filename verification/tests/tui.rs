use binocular::tui::{cursor_column, help_key, help_lines, titled, HELP_KEY_WIDTH};

#[test]
fn titles_stand_between_spaces() {
    assert_eq!(titled("Results"), " Results ");
    assert_eq!(titled(""), "  ");
}

#[test]
fn help_keys_are_filled_to_the_column_width() {
    assert_eq!(help_key("<esc>", 15), format!("  {:<15}", "<esc>"));
    assert_eq!(help_key("?", 15), "  ?              ");
    assert_eq!(help_key("exactly fifteen", 15), "  exactly fifteen");
    assert_eq!(help_key("longer than fifteen", 15), "  longer than fifteen");
    assert_eq!(help_key("é", 3), "  é  ");
    assert_eq!(help_key("", 0), "  ");
}

#[test]
fn help_explains_five_keys() {
    assert_eq!(HELP_KEY_WIDTH, 15);
    let lines: Vec<(String, String)> =
        help_lines().into_iter().map(|line| (line.key, line.description)).collect();
    let expected: Vec<(String, String)> = [
        ("<esc>", "Quit"),
        ("<up>", "Previous result"),
        ("<down>", "Next result"),
        ("<enter>", "Select result"),
        ("?", "Toggle help"),
    ]
    .iter()
    .map(|(key, description)| (format!("  {:<15}", key), description.to_string()))
    .collect();
    assert_eq!(lines, expected);
}

#[test]
fn cursor_column_follows_the_text() {
    assert_eq!(cursor_column(1, 0, 0), 2);
    assert_eq!(cursor_column(1, 5, 0), 7);
    assert_eq!(cursor_column(1, 100, 30), 72);
    assert_eq!(cursor_column(0, 3, 3), 1);
    assert_eq!(cursor_column(0, 3, 7), 1);
}

#[test]
fn cursor_column_stops_at_the_last_column() {
    assert_eq!(cursor_column(65535, 0, 0), 65535);
    assert_eq!(cursor_column(65534, 0, 0), 65535);
    assert_eq!(cursor_column(65533, 1, 0), 65535);
    assert_eq!(cursor_column(65533, 0, 0), 65534);
    assert_eq!(cursor_column(10, usize::MAX, 0), 65535);
    assert_eq!(cursor_column(0, 65534, 0), 65535);
    assert_eq!(cursor_column(0, 65533, 0), 65534);
}
