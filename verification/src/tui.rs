//! What the terminal is asked to show, as plain values: the rows of the
//! results list, and the frame as a whole.

use crate::config::Color;
use vstd::prelude::*;

verus! {

/// What a span is: a piece of text in one color, or in the terminal's own
/// where the color is `None`.
pub struct Piece {
    pub text: Seq<char>,
    pub color: Option<Color>,
}

/// One piece of a row.
#[derive(Debug)]
pub struct Span {
    pub text: String,
    pub color: Option<Color>,
}

impl View for Span {
    type V = Piece;

    open spec fn view(&self) -> Piece {
        Piece { text: self.text@, color: self.color }
    }
}

/// A row of the results list: its spans, from left to right.
#[derive(Debug)]
pub struct ListRow {
    pub spans: Vec<Span>,
}

impl View for ListRow {
    type V = Seq<Piece>;

    open spec fn view(&self) -> Seq<Piece> {
        self.spans@.map_values(|span: Span| span@)
    }
}

/// A title as it stands in a border: with a space on either side.
pub open spec fn titled_text(title: Seq<char>) -> Seq<char> {
    seq![' '] + title + seq![' ']
}

/// Returns the title as it stands in a border: with a space on either side.
pub fn titled(title: &str) -> (text: String)
    ensures
        text@ == titled_text(title@),
{
    let mut text = String::new();
    text.push(' ');
    text.append(title);
    text.push(' ');
    assert(Seq::<char>::empty().push(' ') == seq![' ']);
    assert((seq![' '] + title@).push(' ') == seq![' '] + title@ + seq![' ']);
    text
}

/// `count` spaces.
pub open spec fn spaces(count: nat) -> Seq<char> {
    Seq::new(count, |i: int| ' ')
}

/// The name of a key in the help: indented by two spaces, and filled with
/// spaces on the right up to `width` characters after the indent.
pub open spec fn help_key_text(key: Seq<char>, width: nat) -> Seq<char> {
    seq![' ', ' '] + key + spaces(
        if key.len() < width {
            (width - key.len()) as nat
        } else {
            0
        },
    )
}

/// Returns the name of a key as the help shows it.
pub fn help_key(key: &str, width: usize) -> (text: String)
    ensures
        text@ == help_key_text(key@, width as nat),
{
    let mut text = String::new();
    text.push(' ');
    text.push(' ');
    text.append(key);
    assert(text@ == seq![' ', ' '] + key@);
    let mut length: usize = key.unicode_len();
    let ghost filled: nat = 0;
    assert(text@ == seq![' ', ' '] + key@ + spaces(filled));
    while length < width
        invariant
            key@.len() <= length <= width || length == key@.len(),
            filled == length - key@.len(),
            text@ == seq![' ', ' '] + key@ + spaces(filled),
        decreases width - length,
    {
        text.push(' ');
        length += 1;
        proof {
            assert(spaces(filled).push(' ') == spaces(filled + 1));
            assert((seq![' ', ' '] + key@ + spaces(filled)).push(' ') == seq![' ', ' '] + key@
                + spaces(filled).push(' '));
            filled = filled + 1;
        }
    }
    text
}

/// One line of the help: a key and what it does.
#[derive(Debug)]
pub struct HelpLine {
    pub key: String,
    pub description: String,
}

/// The width of the column of keys in the help.
pub const HELP_KEY_WIDTH: usize = 15;

/// The keys that the help explains, each with what it does.
pub open spec fn help_text() -> Seq<(Seq<char>, Seq<char>)> {
    seq![
        (help_key_text("<esc>"@, HELP_KEY_WIDTH as nat), "Quit"@),
        (help_key_text("<up>"@, HELP_KEY_WIDTH as nat), "Previous result"@),
        (help_key_text("<down>"@, HELP_KEY_WIDTH as nat), "Next result"@),
        (help_key_text("<enter>"@, HELP_KEY_WIDTH as nat), "Select result"@),
        (help_key_text("?"@, HELP_KEY_WIDTH as nat), "Toggle help"@),
    ]
}

/// What each help line says.
pub open spec fn help_lines_text(lines: Seq<HelpLine>) -> Seq<(Seq<char>, Seq<char>)> {
    lines.map_values(|line: HelpLine| (line.key@, line.description@))
}

/// Returns the lines of the help.
pub fn help_lines() -> (lines: Vec<HelpLine>)
    ensures
        help_lines_text(lines@) == help_text(),
{
    let mut lines: Vec<HelpLine> = Vec::new();
    lines.push(HelpLine { key: help_key("<esc>", HELP_KEY_WIDTH), description: "Quit".to_owned() });
    lines.push(
        HelpLine {
            key: help_key("<up>", HELP_KEY_WIDTH),
            description: "Previous result".to_owned(),
        },
    );
    lines.push(
        HelpLine { key: help_key("<down>", HELP_KEY_WIDTH), description: "Next result".to_owned() },
    );
    lines.push(
        HelpLine {
            key: help_key("<enter>", HELP_KEY_WIDTH),
            description: "Select result".to_owned(),
        },
    );
    lines.push(
        HelpLine { key: help_key("?", HELP_KEY_WIDTH), description: "Toggle help".to_owned() },
    );
    assert(help_lines_text(lines@) == help_text());
    lines
}

/// The column of the cursor in the search box: one past the left border at
/// `left`, and as far right of that as the text before the cursor reaches
/// beyond what is scrolled out. The column stops at the largest number that a
/// terminal can be asked for.
pub open spec fn cursor_column_at(left: u16, cursor: usize, scroll: usize) -> int {
    let shown = if cursor > scroll {
        cursor - scroll
    } else {
        0
    };
    if left + shown + 1 <= u16::MAX {
        left + shown + 1
    } else {
        u16::MAX as int
    }
}

/// Returns the column of the cursor in the search box.
pub fn cursor_column(left: u16, cursor: usize, scroll: usize) -> (column: u16)
    ensures
        column == cursor_column_at(left, cursor, scroll),
{
    let shown: usize = if cursor > scroll {
        cursor - scroll
    } else {
        0
    };
    let room: u16 = 0xffff - left;
    if shown < room as usize {
        left + shown as u16 + 1
    } else {
        0xffff
    }
}

/// The mark that stands before the highlighted row.
pub open spec fn highlight_mark() -> Seq<char> {
    ">> "@
}

/// The label that tells how to get help.
pub open spec fn help_label() -> Seq<char> {
    "Help (?)"@
}

/// What one frame shows.
pub struct Picture {
    pub preview_title: Seq<char>,
    pub preview: Seq<char>,
    pub results_title: Seq<char>,
    pub rows: Seq<Seq<Piece>>,
    pub selected: Option<usize>,
    pub offset: usize,
    pub highlight_symbol: Seq<char>,
    pub input_title: Seq<char>,
    pub query: Seq<char>,
    pub status: Option<Seq<char>>,
    pub help_label: Seq<char>,
    pub show_help: bool,
    pub help_title: Seq<char>,
    pub help: Seq<(Seq<char>, Seq<char>)>,
    pub base_color: Color,
    pub selection_color: Color,
}

/// One frame: everything that the renderer is given to draw, from the top
/// of the screen to the bottom.
#[derive(Debug)]
pub struct Frame {
    /// The title of the preview pane.
    pub preview_title: String,
    /// The text of the preview pane.
    pub preview: String,
    /// The title of the results list.
    pub results_title: String,
    /// The rows of the results list, in order.
    pub rows: Vec<ListRow>,
    /// The index of the highlighted row, if one is.
    pub selected: Option<usize>,
    /// The index of the first row in sight, as the last frame left it.
    pub offset: usize,
    /// The mark that stands before the highlighted row.
    pub highlight_symbol: String,
    /// The title of the search box.
    pub input_title: String,
    /// The text of the search box.
    pub query: String,
    /// What the user is told of the last search, if it failed.
    pub status: Option<String>,
    /// The label that tells how to get help.
    pub help_label: String,
    /// Whether the help is drawn on top.
    pub show_help: bool,
    /// The title of the help.
    pub help_title: String,
    /// The lines of the help.
    pub help: Vec<HelpLine>,
    /// The color of borders and titles.
    pub base_color: Color,
    /// The color of the highlighted row.
    pub selection_color: Color,
}

/// What each row shows.
pub open spec fn rows_of(rows: Seq<ListRow>) -> Seq<Seq<Piece>> {
    rows.map_values(|row: ListRow| row@)
}

/// The text, if there is one.
pub open spec fn text_of(text: Option<String>) -> Option<Seq<char>> {
    match text {
        Some(text) => Some(text@),
        None => None,
    }
}

impl View for Frame {
    type V = Picture;

    open spec fn view(&self) -> Picture {
        Picture {
            preview_title: self.preview_title@,
            preview: self.preview@,
            results_title: self.results_title@,
            rows: rows_of(self.rows@),
            selected: self.selected,
            offset: self.offset,
            highlight_symbol: self.highlight_symbol@,
            input_title: self.input_title@,
            query: self.query@,
            status: text_of(self.status),
            help_label: self.help_label@,
            show_help: self.show_help,
            help_title: self.help_title@,
            help: help_lines_text(self.help@),
            base_color: self.base_color,
            selection_color: self.selection_color,
        }
    }
}

} // verus!
