//! One match of the search tool, with the lines around it, and the builder
//! that collects those lines from the current block of output.

use crate::config::Color;
use crate::text::{decimal_digits, decimal_string, join_lines, joined, views};
use crate::tui::{ListRow, Piece, Span};
use std::collections::HashMap;
use vstd::prelude::*;

verus! {

broadcast use vstd::std_specs::hash::group_hash_axioms;

/// Number of context lines kept before and after a matched line.
pub const CTX_LINES: u16 = 4;

/// What a match is: where it was found, the line that matched, and that line
/// together with its surrounding lines.
pub struct Match {
    pub filename: Seq<char>,
    pub line_number: u16,
    pub matched_line: Seq<char>,
    pub context: Seq<char>,
}

/// What a match under construction is: the match itself and the context
/// lines gathered so far on either side of it.
pub struct Draft {
    pub filename: Seq<char>,
    pub line_number: u16,
    pub matched_line: Seq<char>,
    pub pre_context: Seq<Seq<char>>,
    pub post_context: Seq<Seq<char>>,
}

/// The lines of a block, by line number.
pub type Block = Map<u16, Seq<char>>;

/// The text of each line in `ctx`.
pub open spec fn block_of(ctx: Map<u16, &str>) -> Block {
    ctx.map_values(|line: &str| line@)
}

/// Whether the block has a line numbered `k`.
pub open spec fn has_line(block: Block, k: int) -> bool {
    0 <= k <= u16::MAX && block.contains_key(k as u16)
}

/// The lines of `block` whose numbers lie in `from..to`, in rising order of
/// line number. A number that the block does not hold leaves no trace.
pub open spec fn window(block: Block, from: int, to: int) -> Seq<Seq<char>>
    decreases to - from,
{
    if from >= to {
        Seq::<Seq<char>>::empty()
    } else if has_line(block, to - 1) {
        window(block, from, to - 1).push(block[(to - 1) as u16])
    } else {
        window(block, from, to - 1)
    }
}

/// The lines of `block` that come right before line `n`:
/// at most `CTX_LINES` of them.
pub open spec fn lines_before(block: Block, n: u16) -> Seq<Seq<char>> {
    window(block, n - CTX_LINES, n as int)
}

/// The lines of `block` that come right after line `n`:
/// at most `CTX_LINES` of them.
pub open spec fn lines_after(block: Block, n: u16) -> Seq<Seq<char>> {
    window(block, n + 1, n + CTX_LINES + 1)
}

impl Match {
    /// The line number as the list shows it: in square brackets, after a
    /// space.
    pub open spec fn label(self) -> Seq<char> {
        seq![' ', '['] + decimal_digits(self.line_number as nat) + seq![']']
    }

    /// The place of the match as an editor takes it: the file name, a colon
    /// and the line number.
    pub open spec fn location(self) -> Seq<char> {
        self.filename + seq![':'] + decimal_digits(self.line_number as nat)
    }

    /// The row that shows the match: the file name and the line number in
    /// `color`, then the matched line in the terminal's own color.
    pub open spec fn row(self, color: Color) -> Seq<Piece> {
        seq![
            Piece { text: self.filename, color: Some(color) },
            Piece { text: self.label(), color: Some(color) },
            Piece { text: self.matched_line, color: None },
        ]
    }
}

impl Draft {
    /// A draft with no context yet.
    pub open spec fn new(filename: Seq<char>, line_number: u16, matched_line: Seq<char>) -> Draft {
        Draft {
            filename,
            line_number,
            matched_line,
            pre_context: Seq::empty(),
            post_context: Seq::empty(),
        }
    }

    /// The draft with the lines before its match taken from `block`.
    pub open spec fn with_lines_before(self, block: Block) -> Draft {
        Draft { pre_context: self.pre_context + lines_before(block, self.line_number), ..self }
    }

    /// The draft with the lines after its match taken from `block`.
    pub open spec fn with_lines_after(self, block: Block) -> Draft {
        Draft { post_context: self.post_context + lines_after(block, self.line_number), ..self }
    }

    /// The lines of the finished context, in file order.
    pub open spec fn context_lines(self) -> Seq<Seq<char>> {
        self.pre_context.push(self.matched_line) + self.post_context
    }

    /// The finished match.
    pub open spec fn finished(self) -> Match {
        Match {
            filename: self.filename,
            line_number: self.line_number,
            matched_line: self.matched_line,
            context: joined(self.context_lines()),
        }
    }
}

/// A window can be cut in two at any number in between.
pub proof fn lemma_window_split(block: Block, from: int, mid: int, to: int)
    requires
        from <= mid <= to,
    ensures
        window(block, from, to) == window(block, from, mid) + window(block, mid, to),
    decreases to - mid,
{
    if mid < to {
        lemma_window_split(block, from, mid, to - 1);
        if has_line(block, to - 1) {
            let line = block[(to - 1) as u16];
            assert((window(block, from, mid) + window(block, mid, to - 1)).push(line) == window(
                block,
                from,
                mid,
            ) + window(block, mid, to - 1).push(line));
        }
    } else {
        assert(window(block, from, mid) + Seq::<Seq<char>>::empty() == window(block, from, mid));
    }
}

/// A window holds at most one line for each number in its range.
pub proof fn lemma_window_len(block: Block, from: int, to: int)
    ensures
        window(block, from, to).len() <= if from <= to {
            to - from
        } else {
            0
        },
    decreases to - from,
{
    if from < to {
        lemma_window_len(block, from, to - 1);
    }
}

/// A window over numbers that the block lacks is empty.
pub proof fn lemma_window_of_missing_lines(block: Block, from: int, to: int)
    requires
        forall|k: int| from <= k < to ==> !has_line(block, k),
    ensures
        window(block, from, to) == Seq::<Seq<char>>::empty(),
    decreases to - from,
{
    if from < to {
        lemma_window_of_missing_lines(block, from, to - 1);
    }
}

/// A window over numbers that the block holds throughout has every one of
/// those lines, in order.
pub proof fn lemma_window_of_present_lines(block: Block, from: int, to: int)
    requires
        from <= to,
        forall|k: int| from <= k < to ==> has_line(block, k),
    ensures
        window(block, from, to) == Seq::new((to - from) as nat, |i: int| block[(from + i) as u16]),
    decreases to - from,
{
    if from < to {
        lemma_window_of_present_lines(block, from, to - 1);
    }
}

/// Every line of a window is a line of the block, with a number in the
/// window's range.
pub proof fn lemma_window_lines_come_from_block(block: Block, from: int, to: int)
    ensures
        forall|i: int|
            0 <= i < window(block, from, to).len() ==> exists|k: int|
                from <= k < to && has_line(block, k) && #[trigger] window(block, from, to)[i]
                    == block[k as u16],
    decreases to - from,
{
    if from < to {
        lemma_window_lines_come_from_block(block, from, to - 1);
        let shorter = window(block, from, to - 1);
        assert forall|i: int| 0 <= i < window(block, from, to).len() implies exists|k: int|
            from <= k < to && has_line(block, k) && #[trigger] window(block, from, to)[i]
                == block[k as u16] by {
            if i < shorter.len() {
                let k = choose|k: int|
                    from <= k < to - 1 && has_line(block, k) && shorter[i] == block[k as u16];
                assert(from <= k < to && has_line(block, k) && window(block, from, to)[i]
                    == block[k as u16]);
            } else {
                let k = to - 1;
                assert(from <= k < to && has_line(block, k) && window(block, from, to)[i]
                    == block[k as u16]);
            }
        }
    }
}

/// A match has at most [CTX_LINES] lines of context on either side.
pub proof fn lemma_context_is_bounded(block: Block, n: u16)
    ensures
        lines_before(block, n).len() <= CTX_LINES,
        lines_after(block, n).len() <= CTX_LINES,
{
    lemma_window_len(block, n - CTX_LINES, n as int);
    lemma_window_len(block, n + 1, n + CTX_LINES + 1);
}

/// A match returned by `ripgrep`.
#[derive(Debug)]
pub struct RgItem {
    filename: String,
    line_number: u16,
    matched_line: String,
    context: String,
}

impl View for RgItem {
    type V = Match;

    closed spec fn view(&self) -> Match {
        Match {
            filename: self.filename@,
            line_number: self.line_number,
            matched_line: self.matched_line@,
            context: self.context@,
        }
    }
}

impl Clone for RgItem {
    fn clone(&self) -> (copy: Self)
        ensures
            copy@ == self@,
    {
        RgItem {
            filename: self.filename.clone(),
            line_number: self.line_number,
            matched_line: self.matched_line.clone(),
            context: self.context.clone(),
        }
    }
}

impl RgItem {
    /// Creates a new `ripgrep` item builder.
    pub fn builder(filename: &str, line_number: u16, matched_line: &str) -> (builder: RgItemBuilder)
        ensures
            builder@ == Draft::new(filename@, line_number, matched_line@),
    {
        let builder = RgItemBuilder {
            filename: filename.to_owned(),
            line_number,
            matched_line: matched_line.to_owned(),
            pre_context: Vec::with_capacity(CTX_LINES as usize),
            post_context: Vec::with_capacity(CTX_LINES as usize),
        };
        assert(builder@.pre_context =~= Seq::<Seq<char>>::empty());
        assert(builder@.post_context =~= Seq::<Seq<char>>::empty());
        builder
    }

    /// Returns the line number of the match.
    pub fn line_number(&self) -> (n: u16)
        ensures
            n == self@.line_number,
    {
        self.line_number
    }

    /// Returns the file name of the match.
    pub fn filename(&self) -> (name: &str)
        ensures
            name@ == self@.filename,
    {
        self.filename.as_str()
    }

    /// Returns the line that matched.
    pub fn matched_line(&self) -> (line: &str)
        ensures
            line@ == self@.matched_line,
    {
        self.matched_line.as_str()
    }

    /// Returns the matched line together with its surrounding context.
    pub fn context(&self) -> (text: &str)
        ensures
            text@ == self@.context,
    {
        self.context.as_str()
    }

    /// Returns the place of the match in the form `file:line`.
    pub fn location(&self) -> (place: String)
        ensures
            place@ == self@.location(),
    {
        let mut place = self.filename.clone();
        place.push(':');
        place.append(decimal_string(self.line_number as u64).as_str());
        assert(self.filename@.push(':') == self.filename@ + seq![':']);
        place
    }

    /// Returns the row that shows the match, with the file name and the line
    /// number in `color`.
    pub fn row(&self, color: Color) -> (row: ListRow)
        ensures
            row@ == self@.row(color),
    {
        let mut label = String::new();
        label.push(' ');
        label.push('[');
        label.append(decimal_string(self.line_number as u64).as_str());
        label.push(']');
        proof {
            let digits = decimal_digits(self.line_number as nat);
            assert(Seq::<char>::empty().push(' ').push('[') == seq![' ', '[']);
            assert((seq![' ', '['] + digits).push(']') == seq![' ', '['] + digits + seq![']']);
        }
        let mut spans: Vec<Span> = Vec::new();
        spans.push(Span { text: self.filename.clone(), color: Some(color) });
        spans.push(Span { text: label, color: Some(color) });
        spans.push(Span { text: self.matched_line.clone(), color: None });
        let row = ListRow { spans };
        assert(row@ == self@.row(color));
        row
    }

    /// Returns a list item representing the match.
    pub fn as_list_item(&self) -> (row: ListRow)
        ensures
            row@ == self@.row(Color::LightMagenta),
    {
        self.row(Color::LightMagenta)
    }
}

/// A builder for [RgItem]s.
#[derive(Debug)]
pub struct RgItemBuilder {
    filename: String,
    line_number: u16,
    matched_line: String,
    pre_context: Vec<String>,
    post_context: Vec<String>,
}

impl View for RgItemBuilder {
    type V = Draft;

    closed spec fn view(&self) -> Draft {
        Draft {
            filename: self.filename@,
            line_number: self.line_number,
            matched_line: self.matched_line@,
            pre_context: views(self.pre_context@),
            post_context: views(self.post_context@),
        }
    }
}

/// Appends to `lines` the lines of `ctx` numbered `from..to`, in rising order.
fn collect_window(lines: &mut Vec<String>, ctx: &HashMap<u16, &str>, from: u32, to: u32)
    ensures
        views(final(lines)@) == views(old(lines)@) + window(block_of(ctx@), from as int, to as int),
{
    let ghost block = block_of(ctx@);
    let ghost before = views(lines@);
    assert(before + window(block, from as int, from as int) == before);
    let mut line: u32 = from;
    while line < to
        invariant
            block == block_of(ctx@),
            from <= line,
            line <= to || line == from,
            views(lines@) == before + window(block, from as int, line as int),
        decreases to - line,
    {
        let ghost found = window(block, from as int, line as int);
        if line <= 0xffff {
            let number: u16 = line as u16;
            match ctx.get(&number) {
                Some(ctx_line) => {
                    let ghost gathered = lines@;
                    lines.push((*ctx_line).to_owned());
                    assert(block[number] == ctx_line@);
                    assert(views(lines@) == views(gathered).push(ctx_line@));
                    assert((before + found).push(ctx_line@) == before + found.push(ctx_line@));
                },
                None => {},
            }
        }
        line += 1;
    }
}

impl RgItemBuilder {
    /// Adds context before the matched line to the [RgItem].
    pub fn add_pre_context(self, ctx: &HashMap<u16, &str>) -> (builder: Self)
        ensures
            builder@ == self@.with_lines_before(block_of(ctx@)),
    {
        let mut builder = self;
        let to: u32 = builder.line_number as u32;
        let from: u32 = if builder.line_number >= CTX_LINES {
            (builder.line_number - CTX_LINES) as u32
        } else {
            0
        };
        proof {
            let block = block_of(ctx@);
            let n = builder.line_number as int;
            if n < CTX_LINES {
                lemma_window_split(block, n - CTX_LINES, 0, n);
                lemma_window_of_missing_lines(block, n - CTX_LINES, 0);
                assert(Seq::<Seq<char>>::empty() + window(block, 0, n) == window(block, 0, n));
            }
        }
        collect_window(&mut builder.pre_context, ctx, from, to);
        builder
    }

    /// Adds context after the matched line to the [RgItem].
    pub fn add_post_context(self, ctx: &HashMap<u16, &str>) -> (builder: Self)
        ensures
            builder@ == self@.with_lines_after(block_of(ctx@)),
    {
        let mut builder = self;
        let from: u32 = builder.line_number as u32 + 1;
        let to: u32 = builder.line_number as u32 + CTX_LINES as u32 + 1;
        collect_window(&mut builder.post_context, ctx, from, to);
        builder
    }

    /// Builds the [RgItem].
    pub fn build(self) -> (item: RgItem)
        ensures
            item@ == self@.finished(),
    {
        let mut lines = self.pre_context;
        let mut post_context = self.post_context;
        let ghost pre = views(lines@);
        let ghost post = views(post_context@);
        lines.push(self.matched_line.clone());
        assert(views(lines@) == pre.push(self.matched_line@));
        lines.append(&mut post_context);
        assert(views(lines@) == pre.push(self.matched_line@) + post);
        let context = join_lines(&lines);
        RgItem {
            filename: self.filename,
            line_number: self.line_number,
            matched_line: self.matched_line,
            context,
        }
    }
}

} // verus!
