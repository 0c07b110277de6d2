//! The parser for the search tool's output: file names as headings, numbered
//! lines below them, and blank lines between unrelated blocks.
//!
//! A numbered line is `digits`, then `-` for a line of context or `:` for a
//! line that matched, then the text of the line.

use crate::pickers::grep::{GrepItem, GrepItemBuilder};
use crate::rg_item::{block_of, Block, Draft, Match};
use crate::text::{
    contents, decimal_value, is_digit, lemma_lines_nonempty, lines_of, split_lines, string_of,
};
use std::collections::HashMap;
use vstd::prelude::*;

pub mod laws;

verus! {

broadcast use vstd::std_specs::hash::group_hash_axioms;

/// Room for the lines on both sides of a match.
const CTX_CAPACITY: usize = 8;

/// What one line of output says.
pub enum Line {
    /// An empty line: the block ends here.
    Blank,
    /// A file name: the lines that follow belong to this file.
    Header(Seq<char>),
    /// A line next to a match.
    Context { number: u16, text: Seq<char> },
    /// A line that matched.
    Matched { number: u16, text: Seq<char> },
    /// A line that starts with a digit and goes on in no accepted way.
    Malformed,
}

/// How many digits `line` starts with.
pub open spec fn digit_run(line: Seq<char>) -> nat
    decreases line.len(),
{
    if line.len() > 0 && is_digit(line[0]) {
        1 + digit_run(line.drop_first())
    } else {
        0
    }
}

/// What `line` says.
///
/// A line that starts with a digit must go on with more digits, which
/// together spell a number that fits sixteen bits, and then `-` or `:`.
pub open spec fn classify(line: Seq<char>) -> Line {
    if line.len() == 0 {
        Line::Blank
    } else if !is_digit(line[0]) {
        Line::Header(line)
    } else {
        let digits = digit_run(line) as int;
        let number = decimal_value(line.take(digits));
        if digits >= line.len() || number > u16::MAX {
            Line::Malformed
        } else if line[digits] == '-' {
            Line::Context { number: number as u16, text: line.skip(digits + 1) }
        } else if line[digits] == ':' {
            Line::Matched { number: number as u16, text: line.skip(digits + 1) }
        } else {
            Line::Malformed
        }
    }
}

/// Where the parser stands after some lines of output.
pub struct Scan {
    /// The file that numbered lines belong to.
    pub file: Seq<char>,
    /// The numbered lines seen since the last blank line.
    pub block: Block,
    /// The latest match, which still waits for the lines after it.
    pub open: Option<Draft>,
    /// The matches before it, finished.
    pub found: Seq<Match>,
}

impl Scan {
    /// Where the parser stands after the first line, which names a file
    /// whatever it looks like.
    pub open spec fn start(first: Seq<char>) -> Scan {
        Scan { file: first, block: Map::empty(), open: None, found: Seq::empty() }
    }

    /// Where the parser stands after one more line, or `None` if that line is
    /// malformed.
    pub open spec fn step(self, line: Seq<char>) -> Option<Scan> {
        match classify(line) {
            Line::Blank => Some(Scan { block: Map::empty(), ..self }),
            Line::Header(name) => Some(Scan { file: name, ..self }),
            Line::Context { number, text } => Some(
                Scan { block: self.block.insert(number, text), ..self },
            ),
            Line::Matched { number, text } => {
                let block = self.block.insert(number, text);
                Some(
                    Scan {
                        file: self.file,
                        block,
                        open: Some(Draft::new(self.file, number, text).with_lines_before(block)),
                        found: match self.open {
                            Some(draft) => self.found.push(
                                draft.with_lines_after(block).finished(),
                            ),
                            None => self.found,
                        },
                    },
                )
            },
            Line::Malformed => None,
        }
    }

    /// The matches once the output has ended: the open one takes what the
    /// current block has to offer as the lines after it.
    pub open spec fn finish(self) -> Seq<Match> {
        match self.open {
            Some(draft) => self.found.push(draft.with_lines_after(self.block).finished()),
            None => self.found,
        }
    }
}

/// Where the parser stands after `lines`, of which there is at least one,
/// or the index of the first malformed line among them.
pub open spec fn scan(lines: Seq<Seq<char>>) -> Result<Scan, nat>
    recommends
        lines.len() >= 1,
    decreases lines.len(),
{
    if lines.len() <= 1 {
        Ok(Scan::start(lines[0]))
    } else {
        match scan(lines.drop_last()) {
            Ok(state) => match state.step(lines.last()) {
                Some(next) => Ok(next),
                None => Err((lines.len() - 1) as nat),
            },
            Err(index) => Err(index),
        }
    }
}

/// The matches that `output` reports, or the index of its first malformed
/// line.
pub open spec fn parsed(output: Seq<char>) -> Result<Seq<Match>, nat> {
    match scan(lines_of(output)) {
        Ok(state) => Ok(state.finish()),
        Err(index) => Err(index),
    }
}

/// Where the parser stands after `lines` more, starting from `state`, or
/// `None` if one of them is malformed.
pub open spec fn run(state: Scan, lines: Seq<Seq<char>>) -> Option<Scan>
    decreases lines.len(),
{
    if lines.len() == 0 {
        Some(state)
    } else {
        match run(state, lines.drop_last()) {
            Some(before) => before.step(lines.last()),
            None => None,
        }
    }
}

/// Whether `lines[index]` is the first malformed line after the first line.
pub open spec fn first_malformed(lines: Seq<Seq<char>>, index: nat) -> bool {
    &&& 1 <= index < lines.len()
    &&& classify(lines[index as int]) is Malformed
    &&& forall|i: int| 1 <= i < index ==> !(#[trigger] classify(lines[i]) is Malformed)
}

/// The parse fails exactly where a line after the first is malformed, and
/// then at the first such line.
pub proof fn lemma_scan_fails_at_first_malformed_line(lines: Seq<Seq<char>>)
    ensures
        match scan(lines) {
            Ok(_) => forall|i: int|
                1 <= i < lines.len() ==> !(#[trigger] classify(lines[i]) is Malformed),
            Err(index) => first_malformed(lines, index),
        },
    decreases lines.len(),
{
    if lines.len() > 1 {
        let shorter = lines.drop_last();
        lemma_scan_fails_at_first_malformed_line(shorter);
        assert forall|i: int| 0 <= i < shorter.len() implies shorter[i] == lines[i] by {}
        match scan(shorter) {
            Ok(state) => {
                assert forall|i: int| 1 <= i < lines.len() - 1 implies !(#[trigger] classify(
                    lines[i],
                ) is Malformed) by {
                    assert(shorter[i] == lines[i]);
                }
            },
            Err(index) => {
                assert(first_malformed(shorter, index));
                assert(shorter[index as int] == lines[index as int]);
                assert forall|i: int| 1 <= i < index implies !(#[trigger] classify(
                    lines[i],
                ) is Malformed) by {
                    assert(shorter[i] == lines[i]);
                }
            },
        }
    }
}

/// What each item is.
pub open spec fn matches_of(items: Seq<GrepItem>) -> Seq<Match> {
    items.map_values(|item: GrepItem| item@)
}

/// One line of output, read.
#[derive(Debug)]
pub enum OutputLine {
    /// An empty line.
    Blank,
    /// A file name.
    Header(String),
    /// A line next to a match: its number and its text.
    Context(u16, String),
    /// A line that matched: its number and its text.
    Matched(u16, String),
    /// A line that starts with a digit and goes on in no accepted way.
    Malformed,
}

impl View for OutputLine {
    type V = Line;

    open spec fn view(&self) -> Line {
        match self {
            OutputLine::Blank => Line::Blank,
            OutputLine::Header(name) => Line::Header(name@),
            OutputLine::Context(number, text) => Line::Context { number: *number, text: text@ },
            OutputLine::Matched(number, text) => Line::Matched { number: *number, text: text@ },
            OutputLine::Malformed => Line::Malformed,
        }
    }
}

/// The output of the search tool does not have the expected shape.
#[derive(Debug)]
pub struct MalformedOutput {
    /// The index of the first line that is malformed; the first line of the
    /// output has index zero.
    pub line: usize,
    /// The text of that line.
    pub found: String,
}

/// Whether `c` is an ASCII digit.
fn is_ascii_digit(c: char) -> (digit: bool)
    ensures
        digit == is_digit(c),
{
    '0' <= c && c <= '9'
}

/// A number grows, or stays, when a digit is written after it.
proof fn lemma_decimal_value_grows(s: Seq<char>, c: char)
    requires
        is_digit(c),
    ensures
        decimal_value(s.push(c)) == decimal_value(s) * 10 + (c as int - '0' as int),
        decimal_value(s.push(c)) >= decimal_value(s),
{
    assert(s.push(c).drop_last() == s);
    assert(s.push(c).last() == c);
}

/// The digits at the start of a line end at the first character that is no
/// digit.
pub proof fn lemma_digit_run_ends(line: Seq<char>, end: int)
    requires
        0 <= end <= line.len(),
        forall|i: int| 0 <= i < end ==> is_digit(#[trigger] line[i]),
        end == line.len() || !is_digit(line[end]),
    ensures
        digit_run(line) == end,
    decreases line.len(),
{
    if end > 0 {
        let rest = line.drop_first();
        assert forall|i: int| 0 <= i < end - 1 implies is_digit(#[trigger] rest[i]) by {
            assert(rest[i] == line[i + 1]);
        }
        lemma_digit_run_ends(rest, end - 1);
    }
}

/// Reads one line of output.
pub fn read_line(line: &Vec<char>) -> (read: OutputLine)
    ensures
        read@ == classify(line@),
{
    let len = line.len();
    if len == 0 {
        return OutputLine::Blank;
    }
    if !is_ascii_digit(line[0]) {
        let name = string_of(line, 0, len);
        assert(line@.subrange(0, len as int) == line@);
        return OutputLine::Header(name);
    }
    let mut end: usize = 0;
    let mut number: u32 = 0;
    let mut fits = true;
    while end < len && is_ascii_digit(line[end])
        invariant
            len == line.len(),
            0 <= end <= len,
            forall|i: int| 0 <= i < end ==> is_digit(#[trigger] line@[i]),
            fits ==> number == decimal_value(line@.take(end as int)),
            fits ==> number <= u16::MAX,
            !fits ==> decimal_value(line@.take(end as int)) > u16::MAX,
        decreases len - end,
    {
        proof {
            assert(line@.take(end + 1) == line@.take(end as int).push(line@[end as int]));
            lemma_decimal_value_grows(line@.take(end as int), line@[end as int]);
        }
        if fits {
            number = number * 10 + (line[end] as u32 - '0' as u32);
            if number > 0xffff {
                fits = false;
            }
        }
        end += 1;
    }
    proof {
        lemma_digit_run_ends(line@, end as int);
    }
    if end >= len || !fits {
        return OutputLine::Malformed;
    }
    let mark = line[end];
    if mark == '-' {
        let text = string_of(line, end + 1, len);
        assert(line@.subrange(end + 1, len as int) == line@.skip(end + 1));
        OutputLine::Context(number as u16, text)
    } else if mark == ':' {
        let text = string_of(line, end + 1, len);
        assert(line@.subrange(end + 1, len as int) == line@.skip(end + 1));
        OutputLine::Matched(number as u16, text)
    } else {
        OutputLine::Malformed
    }
}

/// What the open builder, if any, stands for.
pub open spec fn draft_of(builder: Option<GrepItemBuilder>) -> Option<Draft> {
    match builder {
        Some(builder) => Some(builder@),
        None => None,
    }
}

/// Reads the lines after the first, up to the first malformed one.
fn read_lines(lines: &Vec<Vec<char>>) -> (result: Result<Vec<OutputLine>, MalformedOutput>)
    requires
        lines.len() >= 1,
    ensures
        match result {
            Ok(read) => read.len() == lines.len() - 1 && forall|i: int|
                0 <= i < read.len() ==> (#[trigger] read[i])@ == classify(lines[i + 1]@) && !(
                read[i]@ is Malformed),
            Err(error) => first_malformed(contents(lines@), error.line as nat) && error.found@
                == lines[error.line as int]@,
        },
{
    let ghost all = contents(lines@);
    let mut read: Vec<OutputLine> = Vec::new();
    let mut index: usize = 1;
    while index < lines.len()
        invariant
            all == contents(lines@),
            1 <= index <= lines.len(),
            read.len() == index - 1,
            forall|i: int|
                0 <= i < read.len() ==> (#[trigger] read[i])@ == classify(lines[i + 1]@) && !(
                read[i]@ is Malformed),
        decreases lines.len() - index,
    {
        let line = read_line(&lines[index]);
        if let OutputLine::Malformed = line {
            let found = string_of(&lines[index], 0, lines[index].len());
            proof {
                assert(lines[index as int]@.subrange(0, lines[index as int]@.len() as int)
                    == lines[index as int]@);
                assert forall|i: int| 1 <= i < index implies !(#[trigger] classify(all[i])
                    is Malformed) by {
                    assert(read[i - 1]@ == classify(lines[i]@));
                }
            }
            return Err(MalformedOutput { line: index, found });
        }
        read.push(line);
        index += 1;
    }
    Ok(read)
}

/// Parses the whole output of one search.
///
/// The first line names a file. Each matched line gives one item, in the
/// order of the output. An item takes the lines before its match from the
/// block as it stands at the match, and the lines after it from the block as
/// it stands at the next match or, for the last item, at the end of the
/// output. A malformed line fails the whole parse.
pub fn parse_output(output: &str) -> (result: Result<Vec<GrepItem>, MalformedOutput>)
    ensures
        match parsed(output@) {
            Ok(matches) => result matches Ok(items) && matches_of(items@) == matches,
            Err(index) => result matches Err(error) && error.line == index && error.found@
                == lines_of(output@)[index as int],
        },
{
    let lines = split_lines(output);
    let ghost all = contents(lines@);
    proof {
        lemma_lines_nonempty(output@);
        lemma_scan_fails_at_first_malformed_line(all);
    }
    let read = match read_lines(&lines) {
        Ok(read) => read,
        Err(error) => {
            return Err(error);
        },
    };
    let first = string_of(&lines[0], 0, lines[0].len());
    let mut file: &str = first.as_str();
    let mut ctx: HashMap<u16, &str> = HashMap::with_capacity(CTX_CAPACITY);
    let mut builder: Option<GrepItemBuilder> = None;
    let mut results: Vec<GrepItem> = Vec::new();
    proof {
        assert(lines@[0]@.subrange(0, lines@[0]@.len() as int) == all[0]);
        assert(all.take(1).len() == 1);
        assert(all.take(1)[0] == all[0]);
        assert(block_of(ctx@) == Map::<u16, Seq<char>>::empty());
        assert(matches_of(results@) == Seq::<Match>::empty());
    }
    let mut index: usize = 0;
    while index < read.len()
        invariant
            all == contents(lines@),
            read.len() == lines.len() - 1,
            forall|i: int|
                0 <= i < read.len() ==> (#[trigger] read[i])@ == classify(lines[i + 1]@) && !(
                read[i]@ is Malformed),
            index <= read.len(),
            scan(all.take(index + 1)) == Ok::<Scan, nat>(
                Scan {
                    file: file@,
                    block: block_of(ctx@),
                    open: draft_of(builder),
                    found: matches_of(results@),
                },
            ),
        decreases read.len() - index,
    {
        proof {
            assert(all.take(index + 2).drop_last() == all.take(index + 1));
            assert(all.take(index + 2).last() == lines@[index + 1]@);
        }
        let ghost block = block_of(ctx@);
        match &read[index] {
            OutputLine::Blank => {
                ctx.clear();
                assert(block_of(ctx@) == Map::<u16, Seq<char>>::empty());
            },
            OutputLine::Header(name) => {
                file = name.as_str();
            },
            OutputLine::Context(number, text) => {
                ctx.insert(*number, text.as_str());
                assert(block_of(ctx@) == block.insert(*number, text@));
            },
            OutputLine::Matched(number, text) => {
                ctx.insert(*number, text.as_str());
                assert(block_of(ctx@) == block.insert(*number, text@));
                match builder {
                    Some(open) => {
                        let ghost found = matches_of(results@);
                        let item = open.add_post_context(&ctx).build();
                        results.push(item);
                        assert(matches_of(results@) == found.push(item@));
                    },
                    None => {},
                }
                builder = Some(GrepItem::builder(file, *number, text.as_str()).add_pre_context(&ctx));
            },
            OutputLine::Malformed => {},
        }
        index += 1;
    }
    assert(all.take(index + 1) == all);
    match builder {
        Some(open) => {
            let ghost found = matches_of(results@);
            let item = open.add_post_context(&ctx).build();
            results.push(item);
            assert(matches_of(results@) == found.push(item@));
        },
        None => {},
    }
    Ok(results)
}

} // verus!
