//! Character-level building blocks: decimal numbers and lines.

use vstd::prelude::*;

verus! {

/// `String::push` appends one character to the end of the string.
pub assume_specification[ String::push ](s: &mut String, c: char)
    ensures
        final(s)@ == old(s)@.push(c),
;

/// Whether `c` is one of the ASCII digits `0` to `9`.
pub open spec fn is_digit(c: char) -> bool {
    '0' <= c && c <= '9'
}

/// Whether every character of `s` is an ASCII digit.
pub open spec fn all_digits(s: Seq<char>) -> bool {
    forall|i: int| 0 <= i < s.len() ==> is_digit(#[trigger] s[i])
}

/// The number that the digit `c` stands for.
pub open spec fn digit_value(c: char) -> nat {
    (c as int - '0' as int) as nat
}

/// The digit that stands for `d`, for `d` below ten.
pub open spec fn digit_char(d: nat) -> char {
    ('0' as int + d) as char
}

/// The number that the digits of `s` spell in base ten; leading zeros count
/// for nothing and the empty sequence spells zero.
pub open spec fn decimal_value(s: Seq<char>) -> nat
    decreases s.len(),
{
    if s.len() == 0 {
        0
    } else {
        decimal_value(s.drop_last()) * 10 + digit_value(s.last())
    }
}

/// The shortest spelling of `n` in base ten.
pub open spec fn decimal_digits(n: nat) -> Seq<char>
    decreases n,
{
    if n < 10 {
        seq![digit_char(n)]
    } else {
        decimal_digits(n / 10).push(digit_char(n % 10))
    }
}

/// Whether `text` holds no newline.
pub open spec fn is_one_line(text: Seq<char>) -> bool {
    forall|i: int| 0 <= i < text.len() ==> #[trigger] text[i] != '\n'
}

/// The pieces of `text` between its newline characters: a text with `k`
/// newlines has `k + 1` lines, some of which may be empty.
pub open spec fn lines_of(text: Seq<char>) -> Seq<Seq<char>>
    decreases text.len(),
{
    if text.len() == 0 {
        seq![Seq::<char>::empty()]
    } else {
        let before = lines_of(text.drop_last());
        if text.last() == '\n' {
            before.push(Seq::<char>::empty())
        } else {
            before.drop_last().push(before.last().push(text.last()))
        }
    }
}

/// The lines put together again, with one newline between each two.
pub open spec fn joined(lines: Seq<Seq<char>>) -> Seq<char>
    decreases lines.len(),
{
    if lines.len() == 0 {
        Seq::<char>::empty()
    } else if lines.len() == 1 {
        lines[0]
    } else {
        joined(lines.drop_last()) + seq!['\n'] + lines.last()
    }
}

/// The views of a sequence of strings.
pub open spec fn views(strings: Seq<String>) -> Seq<Seq<char>> {
    strings.map_values(|s: String| s@)
}

/// The views of a sequence of character vectors.
pub open spec fn contents(vectors: Seq<Vec<char>>) -> Seq<Seq<char>> {
    vectors.map_values(|v: Vec<char>| v@)
}

/// A text always has at least one line.
pub proof fn lemma_lines_nonempty(text: Seq<char>)
    ensures
        lines_of(text).len() >= 1,
    decreases text.len(),
{
    if text.len() > 0 {
        lemma_lines_nonempty(text.drop_last());
    }
}

/// No line holds a newline.
pub proof fn lemma_lines_hold_no_newline(text: Seq<char>)
    ensures
        forall|i: int| 0 <= i < lines_of(text).len() ==> is_one_line(#[trigger] lines_of(text)[i]),
    decreases text.len(),
{
    if text.len() > 0 {
        lemma_lines_nonempty(text.drop_last());
        lemma_lines_hold_no_newline(text.drop_last());
        let before = lines_of(text.drop_last());
        assert forall|i: int| 0 <= i < lines_of(text).len() implies is_one_line(
            #[trigger] lines_of(text)[i],
        ) by {
            if i < before.len() - 1 {
                assert(lines_of(text)[i] == before[i]);
            } else if i == before.len() - 1 && text.last() != '\n' {
                assert(is_one_line(before[i]));
            }
        }
    }
}

/// Joining the lines of a text with newlines gives the text back.
pub proof fn lemma_joined_lines(text: Seq<char>)
    ensures
        joined(lines_of(text)) == text,
    decreases text.len(),
{
    if text.len() > 0 {
        let shorter = text.drop_last();
        let before = lines_of(shorter);
        lemma_lines_nonempty(shorter);
        lemma_joined_lines(shorter);
        if text.last() == '\n' {
            let after = before.push(Seq::<char>::empty());
            assert(after.drop_last() == before);
            assert(joined(after) == joined(before) + seq!['\n'] + Seq::<char>::empty());
            assert(joined(after) == text);
        } else {
            let grown = before.last().push(text.last());
            let after = before.drop_last().push(grown);
            assert(after.drop_last() == before.drop_last());
            if before.len() == 1 {
                assert(joined(after) == grown);
                assert(joined(before) == before[0]);
            } else {
                assert(joined(after) == joined(before.drop_last()) + seq!['\n'] + grown);
                assert(joined(before) == joined(before.drop_last()) + seq!['\n'] + before.last());
            }
            assert(joined(after) == shorter.push(text.last()));
            assert(shorter.push(text.last()) == text);
        }
    }
}

/// Text without a newline, written after a text, goes to its last line.
pub proof fn lemma_lines_of_longer_last_line(text: Seq<char>, tail: Seq<char>)
    requires
        is_one_line(tail),
    ensures
        lines_of(text + tail) == lines_of(text).drop_last().push(lines_of(text).last() + tail),
    decreases tail.len(),
{
    lemma_lines_nonempty(text);
    let lines = lines_of(text);
    if tail.len() == 0 {
        assert(text + tail == text);
        assert(lines.last() + tail == lines.last());
        assert(lines.drop_last().push(lines.last()) == lines);
    } else {
        let shorter = tail.drop_last();
        assert(is_one_line(shorter)) by {
            assert forall|i: int| 0 <= i < shorter.len() implies #[trigger] shorter[i] != '\n' by {
                assert(shorter[i] == tail[i]);
            }
        }
        lemma_lines_of_longer_last_line(text, shorter);
        assert((text + tail).drop_last() == text + shorter);
        assert((text + tail).last() == tail.last());
        assert(tail[tail.len() - 1] != '\n');
        let before = lines.drop_last().push(lines.last() + shorter);
        assert(before.drop_last() == lines.drop_last());
        assert(before.last().push(tail.last()) == lines.last() + tail) by {
            assert(shorter.push(tail.last()) == tail);
        }
    }
}

/// Lines that are joined with newlines come apart again as they were: a
/// text has one way only of being lines without newlines.
pub proof fn lemma_lines_of_joined(lines: Seq<Seq<char>>)
    requires
        lines.len() >= 1,
        forall|i: int| 0 <= i < lines.len() ==> is_one_line(#[trigger] lines[i]),
    ensures
        lines_of(joined(lines)) == lines,
    decreases lines.len(),
{
    let empty = Seq::<char>::empty();
    if lines.len() == 1 {
        assert(lines_of(empty) == seq![empty]);
        lemma_lines_of_longer_last_line(empty, lines[0]);
        assert(empty + lines[0] == lines[0]);
        assert(seq![empty].drop_last().push(empty + lines[0]) == lines);
    } else {
        let init = lines.drop_last();
        assert forall|i: int| 0 <= i < init.len() implies is_one_line(#[trigger] init[i]) by {
            assert(init[i] == lines[i]);
        }
        lemma_lines_of_joined(init);
        let cut = joined(init) + seq!['\n'];
        assert(cut.drop_last() == joined(init));
        assert(cut.last() == '\n');
        assert(lines_of(cut) == init.push(empty));
        lemma_lines_of_longer_last_line(cut, lines.last());
        assert(init.push(empty).drop_last() == init);
        assert(empty + lines.last() == lines.last());
        assert(init.push(lines.last()) == lines);
    }
}

/// The spelling of a number is made of digits, and spells that number.
pub proof fn lemma_decimal_round_trip(n: nat)
    ensures
        decimal_digits(n).len() >= 1,
        all_digits(decimal_digits(n)),
        decimal_value(decimal_digits(n)) == n,
    decreases n,
{
    if n < 10 {
        let s = seq![digit_char(n)];
        assert(s.drop_last() == Seq::<char>::empty());
        assert(decimal_value(s.drop_last()) == 0);
        assert(s.last() == digit_char(n));
    } else {
        lemma_decimal_round_trip(n / 10);
        let s = decimal_digits(n / 10).push(digit_char(n % 10));
        assert(s.drop_last() == decimal_digits(n / 10));
        assert(s.last() == digit_char(n % 10));
    }
}

/// The string made of the characters `chars[from..to]`.
pub(crate) fn string_of(chars: &Vec<char>, from: usize, to: usize) -> (s: String)
    requires
        from <= to <= chars.len(),
    ensures
        s@ == chars@.subrange(from as int, to as int),
{
    let mut s = String::new();
    let mut i: usize = from;
    while i < to
        invariant
            from <= i <= to <= chars.len(),
            s@ == chars@.subrange(from as int, i as int),
        decreases to - i,
    {
        s.push(chars[i]);
        i += 1;
    }
    s
}

/// The shortest spelling of `n` in base ten.
pub fn decimal_string(n: u64) -> (s: String)
    ensures
        s@ == decimal_digits(n as nat),
    decreases n,
{
    if n < 10 {
        let mut s = String::new();
        s.push(digit_of(n as u8));
        s
    } else {
        let mut s = decimal_string(n / 10);
        s.push(digit_of((n % 10) as u8));
        s
    }
}

/// The digit that stands for `d`.
fn digit_of(d: u8) -> (c: char)
    requires
        d < 10,
    ensures
        c == digit_char(d as nat),
{
    (48u8 + d) as char
}

/// Splits `text` at its newline characters.
pub fn split_lines(text: &str) -> (lines: Vec<Vec<char>>)
    ensures
        contents(lines@) == lines_of(text@),
{
    let mut lines: Vec<Vec<char>> = Vec::new();
    let mut current: Vec<char> = Vec::new();
    let ghost mut seen: Seq<char> = Seq::empty();
    for c in it: text.chars()
        invariant
            it.seq() == text@,
            seen == text@.take(it.index()),
            contents(lines@).push(current@) == lines_of(seen),
    {
        let ghost next = text@.take(it.index() + 1);
        assert(next.drop_last() == seen);
        assert(next.last() == c);
        if c == '\n' {
            let ghost done = contents(lines@);
            lines.push(current);
            assert(contents(lines@) == done.push(current@));
            current = Vec::new();
        } else {
            let ghost before = contents(lines@).push(current@);
            assert(before.drop_last() == contents(lines@));
            current.push(c);
        }
        proof {
            seen = next;
        }
    }
    assert(seen == text@);
    let ghost done = contents(lines@);
    lines.push(current);
    assert(contents(lines@) == done.push(current@));
    lines
}

/// Puts `lines` together with one newline between each two.
pub fn join_lines(lines: &Vec<String>) -> (text: String)
    ensures
        text@ == joined(views(lines@)),
{
    let mut text = String::new();
    let mut i: usize = 0;
    while i < lines.len()
        invariant
            i <= lines.len(),
            text@ == joined(views(lines@.take(i as int))),
        decreases lines.len() - i,
    {
        let ghost before = views(lines@.take(i as int));
        let ghost after = views(lines@.take(i + 1));
        assert(after.drop_last() == before);
        assert(after.last() == lines[i as int]@);
        if i > 0 {
            text.push('\n');
        }
        text.append(lines[i].as_str());
        assert(text@ == joined(after)) by {
            if i > 0 {
                assert(seq!['\n'] == Seq::<char>::empty().push('\n'));
                assert(joined(before).push('\n') == joined(before) + seq!['\n']);
            } else {
                assert(Seq::<char>::empty() + lines[i as int]@ == lines[i as int]@);
            }
        }
        i += 1;
    }
    assert(lines@.take(i as int) == lines@);
    text
}

} // verus!
