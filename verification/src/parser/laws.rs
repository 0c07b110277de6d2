//! What holds of every parse: where it fails, what each matched line gives,
//! what a blank line cuts off, what neighbouring matches share, and that
//! what the search tool writes is read back.

use crate::parser::{
    classify, digit_run, first_malformed, lemma_digit_run_ends,
    lemma_scan_fails_at_first_malformed_line, parsed, run, scan, Line, Scan,
};
use crate::rg_item::{
    has_line, lemma_window_of_missing_lines, lemma_window_of_present_lines, lemma_window_split,
    lines_after, lines_before, window, Block, Draft, Match, CTX_LINES,
};
use crate::text::{
    decimal_digits, is_digit, is_one_line, joined, lemma_decimal_round_trip,
    lemma_lines_of_joined, lines_of,
};
use vstd::prelude::*;

verus! {

/// Whether `line` starts with digits and goes on with something other than
/// `-` or `:`, or with nothing at all.
pub open spec fn has_stray_character(line: Seq<char>) -> bool {
    &&& line.len() > 0
    &&& is_digit(line[0])
    &&& (digit_run(line) >= line.len() || (line[digit_run(line) as int] != '-'
        && line[digit_run(line) as int] != ':'))
}

/// A line after the first that starts with digits and goes on with anything
/// but `-` or `:` makes the parse fail, at that line or before it.
pub proof fn lemma_stray_character_is_reported(output: Seq<char>, index: int)
    requires
        1 <= index < lines_of(output).len(),
        has_stray_character(lines_of(output)[index]),
    ensures
        parsed(output) matches Err(first) && first <= index,
{
    lemma_scan_fails_at_first_malformed_line(lines_of(output));
    assert(classify(lines_of(output)[index]) is Malformed);
}

/// The parse succeeds exactly where no line after the first is malformed.
pub proof fn lemma_parse_succeeds_on_well_formed_lines(output: Seq<char>)
    ensures
        parsed(output) is Ok <==> forall|i: int|
            1 <= i < lines_of(output).len() ==> !(#[trigger] classify(lines_of(output)[i])
                is Malformed),
{
    lemma_scan_fails_at_first_malformed_line(lines_of(output));
    if let Err(index) = scan(lines_of(output)) {
        assert(first_malformed(lines_of(output), index));
        assert(classify(lines_of(output)[index as int]) is Malformed);
    }
}

/// Scanning lines in two parts comes to the same as scanning them at once.
pub proof fn lemma_scan_in_parts(head: Seq<Seq<char>>, tail: Seq<Seq<char>>)
    requires
        head.len() >= 1,
    ensures
        match scan(head) {
            Ok(state) => match run(state, tail) {
                Some(after) => scan(head + tail) == Ok::<Scan, nat>(after),
                None => scan(head + tail) is Err,
            },
            Err(index) => scan(head + tail) == Err::<Scan, nat>(index),
        },
    decreases tail.len(),
{
    if tail.len() == 0 {
        assert(head + tail == head);
    } else {
        let all = head + tail;
        assert(all.drop_last() == head + tail.drop_last());
        assert(all.last() == tail.last());
        lemma_scan_in_parts(head, tail.drop_last());
    }
}

/// Running over lines in two parts comes to the same as running over them
/// at once.
pub proof fn lemma_run_in_parts(state: Scan, head: Seq<Seq<char>>, tail: Seq<Seq<char>>)
    ensures
        run(state, head + tail) == match run(state, head) {
            Some(middle) => run(middle, tail),
            None => None,
        },
    decreases tail.len(),
{
    if tail.len() == 0 {
        assert(head + tail == head);
    } else {
        let all = head + tail;
        assert(all.drop_last() == head + tail.drop_last());
        assert(all.last() == tail.last());
        lemma_run_in_parts(state, head, tail.drop_last());
    }
}

/// Whether `line` is a line that matched.
pub open spec fn is_matched(line: Seq<char>) -> bool {
    classify(line) is Matched
}

/// How many matches a state holds, the open one counted.
pub open spec fn matches_held(state: Scan) -> nat {
    state.found.len() + if state.open is Some {
        1nat
    } else {
        0nat
    }
}

/// Each matched line gives one item: running over lines adds as many matches
/// as there are matched lines among them, and takes none away.
pub proof fn lemma_one_match_per_matched_line(state: Scan, lines: Seq<Seq<char>>)
    requires
        run(state, lines) is Some,
    ensures
        matches_held(run(state, lines)->0) == matches_held(state) + lines.filter(
            |line: Seq<char>| is_matched(line),
        ).len(),
        state.found.len() <= run(state, lines)->0.found.len(),
        state.found == run(state, lines)->0.found.take(state.found.len() as int),
        run(state, lines)->0.finish().len() == matches_held(run(state, lines)->0),
    decreases lines.len(),
{
    reveal(Seq::filter);
    if lines.len() > 0 {
        lemma_one_match_per_matched_line(state, lines.drop_last());
        let before = run(state, lines.drop_last())->0;
        let after = run(state, lines)->0;
        assert(before.found == after.found.take(before.found.len() as int));
        assert(state.found == after.found.take(state.found.len() as int));
    } else {
        assert(state.found == state.found.take(state.found.len() as int));
    }
}

/// Whether `line` is a numbered line with a number in `from..to`.
pub open spec fn numbered_within(line: Seq<char>, from: int, to: int) -> bool {
    match classify(line) {
        Line::Context { number, .. } => from <= number < to,
        Line::Matched { number, .. } => from <= number < to,
        _ => false,
    }
}

/// Whether one of `lines` is a numbered line with the number `number`.
pub open spec fn holds_number(lines: Seq<Seq<char>>, number: u16) -> bool {
    exists|i: int|
        0 <= i < lines.len() && #[trigger] numbered_within(lines[i], number as int, number + 1)
}

/// A block gains no numbers but those of the lines that are read into it.
pub proof fn lemma_block_holds_lines_read(state: Scan, lines: Seq<Seq<char>>)
    requires
        run(state, lines) is Some,
    ensures
        forall|k: u16| #[trigger]
            run(state, lines)->0.block.contains_key(k) ==> state.block.contains_key(k)
                || holds_number(lines, k),
    decreases lines.len(),
{
    if lines.len() > 0 {
        let shorter = lines.drop_last();
        lemma_block_holds_lines_read(state, shorter);
        let before = run(state, shorter)->0;
        let after = before.step(lines.last())->0;
        assert forall|k: u16| #[trigger] after.block.contains_key(k) implies state.block.contains_key(
            k,
        ) || holds_number(lines, k) by {
            if before.block.contains_key(k) {
                if !state.block.contains_key(k) {
                    let i = choose|i: int|
                        0 <= i < shorter.len() && #[trigger] numbered_within(
                            shorter[i],
                            k as int,
                            k + 1,
                        );
                    assert(shorter[i] == lines[i]);
                    assert(numbered_within(lines[i], k as int, k + 1));
                }
            } else {
                assert(numbered_within(lines[lines.len() - 1], k as int, k + 1));
            }
        }
    }
}

/// Whether `line` is well formed and is no line that matched.
pub open spec fn is_quiet(line: Seq<char>) -> bool {
    !(classify(line) is Matched) && !(classify(line) is Malformed)
}

/// Lines that neither match nor are malformed leave the matches alone, the
/// open one and the finished ones.
pub proof fn lemma_quiet_lines_keep_matches(state: Scan, lines: Seq<Seq<char>>)
    requires
        forall|i: int| 0 <= i < lines.len() ==> is_quiet(#[trigger] lines[i]),
    ensures
        run(state, lines) matches Some(after) && after.open == state.open && after.found
            == state.found,
    decreases lines.len(),
{
    if lines.len() > 0 {
        let shorter = lines.drop_last();
        assert forall|i: int| 0 <= i < shorter.len() implies is_quiet(#[trigger] shorter[i]) by {
            assert(shorter[i] == lines[i]);
        }
        lemma_quiet_lines_keep_matches(state, shorter);
        assert(is_quiet(lines[lines.len() - 1]));
    }
}

/// Across a blank line two matches share no context, as long as no line
/// behind the blank one has a number within reach of the match before it.
///
/// With a match open, a blank line, any lines that neither match nor are
/// malformed, and then a second match: the first match is finished with no
/// line from behind the blank line, and the second takes the lines before it
/// from a block that holds only lines from behind the blank line.
pub proof fn lemma_block_boundary(state: Scan, between: Seq<Seq<char>>, matched: Seq<char>)
    requires
        state.open is Some,
        forall|i: int| 0 <= i < between.len() ==> is_quiet(#[trigger] between[i]),
        classify(matched) is Matched,
        forall|i: int|
            0 <= i < between.len() ==> !(#[trigger] numbered_within(
                between[i],
                state.open->0.line_number + 1,
                state.open->0.line_number + CTX_LINES + 1,
            )),
        !numbered_within(
            matched,
            state.open->0.line_number + 1,
            state.open->0.line_number + CTX_LINES + 1,
        ),
    ensures
        ({
            let behind = between.push(matched);
            let end = run(state, seq![Seq::<char>::empty()] + behind);
            &&& end matches Some(after) && after.found == state.found.push(
                state.open->0.finished(),
            ) && after.open == Some(
                Draft::new(
                    after.file,
                    classify(matched)->Matched_number,
                    classify(matched)->Matched_text,
                ).with_lines_before(after.block),
            ) && forall|k: u16| #[trigger] after.block.contains_key(k) ==> holds_number(behind, k)
        }),
{
    let blank = Seq::<char>::empty();
    let behind = between.push(matched);
    let draft = state.open->0;
    let from = draft.line_number + 1;
    let to = draft.line_number + CTX_LINES + 1;
    let cleared = Scan { block: Map::empty(), ..state };
    assert(run(state, seq![blank]) == Some(cleared)) by {
        assert(seq![blank].drop_last() == Seq::<Seq<char>>::empty());
        assert(run(state, seq![blank].drop_last()) == Some(state));
        assert(seq![blank].last() == blank);
    }
    lemma_run_in_parts(state, seq![blank], behind);
    assert(behind.drop_last() == between);
    assert(behind.last() == matched);
    lemma_quiet_lines_keep_matches(cleared, between);
    let before = run(cleared, between)->0;
    let after = before.step(matched)->0;
    assert(run(cleared, behind) == Some(after));
    lemma_block_holds_lines_read(cleared, behind);
    assert forall|k: int| from <= k < to implies !has_line(after.block, k) by {
        if has_line(after.block, k) {
            let i = choose|i: int|
                0 <= i < behind.len() && #[trigger] numbered_within(behind[i], k, k + 1);
            if i < between.len() {
                assert(behind[i] == between[i]);
                assert(numbered_within(between[i], from, to));
            } else {
                assert(behind[i] == matched);
            }
        }
    }
    lemma_window_of_missing_lines(after.block, from, to);
    assert(draft.post_context + lines_after(after.block, draft.line_number) == draft.post_context);
}

/// Two matched lines with neighbouring numbers, one right after the other,
/// each have the other as context: the lower line is the first of the lines
/// after the upper match, and the upper line is the last of the lines before
/// the lower match.
pub proof fn lemma_neighbouring_matches_share_lines(
    state: Scan,
    upper: Seq<char>,
    lower: Seq<char>,
)
    requires
        classify(upper) is Matched,
        classify(lower) is Matched,
        classify(lower)->Matched_number == classify(upper)->Matched_number + 1,
    ensures
        ({
            let number = classify(upper)->Matched_number;
            let first = state.step(upper)->0;
            let second = first.step(lower)->0;
            let draft = first.open->0.with_lines_after(second.block);
            &&& state.step(upper) is Some
            &&& first.step(lower) is Some
            &&& first.open is Some
            &&& second.open is Some
            &&& second.found == first.found.push(draft.finished())
            &&& draft.post_context == lines_after(second.block, number)
            &&& draft.post_context.len() >= 1
            &&& draft.post_context[0] == classify(lower)->Matched_text
            &&& second.open->0.pre_context.len() >= 1
            &&& second.open->0.pre_context.last() == classify(upper)->Matched_text
        }),
{
    let number = classify(upper)->Matched_number;
    let first = state.step(upper)->0;
    let second = first.step(lower)->0;
    let block = second.block;
    let n = number as int;
    assert(first.open->0.post_context + lines_after(block, number) == lines_after(block, number));
    lemma_window_split(block, n + 1, n + 2, n + CTX_LINES + 1);
    assert(has_line(block, n + 1));
    assert(window(block, n + 1, n + 2) == seq![classify(lower)->Matched_text]) by {
        assert(window(block, n + 1, n + 1) == Seq::<Seq<char>>::empty());
    }
    assert(has_line(block, n));
    assert(block[number] == classify(upper)->Matched_text);
    assert(Seq::<Seq<char>>::empty() + lines_before(block, (number + 1) as u16) == lines_before(
        block,
        (number + 1) as u16,
    ));
}

/// A numbered line as the search tool writes it: the number, then `-` or
/// `:`, then the text.
pub open spec fn numbered_line(number: u16, mark: char, text: Seq<char>) -> Seq<char> {
    decimal_digits(number as nat).push(mark) + text
}

/// A numbered line is read as it was written: its number and its text come
/// back, as context after `-` and as a match after `:`.
pub proof fn lemma_numbered_line_is_read_back(number: u16, text: Seq<char>)
    ensures
        classify(numbered_line(number, '-', text)) == (Line::Context { number, text }),
        classify(numbered_line(number, ':', text)) == (Line::Matched { number, text }),
{
    let digits = decimal_digits(number as nat);
    lemma_decimal_round_trip(number as nat);
    let len = digits.len() as int;
    assert forall|mark: char| mark == '-' || mark == ':' implies digit_run(
        #[trigger] numbered_line(number, mark, text),
    ) == len && numbered_line(number, mark, text).take(len) == digits && numbered_line(
        number,
        mark,
        text,
    ).skip(len + 1) == text && numbered_line(number, mark, text)[len] == mark && is_digit(
        numbered_line(number, mark, text)[0],
    ) by {
        let line = numbered_line(number, mark, text);
        assert forall|i: int| 0 <= i < len implies is_digit(#[trigger] line[i]) by {
            assert(line[i] == digits[i]);
        }
        assert(line[len] == mark);
        lemma_digit_run_ends(line, len);
        assert(line.take(len) == digits);
        assert(line.skip(len + 1) == text);
        assert(line[0] == digits[0]);
    }
    assert(numbered_line(number, '-', text).len() > len);
    assert(numbered_line(number, ':', text).len() > len);
}

/// The block with the lines `texts` added under the numbers from `first`
/// on.
pub open spec fn block_with(block: Block, first: int, texts: Seq<Seq<char>>) -> Block
    decreases texts.len(),
{
    if texts.len() == 0 {
        block
    } else {
        block_with(block, first, texts.drop_last()).insert(
            (first + texts.len() - 1) as u16,
            texts.last(),
        )
    }
}

/// The lines `texts` as lines of context, numbered from `first` on.
pub open spec fn context_lines(first: int, texts: Seq<Seq<char>>) -> Seq<Seq<char>> {
    Seq::new(texts.len(), |i: int| numbered_line((first + i) as u16, '-', texts[i]))
}

/// What a block with added lines holds: the added lines under their
/// numbers, and under every other number what it held before.
proof fn lemma_block_with(block: Block, first: int, texts: Seq<Seq<char>>)
    requires
        0 <= first,
        first + texts.len() <= u16::MAX + 1,
    ensures
        forall|k: int|
            first <= k < first + texts.len() ==> #[trigger] has_line(
                block_with(block, first, texts),
                k,
            ) && block_with(block, first, texts)[k as u16] == texts[k - first],
        forall|k: int|
            !(first <= k < first + texts.len()) ==> (#[trigger] has_line(
                block_with(block, first, texts),
                k,
            ) == has_line(block, k) && (has_line(block, k) ==> block_with(
                block,
                first,
                texts,
            )[k as u16] == block[k as u16])),
    decreases texts.len(),
{
    if texts.len() > 0 {
        lemma_block_with(block, first, texts.drop_last());
        let shorter = block_with(block, first, texts.drop_last());
        assert forall|k: int| first <= k < first + texts.len() implies #[trigger] has_line(
            block_with(block, first, texts),
            k,
        ) && block_with(block, first, texts)[k as u16] == texts[k - first] by {
            if k < first + texts.len() - 1 {
                assert(has_line(shorter, k));
                assert(texts.drop_last()[k - first] == texts[k - first]);
            }
        }
        assert forall|k: int| !(first <= k < first + texts.len()) implies (#[trigger] has_line(
            block_with(block, first, texts),
            k,
        ) == has_line(block, k) && (has_line(block, k) ==> block_with(block, first, texts)[k as u16]
            == block[k as u16])) by {
            assert(has_line(shorter, k) == has_line(block, k));
        }
    }
}

/// Lines of context go into the block under their numbers and change
/// nothing else.
proof fn lemma_run_over_context_lines(state: Scan, first: int, texts: Seq<Seq<char>>)
    requires
        0 <= first,
        first + texts.len() <= u16::MAX + 1,
    ensures
        run(state, context_lines(first, texts)) == Some(
            Scan { block: block_with(state.block, first, texts), ..state },
        ),
    decreases texts.len(),
{
    let lines = context_lines(first, texts);
    if texts.len() > 0 {
        let shorter = texts.drop_last();
        lemma_run_over_context_lines(state, first, shorter);
        assert(lines.drop_last() == context_lines(first, shorter));
        let number = (first + texts.len() - 1) as u16;
        assert(lines.last() == numbered_line(number, '-', texts.last()));
        lemma_numbered_line_is_read_back(number, texts.last());
    }
}

/// The parser gives back what the search tool wrote. For one file with one
/// block, in which a match stands among the lines right before it and right
/// after it, at most [CTX_LINES] on either side: there is exactly one item,
/// and its context is those lines and the matched line between them, in the
/// order of the file.
pub proof fn lemma_one_block_round_trip(
    file: Seq<char>,
    number: u16,
    before: Seq<Seq<char>>,
    matched: Seq<char>,
    after: Seq<Seq<char>>,
)
    requires
        before.len() <= CTX_LINES,
        before.len() <= number,
        after.len() <= CTX_LINES,
        number + after.len() <= u16::MAX,
    ensures
        ({
            let lines = seq![file] + context_lines(number - before.len(), before)
                + seq![numbered_line(number, ':', matched)] + context_lines(number + 1, after);
            scan(lines) matches Ok(state) && state.finish() == seq![
                Match {
                    filename: file,
                    line_number: number,
                    matched_line: matched,
                    context: joined(before.push(matched) + after),
                },
            ]
        }),
{
    let n = number as int;
    let first = n - before.len();
    let head = seq![file];
    let pre = context_lines(first, before);
    let hit = seq![numbered_line(number, ':', matched)];
    let post = context_lines(n + 1, after);
    let start = Scan::start(file);
    assert(scan(head) == Ok::<Scan, nat>(start));

    // The lines before the match fill the block.
    lemma_run_over_context_lines(start, first, before);
    let filled = Scan { block: block_with(start.block, first, before), ..start };
    lemma_block_with(start.block, first, before);

    // The match takes them as the lines before it.
    lemma_numbered_line_is_read_back(number, matched);
    let block = filled.block.insert(number, matched);
    let draft = Draft::new(file, number, matched).with_lines_before(block);
    let opened = Scan { file, block, open: Some(draft), found: Seq::empty() };
    assert(run(filled, hit) == Some(opened)) by {
        assert(hit.drop_last() == Seq::<Seq<char>>::empty());
        assert(run(filled, hit.drop_last()) == Some(filled));
        assert(hit.last() == numbered_line(number, ':', matched));
    }
    assert(lines_before(block, number) == before) by {
        lemma_window_split(block, n - CTX_LINES, first, n);
        assert forall|k: int| n - CTX_LINES <= k < first implies !has_line(block, k) by {
            assert(has_line(filled.block, k) == has_line(start.block, k));
        }
        lemma_window_of_missing_lines(block, n - CTX_LINES, first);
        assert forall|k: int| first <= k < n implies has_line(block, k) by {
            assert(has_line(filled.block, k));
        }
        lemma_window_of_present_lines(block, first, n);
        assert forall|i: int| 0 <= i < before.len() implies block[(first + i) as u16]
            == before[i] by {
            assert(has_line(filled.block, first + i));
        }
        assert(Seq::new((n - first) as nat, |i: int| block[(first + i) as u16]) == before);
        assert(Seq::<Seq<char>>::empty() + before == before);
    }
    assert(draft.pre_context == before) by {
        assert(Seq::<Seq<char>>::empty() + before == before);
    }

    // The lines after the match fill the block further.
    lemma_run_over_context_lines(opened, n + 1, after);
    let ended = Scan { block: block_with(block, n + 1, after), ..opened };
    lemma_block_with(block, n + 1, after);
    assert(lines_after(ended.block, number) == after) by {
        let last = n + 1 + after.len();
        lemma_window_split(ended.block, n + 1, last, n + CTX_LINES + 1);
        assert forall|k: int| last <= k < n + CTX_LINES + 1 implies !has_line(ended.block, k) by {
            assert(has_line(ended.block, k) == has_line(block, k));
            assert(has_line(filled.block, k) == has_line(start.block, k));
        }
        lemma_window_of_missing_lines(ended.block, last, n + CTX_LINES + 1);
        assert forall|k: int| n + 1 <= k < last implies has_line(ended.block, k) by {}
        lemma_window_of_present_lines(ended.block, n + 1, last);
        assert forall|i: int| 0 <= i < after.len() implies ended.block[(n + 1 + i) as u16]
            == after[i] by {
            assert(has_line(ended.block, n + 1 + i));
        }
        assert(Seq::new((last - (n + 1)) as nat, |i: int| ended.block[(n + 1 + i) as u16])
            == after);
        assert(after + Seq::<Seq<char>>::empty() == after);
    }
    assert(draft.with_lines_after(ended.block).post_context == after) by {
        assert(Seq::<Seq<char>>::empty() + after == after);
    }

    // Put together.
    lemma_run_in_parts(start, pre, hit);
    lemma_run_in_parts(start, pre + hit, post);
    lemma_scan_in_parts(head, pre + hit + post);
    assert(head + (pre + hit + post) == head + pre + hit + post);
    assert(Seq::<Match>::empty().push(draft.with_lines_after(ended.block).finished()) == seq![
        draft.with_lines_after(ended.block).finished(),
    ]);
}

/// Whether none of `texts` holds a newline.
pub open spec fn are_lines(texts: Seq<Seq<char>>) -> bool {
    forall|i: int| 0 <= i < texts.len() ==> is_one_line(#[trigger] texts[i])
}

/// The same of the output as one text, its lines joined with newlines: the
/// parse gives the one item back.
pub proof fn lemma_one_block_round_trip_of_text(
    file: Seq<char>,
    number: u16,
    before: Seq<Seq<char>>,
    matched: Seq<char>,
    after: Seq<Seq<char>>,
)
    requires
        before.len() <= CTX_LINES,
        before.len() <= number,
        after.len() <= CTX_LINES,
        number + after.len() <= u16::MAX,
        is_one_line(file),
        is_one_line(matched),
        are_lines(before),
        are_lines(after),
    ensures
        parsed(
            joined(
                seq![file] + context_lines(number - before.len(), before)
                    + seq![numbered_line(number, ':', matched)] + context_lines(number + 1, after),
            ),
        ) == Ok::<Seq<Match>, nat>(
            seq![
                Match {
                    filename: file,
                    line_number: number,
                    matched_line: matched,
                    context: joined(before.push(matched) + after),
                },
            ],
        ),
{
    let lines = seq![file] + context_lines(number - before.len(), before)
        + seq![numbered_line(number, ':', matched)] + context_lines(number + 1, after);
    lemma_one_block_round_trip(file, number, before, matched, after);
    assert forall|i: int| 0 <= i < lines.len() implies is_one_line(#[trigger] lines[i]) by {
        let pre = before.len() as int;
        if i == 0 {
        } else if i <= pre {
            let k = (number - before.len() + (i - 1)) as u16;
            assert(lines[i] == numbered_line(k, '-', before[i - 1]));
            lemma_numbered_line_is_one_line(k, '-', before[i - 1]);
        } else if i == pre + 1 {
            lemma_numbered_line_is_one_line(number, ':', matched);
        } else {
            let k = (number + 1 + (i - pre - 2)) as u16;
            assert(lines[i] == numbered_line(k, '-', after[i - pre - 2]));
            lemma_numbered_line_is_one_line(k, '-', after[i - pre - 2]);
        }
    }
    lemma_lines_of_joined(lines);
}

/// A numbered line holds no newline unless its text does.
proof fn lemma_numbered_line_is_one_line(number: u16, mark: char, text: Seq<char>)
    requires
        mark != '\n',
        is_one_line(text),
    ensures
        is_one_line(numbered_line(number, mark, text)),
{
    let digits = decimal_digits(number as nat);
    lemma_decimal_round_trip(number as nat);
    let line = numbered_line(number, mark, text);
    assert forall|i: int| 0 <= i < line.len() implies #[trigger] line[i] != '\n' by {
        if i < digits.len() {
            assert(line[i] == digits[i]);
            assert(is_digit(digits[i]));
        } else if i > digits.len() {
            assert(line[i] == text[i - digits.len() - 1]);
        }
    }
}

} // verus!
