use binocular::parser::{parse_output, read_line, OutputLine};
use binocular::pickers::grep::GrepItem;

fn parse(output: &str) -> Vec<GrepItem> {
    parse_output(output).unwrap()
}

fn chars(text: &str) -> Vec<char> {
    text.chars().collect()
}

#[test]
fn parser_round_trip() {
    let items = parse("a.rs\n8-eight\n9-nine\n10:fn foo()\n11-eleven\n12-twelve");
    assert_eq!(items.len(), 1);
    let item = items[0].record();
    assert_eq!(item.filename(), "a.rs");
    assert_eq!(item.line_number(), 10);
    assert_eq!(item.matched_line(), "fn foo()");
    assert_eq!(item.context(), "eight\nnine\nfn foo()\neleven\ntwelve");
}

#[test]
fn context_truncation() {
    let items = parse("a.rs\n9-nine\n10:fn foo()");
    assert_eq!(items.len(), 1);
    assert_eq!(items[0].record().context(), "nine\nfn foo()");
}

#[test]
fn a_gap_in_the_numbers_leaves_no_placeholder() {
    let items = parse("a.rs\n7-seven\n9-nine\n10:ten\n12-twelve\n14-fourteen");
    assert_eq!(items.len(), 1);
    assert_eq!(items[0].record().context(), "seven\nnine\nten\ntwelve\nfourteen");
}

#[test]
fn lines_out_of_reach_are_no_context() {
    let items = parse("a.rs\n5-five\n6-six\n10:ten\n14-fourteen\n15-fifteen");
    assert_eq!(items.len(), 1);
    assert_eq!(items[0].record().context(), "six\nten\nfourteen");
}

#[test]
fn block_boundary() {
    let items = parse("a.rs\n3-a\n4:first\n5-b\n\nb.rs\n40-c\n41:second\n42-d");
    assert_eq!(items.len(), 2);
    let first = items[0].record();
    assert_eq!(first.filename(), "a.rs");
    assert_eq!(first.line_number(), 4);
    assert_eq!(first.matched_line(), "first");
    assert_eq!(first.context(), "a\nfirst");
    let second = items[1].record();
    assert_eq!(second.filename(), "b.rs");
    assert_eq!(second.line_number(), 41);
    assert_eq!(second.matched_line(), "second");
    assert_eq!(second.context(), "c\nsecond\nd");
}

#[test]
fn a_blank_line_does_not_close_the_open_match() {
    let items = parse("a.rs\n5:x\n\nb.rs\n6-y\n7:z");
    assert_eq!(items.len(), 2);
    assert_eq!(items[0].record().filename(), "a.rs");
    assert_eq!(items[0].record().context(), "x\ny\nz");
    assert_eq!(items[1].record().filename(), "b.rs");
    assert_eq!(items[1].record().context(), "y\nz");
}

#[test]
fn multi_match_single_block() {
    let items = parse("a.rs\n5:five\n6:six");
    assert_eq!(items.len(), 2);
    assert_eq!(items[0].record().line_number(), 5);
    assert_eq!(items[0].record().context(), "five\nsix");
    assert_eq!(items[1].record().line_number(), 6);
    assert_eq!(items[1].record().context(), "five\nsix");
}

#[test]
fn matches_keep_the_order_of_the_output() {
    let items = parse("b.rs\n30:late\n\na.rs\n2:early\n1:earlier");
    let places: Vec<(String, u16)> = items
        .iter()
        .map(|item| (item.record().filename().to_string(), item.record().line_number()))
        .collect();
    assert_eq!(
        places,
        vec![("b.rs".to_string(), 30), ("a.rs".to_string(), 2), ("a.rs".to_string(), 1)]
    );
}

#[test]
fn empty_output_has_no_matches() {
    assert_eq!(parse("").len(), 0);
}

#[test]
fn header_only_output_has_no_matches() {
    assert_eq!(parse("a.rs").len(), 0);
    assert_eq!(parse("a.rs\n").len(), 0);
    assert_eq!(parse("a.rs\n\nb.rs\n").len(), 0);
}

#[test]
fn context_without_a_match_gives_nothing() {
    assert_eq!(parse("a.rs\n1-one\n2-two").len(), 0);
}

#[test]
fn trailing_newline_ends_the_block() {
    let items = parse("a.rs\n8-eight\n9-nine\n10:fn foo()\n11-eleven\n12-twelve\n");
    assert_eq!(items.len(), 1);
    assert_eq!(items[0].record().context(), "eight\nnine\nfn foo()");
}

#[test]
fn the_first_line_names_a_file_whatever_it_holds() {
    let items = parse("12x\n3:foo");
    assert_eq!(items.len(), 1);
    assert_eq!(items[0].record().filename(), "12x");
    let items = parse("\n3:foo");
    assert_eq!(items[0].record().filename(), "");
    let items = parse("7:seven\n3:foo");
    assert_eq!(items.len(), 1);
    assert_eq!(items[0].record().filename(), "7:seven");
    assert_eq!(items[0].record().context(), "foo");
}

#[test]
fn a_file_name_in_mid_stream_keeps_the_block() {
    let items = parse("a.rs\n1:x\nb.rs\n2:y");
    assert_eq!(items.len(), 2);
    assert_eq!(items[0].record().filename(), "a.rs");
    assert_eq!(items[0].record().context(), "x\ny");
    assert_eq!(items[1].record().filename(), "b.rs");
    assert_eq!(items[1].record().context(), "x\ny");
}

#[test]
fn malformed_line() {
    let error = parse_output("a.rs\n9-nine\n12x\n13:y").unwrap_err();
    assert_eq!(error.line, 2);
    assert_eq!(error.found, "12x");
}

#[test]
fn digits_alone_are_malformed() {
    let error = parse_output("a.rs\n12").unwrap_err();
    assert_eq!(error.line, 1);
    assert_eq!(error.found, "12");
}

#[test]
fn the_first_malformed_line_is_reported() {
    let error = parse_output("a.rs\n1:x\n2 y\n3 z").unwrap_err();
    assert_eq!(error.line, 2);
    assert_eq!(error.found, "2 y");
}

#[test]
fn line_number_out_of_range_is_malformed() {
    let error = parse_output("a.rs\n65536:x").unwrap_err();
    assert_eq!(error.line, 1);
    assert_eq!(error.found, "65536:x");
    assert!(parse_output("a.rs\n99999999999999999999999999:x").is_err());
}

#[test]
fn largest_line_number_is_accepted() {
    let items = parse("a.rs\n65534-before\n65535:last");
    assert_eq!(items.len(), 1);
    assert_eq!(items[0].record().line_number(), 65535);
    assert_eq!(items[0].record().context(), "before\nlast");
}

#[test]
fn leading_zeros_are_accepted() {
    let items = parse("a.rs\n007:bond\n0000000000000000008-after");
    assert_eq!(items.len(), 1);
    assert_eq!(items[0].record().line_number(), 7);
    assert_eq!(items[0].record().context(), "bond\nafter");
}

#[test]
fn line_zero_has_no_lines_before_it() {
    let items = parse("a.rs\n0:zero\n1-one");
    assert_eq!(items[0].record().line_number(), 0);
    assert_eq!(items[0].record().context(), "zero\none");
}

#[test]
fn a_number_seen_twice_keeps_the_later_text() {
    let items = parse("a.rs\n9-old\n9-new\n10:ten");
    assert_eq!(items[0].record().context(), "new\nten");
}

#[test]
fn text_may_hold_separators_and_any_character() {
    let items = parse("src/ü.rs\n3:let x = a - b: c;\n4-  naïve — ∀x");
    assert_eq!(items.len(), 1);
    assert_eq!(items[0].record().filename(), "src/ü.rs");
    assert_eq!(items[0].record().matched_line(), "let x = a - b: c;");
    assert_eq!(items[0].record().context(), "let x = a - b: c;\n  naïve — ∀x");
}

#[test]
fn empty_text_after_the_separator() {
    let items = parse("a.rs\n1-\n2:\n3-");
    assert_eq!(items.len(), 1);
    assert_eq!(items[0].record().matched_line(), "");
    assert_eq!(items[0].record().context(), "\n\n");
}

#[test]
fn read_line_tells_the_shapes_apart() {
    assert!(matches!(read_line(&chars("")), OutputLine::Blank));
    assert!(matches!(read_line(&chars("a.rs")), OutputLine::Header(name) if name == "a.rs"));
    assert!(matches!(read_line(&chars("-1:x")), OutputLine::Header(name) if name == "-1:x"));
    assert!(
        matches!(read_line(&chars("12-text")), OutputLine::Context(12, text) if text == "text")
    );
    assert!(matches!(read_line(&chars("12:text")), OutputLine::Matched(12, text) if text == "text"));
    assert!(matches!(read_line(&chars("12:")), OutputLine::Matched(12, text) if text.is_empty()));
    assert!(matches!(read_line(&chars("12 text")), OutputLine::Malformed));
    assert!(matches!(read_line(&chars("12")), OutputLine::Malformed));
    assert!(matches!(read_line(&chars("70000:x")), OutputLine::Malformed));
    assert!(matches!(read_line(&chars("1２:x")), OutputLine::Malformed));
}
