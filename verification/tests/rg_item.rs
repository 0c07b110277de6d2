use binocular::config::Color;
use binocular::rg_item::{RgItem, CTX_LINES};
use std::collections::HashMap;

fn block<'a>(lines: &[(u16, &'a str)]) -> HashMap<u16, &'a str> {
    lines.iter().copied().collect()
}

#[test]
fn context_window_is_four_lines() {
    assert_eq!(CTX_LINES, 4);
}

#[test]
fn builder_without_context_builds_the_matched_line() {
    let item = RgItem::builder("a.rs", 10, "fn foo()").build();
    assert_eq!(item.filename(), "a.rs");
    assert_eq!(item.line_number(), 10);
    assert_eq!(item.matched_line(), "fn foo()");
    assert_eq!(item.context(), "fn foo()");
}

#[test]
fn pre_context_takes_the_four_lines_before() {
    let ctx = block(&[(5, "five"), (6, "six"), (7, "seven"), (8, "eight"), (9, "nine"), (10, "ten"), (11, "eleven")]);
    let item = RgItem::builder("a.rs", 10, "ten").add_pre_context(&ctx).build();
    assert_eq!(item.context(), "six\nseven\neight\nnine\nten");
}

#[test]
fn post_context_takes_the_four_lines_after() {
    let ctx = block(&[(9, "nine"), (10, "ten"), (11, "eleven"), (12, "twelve"), (13, "thirteen"), (14, "fourteen"), (15, "fifteen")]);
    let item = RgItem::builder("a.rs", 10, "ten").add_post_context(&ctx).build();
    assert_eq!(item.context(), "ten\neleven\ntwelve\nthirteen\nfourteen");
}

#[test]
fn missing_lines_are_skipped() {
    let ctx = block(&[(7, "seven"), (9, "nine"), (13, "thirteen")]);
    let item = RgItem::builder("a.rs", 10, "ten")
        .add_pre_context(&ctx)
        .add_post_context(&ctx)
        .build();
    assert_eq!(item.context(), "seven\nnine\nten\nthirteen");
}

#[test]
fn an_empty_block_gives_no_context() {
    let ctx = block(&[]);
    let item = RgItem::builder("a.rs", 10, "ten")
        .add_pre_context(&ctx)
        .add_post_context(&ctx)
        .build();
    assert_eq!(item.context(), "ten");
}

#[test]
fn pre_context_near_the_top_of_the_file() {
    let ctx = block(&[(0, "zero"), (1, "one"), (2, "two")]);
    let item = RgItem::builder("a.rs", 2, "two").add_pre_context(&ctx).build();
    assert_eq!(item.context(), "zero\none\ntwo");
    let item = RgItem::builder("a.rs", 0, "zero").add_pre_context(&ctx).build();
    assert_eq!(item.context(), "zero");
}

#[test]
fn post_context_near_the_largest_line_number() {
    let ctx = block(&[(65533, "a"), (65534, "b"), (65535, "c"), (0, "zero"), (1, "one")]);
    let item = RgItem::builder("a.rs", 65534, "b").add_post_context(&ctx).build();
    assert_eq!(item.context(), "b\nc");
    let item = RgItem::builder("a.rs", 65535, "c").add_post_context(&ctx).build();
    assert_eq!(item.context(), "c");
}

#[test]
fn context_added_twice_is_kept_twice() {
    let ctx = block(&[(9, "nine"), (11, "eleven")]);
    let item = RgItem::builder("a.rs", 10, "ten")
        .add_pre_context(&ctx)
        .add_pre_context(&ctx)
        .add_post_context(&ctx)
        .add_post_context(&ctx)
        .build();
    assert_eq!(item.context(), "nine\nnine\nten\neleven\neleven");
}

#[test]
fn location_is_file_colon_line() {
    let item = RgItem::builder("src/a.rs", 10, "ten").build();
    assert_eq!(item.location(), "src/a.rs:10");
    let item = RgItem::builder("b", 0, "zero").build();
    assert_eq!(item.location(), "b:0");
    let item = RgItem::builder("c", 65535, "last").build();
    assert_eq!(item.location(), "c:65535");
}

#[test]
fn list_item_has_three_spans() {
    let item = RgItem::builder("a.rs", 107, "fn foo()").build();
    let row = item.as_list_item();
    assert_eq!(row.spans.len(), 3);
    assert_eq!(row.spans[0].text, "a.rs");
    assert_eq!(row.spans[0].color, Some(Color::LightMagenta));
    assert_eq!(row.spans[1].text, " [107]");
    assert_eq!(row.spans[1].color, Some(Color::LightMagenta));
    assert_eq!(row.spans[2].text, "fn foo()");
    assert_eq!(row.spans[2].color, None);
}

#[test]
fn row_takes_the_given_color() {
    let item = RgItem::builder("a.rs", 1, "x").build();
    let row = item.row(Color::Rgb(1, 2, 3));
    assert_eq!(row.spans[0].color, Some(Color::Rgb(1, 2, 3)));
    assert_eq!(row.spans[1].color, Some(Color::Rgb(1, 2, 3)));
    assert_eq!(row.spans[1].text, " [1]");
    assert_eq!(row.spans[2].color, None);
}

#[test]
fn a_clone_is_the_same_match() {
    let ctx = block(&[(9, "nine")]);
    let item = RgItem::builder("a.rs", 10, "ten").add_pre_context(&ctx).build();
    let copy = item.clone();
    assert_eq!(copy.filename(), item.filename());
    assert_eq!(copy.line_number(), item.line_number());
    assert_eq!(copy.matched_line(), item.matched_line());
    assert_eq!(copy.context(), "nine\nten");
}
