use binocular::config::{Color, Config, ConfigColors};
use binocular::pickers::grep::{GrepItem, GrepPicker};
use binocular::pickers::{Picker, PickerError, PickerItem, SearchOutcome, Tool};
use std::collections::HashMap;

fn exited(code: Option<i32>, stdout: &str, stderr: &str) -> SearchOutcome {
    SearchOutcome::Exited { code, stdout: stdout.to_string(), stderr: stderr.to_string() }
}

#[test]
fn picker_names() {
    assert_eq!(GrepPicker.name(), "Live Grep");
    assert_eq!(GrepPicker.preview_title(), "Grep Preview");
}

#[test]
fn program_names_follow_the_system() {
    assert_eq!(GrepPicker.search_program(false), "rg");
    assert_eq!(GrepPicker.search_program(true), "rg.exe");
    assert_eq!(GrepPicker.editor_program(false), "code-insiders");
    assert_eq!(GrepPicker.editor_program(true), "code-insiders.cmd");
}

#[test]
fn empty_query() {
    assert_eq!(GrepPicker.handle_input_change(""), None);
}

#[test]
fn a_query_is_searched_for_with_fixed_options() {
    assert_eq!(
        GrepPicker.handle_input_change("fn foo"),
        Some(vec![
            "fn foo".to_string(),
            "--color=never".to_string(),
            "--heading".to_string(),
            "--line-number".to_string(),
            "--smart-case".to_string(),
            "--no-context-separator".to_string(),
            "--context=4".to_string(),
        ])
    );
}

#[test]
fn the_query_is_passed_as_it_is() {
    let arguments = GrepPicker.handle_input_change(" ").unwrap();
    assert_eq!(arguments[0], " ");
    let arguments = GrepPicker.handle_input_change("--files é").unwrap();
    assert_eq!(arguments[0], "--files é");
    assert_eq!(arguments.len(), 7);
}

#[test]
fn missing_binary() {
    let result = GrepPicker.handle_output(SearchOutcome::NotFound);
    assert!(matches!(result, Err(PickerError::ToolNotInstalled(Tool::Search))));
}

#[test]
fn a_search_that_could_not_run_has_failed() {
    let result = GrepPicker.handle_output(SearchOutcome::Failed("permission denied".to_string()));
    assert!(matches!(result, Err(PickerError::SearchFailed(message)) if message == "permission denied"));
}

#[test]
fn a_search_that_ended_badly_has_failed() {
    let result = GrepPicker.handle_output(exited(Some(2), "a.rs\n1:x", "regex parse error"));
    assert!(matches!(result, Err(PickerError::SearchFailed(message)) if message == "regex parse error"));
    let result = GrepPicker.handle_output(exited(Some(1), "", ""));
    assert!(matches!(result, Err(PickerError::SearchFailed(message)) if message.is_empty()));
    let result = GrepPicker.handle_output(exited(None, "a.rs\n1:x", "killed"));
    assert!(matches!(result, Err(PickerError::SearchFailed(message)) if message == "killed"));
    let result = GrepPicker.handle_output(exited(Some(-1), "a.rs\n1:x", "odd"));
    assert!(matches!(result, Err(PickerError::SearchFailed(message)) if message == "odd"));
}

#[test]
fn a_search_that_ended_well_is_parsed() {
    let items = GrepPicker
        .handle_output(exited(Some(0), "a.rs\n9-nine\n10:ten\n11-eleven", "ignored"))
        .unwrap();
    assert_eq!(items.len(), 1);
    assert_eq!(items[0].record().filename(), "a.rs");
    assert_eq!(items[0].record().line_number(), 10);
    assert_eq!(items[0].preview(), "nine\nten\neleven");
}

#[test]
fn output_that_cannot_be_read_is_malformed() {
    let result = GrepPicker.handle_output(exited(Some(0), "a.rs\n10:ten\n11+eleven", ""));
    assert!(matches!(
        result,
        Err(PickerError::MalformedOutput { line: 2, found }) if found == "11+eleven"
    ));
}

#[test]
fn messages_for_the_user() {
    assert_eq!(PickerError::ToolNotInstalled(Tool::Search).message(), "ripgrep is not installed");
    assert_eq!(PickerError::ToolNotInstalled(Tool::Editor).message(), "VS Code is not installed");
    assert_eq!(
        PickerError::EditorFailed("denied".to_string()).message(),
        "Failed to open file in VS Code: denied"
    );
    assert_eq!(
        PickerError::SearchFailed("boom".to_string()).message(),
        "Failed to run ripgrep: boom"
    );
    assert_eq!(
        PickerError::MalformedOutput { line: 3, found: "12x".to_string() }.message(),
        "Failed to run ripgrep: expected a context or a matching line but found: 12x"
    );
}

#[test]
fn a_selection_opens_the_editor_at_the_line() {
    let item = GrepItem::builder("src/a.rs", 10, "ten").build();
    assert_eq!(
        GrepPicker.handle_selection(&item),
        vec!["--goto".to_string(), "src/a.rs:10".to_string()]
    );
}

#[test]
fn grep_item_builder_gathers_context() {
    let ctx: HashMap<u16, &str> =
        [(8, "eight"), (9, "nine"), (11, "eleven"), (20, "far")].into_iter().collect();
    let item = GrepItem::builder("a.rs", 10, "ten")
        .add_pre_context(&ctx)
        .add_post_context(&ctx)
        .build();
    assert_eq!(item.preview(), "eight\nnine\nten\neleven");
    assert_eq!(item.record().matched_line(), "ten");
}

#[test]
fn grep_item_row_is_the_same_with_every_configuration() {
    let item = GrepItem::builder("a.rs", 10, "ten").build();
    let config = Config {
        colors: ConfigColors { base: None, filepath: Some(Color::Green), selection: None },
    };
    for config in [Config::default(), config] {
        let row = item.as_list_item(&config);
        assert_eq!(row.spans.len(), 3);
        assert_eq!(row.spans[0].text, "a.rs");
        assert_eq!(row.spans[0].color, Some(Color::LightMagenta));
        assert_eq!(row.spans[1].text, " [10]");
        assert_eq!(row.spans[1].color, Some(Color::LightMagenta));
        assert_eq!(row.spans[2].text, "ten");
        assert_eq!(row.spans[2].color, None);
    }
}
