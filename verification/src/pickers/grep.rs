//! The `grep` picker: live search over a file tree with `ripgrep`.

use crate::app::{Command, Screen};
use crate::config::{Color, Config};
use crate::input::Key;
use crate::parser::{matches_of, parse_output, parsed};
use crate::pickers::{Failure, Picker, PickerError, PickerItem, SearchOutcome, Tool};
use crate::rg_item::{block_of, Draft, Match, RgItem, RgItemBuilder, CTX_LINES};
use crate::selection::Listing;
use crate::text::{decimal_digits, decimal_string, lines_of, views};
use crate::tui::{ListRow, Piece};
use std::collections::HashMap;
use vstd::prelude::*;

verus! {

/// A `grep` match.
#[derive(Debug)]
pub struct GrepItem {
    record: RgItem,
}

impl View for GrepItem {
    type V = Match;

    closed spec fn view(&self) -> Match {
        self.record@
    }
}

impl GrepItem {
    /// Creates a new `grep` item builder.
    pub fn builder(filename: &str, line_number: u16, matched_line: &str) -> (builder:
        GrepItemBuilder)
        ensures
            builder@ == Draft::new(filename@, line_number, matched_line@),
    {
        GrepItemBuilder { record: RgItem::builder(filename, line_number, matched_line) }
    }

    /// The match as `ripgrep` reported it.
    pub fn record(&self) -> (record: &RgItem)
        ensures
            record@ == self@,
    {
        &self.record
    }
}

impl PickerItem for GrepItem {
    open spec fn row(&self, config: &Config) -> Seq<Piece> {
        self@.row(Color::LightMagenta)
    }

    open spec fn preview_text(&self) -> Seq<char> {
        self@.context
    }

    /// Returns the row that shows the match: the same with every
    /// configuration.
    fn as_list_item(&self, config: &Config) -> (row: ListRow)
        ensures
            row@ == self@.row(Color::LightMagenta),
    {
        self.record.as_list_item()
    }

    /// Returns the matched line together with its surrounding context.
    fn preview(&self) -> (text: String)
        ensures
            text@ == self@.context,
    {
        self.record.context().to_owned()
    }
}

/// A builder for [GrepItem]s.
#[derive(Debug)]
pub struct GrepItemBuilder {
    record: RgItemBuilder,
}

impl View for GrepItemBuilder {
    type V = Draft;

    closed spec fn view(&self) -> Draft {
        self.record@
    }
}

impl GrepItemBuilder {
    /// Adds context before the matched line to the [GrepItem].
    pub fn add_pre_context(self, ctx: &HashMap<u16, &str>) -> (builder: Self)
        ensures
            builder@ == self@.with_lines_before(block_of(ctx@)),
    {
        GrepItemBuilder { record: self.record.add_pre_context(ctx) }
    }

    /// Adds context after the matched line to the [GrepItem].
    pub fn add_post_context(self, ctx: &HashMap<u16, &str>) -> (builder: Self)
        ensures
            builder@ == self@.with_lines_after(block_of(ctx@)),
    {
        GrepItemBuilder { record: self.record.add_post_context(ctx) }
    }

    /// Builds the [GrepItem].
    pub fn build(self) -> (item: GrepItem)
        ensures
            item@ == self@.finished(),
    {
        GrepItem { record: self.record.build() }
    }
}

/// The arguments that make `ripgrep` search for `input` and write what the
/// parser reads: no colors, a heading for each file, line numbers, smart
/// case, no separator between blocks of context, and [CTX_LINES] lines of
/// context on either side of a match.
pub open spec fn search_arguments(input: Seq<char>) -> Seq<Seq<char>> {
    seq![
        input,
        "--color=never"@,
        "--heading"@,
        "--line-number"@,
        "--smart-case"@,
        "--no-context-separator"@,
        "--context="@ + decimal_digits(CTX_LINES as nat),
    ]
}

/// The arguments that make the editor go to `item`.
pub open spec fn goto_arguments(item: Match) -> Seq<Seq<char>> {
    seq!["--goto"@, item.location()]
}

/// What the outcome of a search amounts to: the matches that it reports, or
/// why there are none.
///
/// Only a search that ended with exit code zero has results, and then only
/// if its output is well formed.
pub open spec fn search_results(outcome: SearchOutcome) -> Result<Seq<Match>, Failure> {
    match outcome {
        SearchOutcome::NotFound => Err(Failure::ToolNotInstalled(Tool::Search)),
        SearchOutcome::Failed(message) => Err(Failure::SearchFailed(message@)),
        SearchOutcome::Exited { code, stdout, stderr } => if code == Some(0i32) {
            match parsed(stdout@) {
                Ok(matches) => Ok(matches),
                Err(index) => Err(
                    Failure::MalformedOutput { line: index, found: lines_of(stdout@)[index as int] },
                ),
            }
        } else {
            Err(Failure::SearchFailed(stderr@))
        },
    }
}

/// An empty query is answered at once, with an empty list and without a
/// search: whatever key has left the search box empty, nothing is started and
/// the list has no items and no selection.
pub proof fn lemma_empty_query_needs_no_search(
    screen: Screen<GrepItem>,
    key: Key,
    after: Screen<GrepItem>,
    command: Command,
)
    requires
        !screen.show_help,
        Screen::<GrepItem>::edits(key),
        screen.keyed(key, &GrepPicker, after, command),
        after.query.len() == 0,
    ensures
        GrepPicker.search(after.query) is None,
        command == Command::Nothing,
        after.listing == Listing::of(Seq::<GrepItem>::empty()),
        after.listing.items.len() == 0,
        after.listing.selected is None,
{
}

/// Where the search program is missing, the user is told so and the list
/// stays as it is.
pub proof fn lemma_missing_tool_keeps_results(screen: Screen<GrepItem>)
    ensures
        search_results(SearchOutcome::NotFound) == Err::<Seq<Match>, Failure>(
            Failure::ToolNotInstalled(Tool::Search),
        ),
        screen.delivered(Err(Failure::ToolNotInstalled(Tool::Search))).listing == screen.listing,
        screen.delivered(Err(Failure::ToolNotInstalled(Tool::Search))).status == Some(
            Failure::ToolNotInstalled(Tool::Search),
        ),
{
}

/// The picker that searches file contents.
#[derive(Clone, Copy, Debug)]
pub struct GrepPicker;

impl Picker<GrepItem> for GrepPicker {
    open spec fn search(&self, input: Seq<char>) -> Option<Seq<Seq<char>>> {
        if input.len() == 0 {
            None
        } else {
            Some(search_arguments(input))
        }
    }

    open spec fn selection(&self, item: &GrepItem) -> Seq<Seq<char>> {
        goto_arguments(item@)
    }

    open spec fn title(&self) -> Seq<char> {
        "Live Grep"@
    }

    open spec fn preview_heading(&self) -> Seq<char> {
        "Grep Preview"@
    }

    fn name(&self) -> (name: &'static str)
        ensures
            name@ == "Live Grep"@,
    {
        "Live Grep"
    }

    fn preview_title(&self) -> (title: &'static str)
        ensures
            title@ == "Grep Preview"@,
    {
        "Grep Preview"
    }

    fn search_program(&self, windows: bool) -> (program: &'static str)
        ensures
            program@ == if windows {
                "rg.exe"@
            } else {
                "rg"@
            },
    {
        if windows {
            "rg.exe"
        } else {
            "rg"
        }
    }

    fn editor_program(&self, windows: bool) -> (program: &'static str)
        ensures
            program@ == if windows {
                "code-insiders.cmd"@
            } else {
                "code-insiders"@
            },
    {
        if windows {
            "code-insiders.cmd"
        } else {
            "code-insiders"
        }
    }

    /// An empty input has no results and starts no search; any other input
    /// is searched for as it stands.
    fn handle_input_change(&self, input: &str) -> (arguments: Option<Vec<String>>)
        ensures
            input@.len() == 0 <==> arguments is None,
            arguments matches Some(arguments) ==> views(arguments@) == search_arguments(input@),
    {
        if input.is_empty() {
            return None;
        }
        let mut context = "--context=".to_owned();
        context.append(decimal_string(CTX_LINES as u64).as_str());
        let mut arguments: Vec<String> = Vec::new();
        arguments.push(input.to_owned());
        arguments.push("--color=never".to_owned());
        arguments.push("--heading".to_owned());
        arguments.push("--line-number".to_owned());
        arguments.push("--smart-case".to_owned());
        arguments.push("--no-context-separator".to_owned());
        arguments.push(context);
        assert(views(arguments@) == search_arguments(input@));
        Some(arguments)
    }

    /// Only a search that ended with exit code zero has results, and then
    /// only if its output is well formed.
    fn handle_output(&self, outcome: SearchOutcome) -> (results: Result<Vec<GrepItem>, PickerError>)
        ensures
            match search_results(outcome) {
                Ok(matches) => results matches Ok(items) && matches_of(items@) == matches,
                Err(failure) => results matches Err(error) && error@ == failure,
            },
    {
        match outcome {
            SearchOutcome::NotFound => Err(PickerError::ToolNotInstalled(Tool::Search)),
            SearchOutcome::Failed(message) => Err(PickerError::SearchFailed(message)),
            SearchOutcome::Exited { code, stdout, stderr } => {
                let succeeded = match code {
                    Some(code) => code == 0,
                    None => false,
                };
                if succeeded {
                    match parse_output(stdout.as_str()) {
                        Ok(items) => Ok(items),
                        Err(error) => Err(
                            PickerError::MalformedOutput { line: error.line, found: error.found },
                        ),
                    }
                } else {
                    Err(PickerError::SearchFailed(stderr))
                }
            },
        }
    }

    /// The editor is asked to go to the line of the match.
    fn handle_selection(&self, item: &GrepItem) -> (arguments: Vec<String>)
        ensures
            views(arguments@) == goto_arguments(item@),
    {
        let mut arguments: Vec<String> = Vec::new();
        arguments.push("--goto".to_owned());
        arguments.push(item.record.location());
        assert(views(arguments@) == goto_arguments(item@));
        arguments
    }
}

} // verus!
