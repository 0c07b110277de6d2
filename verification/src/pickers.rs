//! Pickers: what is searched for, how the outcome of a search is read, and
//! what is done with a selection.

use crate::config::Config;
use crate::text::views;
use crate::tui::{ListRow, Piece};
use vstd::prelude::*;

pub mod grep;

pub use grep::{GrepItem, GrepPicker};

verus! {

/// An item returned by a picker.
pub trait PickerItem: Sized {
    /// The row that stands for the item in the list of results.
    spec fn row(&self, config: &Config) -> Seq<Piece>;

    /// The text that previews the item.
    spec fn preview_text(&self) -> Seq<char>;

    /// Returns the row that stands for the item in the list of results.
    fn as_list_item(&self, config: &Config) -> (row: ListRow)
        ensures
            row@ == self.row(config),
    ;

    /// Returns a preview of the match to be displayed in the TUI.
    fn preview(&self) -> (text: String)
        ensures
            text@ == self.preview_text(),
    ;
}

/// What became of the search process.
#[derive(Debug)]
pub enum SearchOutcome {
    /// It did not start: there is no such program.
    NotFound,
    /// It did not start, or what it wrote could not be read; the message says why.
    Failed(String),
    /// It ran and ended, with this exit code (none if a signal ended it) and
    /// with this on its standard output and on its standard error.
    Exited { code: Option<i32>, stdout: String, stderr: String },
}

/// The programs that a picker starts.
#[derive(Clone, Copy, Debug, PartialEq, Eq, Structural)]
pub enum Tool {
    /// The program that searches.
    Search,
    /// The editor that opens a selection.
    Editor,
}

/// What went wrong: the model of [PickerError].
pub enum Failure {
    ToolNotInstalled(Tool),
    SearchFailed(Seq<char>),
    MalformedOutput { line: nat, found: Seq<char> },
    EditorFailed(Seq<char>),
}

/// What went wrong with a search, or with opening a selection. None of
/// these ends the application.
#[derive(Debug)]
pub enum PickerError {
    /// A program that the picker starts is not installed.
    ToolNotInstalled(Tool),
    /// The search program could not be run, or ended in failure.
    SearchFailed(String),
    /// The search program wrote what the picker cannot read: the line with
    /// this index, counted from zero, has this text.
    MalformedOutput { line: usize, found: String },
    /// The editor is there and could not be started; the message says why.
    EditorFailed(String),
}

impl View for PickerError {
    type V = Failure;

    open spec fn view(&self) -> Failure {
        match self {
            PickerError::ToolNotInstalled(tool) => Failure::ToolNotInstalled(*tool),
            PickerError::SearchFailed(message) => Failure::SearchFailed(message@),
            PickerError::MalformedOutput { line, found } => Failure::MalformedOutput {
                line: *line as nat,
                found: found@,
            },
            PickerError::EditorFailed(message) => Failure::EditorFailed(message@),
        }
    }
}

impl Failure {
    /// What the user is told. Output that cannot be read is shown as a
    /// search that failed.
    pub open spec fn message(self) -> Seq<char> {
        match self {
            Failure::ToolNotInstalled(Tool::Search) => "ripgrep is not installed"@,
            Failure::ToolNotInstalled(Tool::Editor) => "VS Code is not installed"@,
            Failure::SearchFailed(message) => "Failed to run ripgrep: "@ + message,
            Failure::MalformedOutput { found, .. } => "Failed to run ripgrep: "@
                + "expected a context or a matching line but found: "@ + found,
            Failure::EditorFailed(message) => "Failed to open file in VS Code: "@ + message,
        }
    }
}

impl PickerError {
    /// Returns what the user is told.
    pub fn message(&self) -> (message: String)
        ensures
            message@ == self@.message(),
    {
        match self {
            PickerError::ToolNotInstalled(Tool::Search) => "ripgrep is not installed".to_owned(),
            PickerError::ToolNotInstalled(Tool::Editor) => "VS Code is not installed".to_owned(),
            PickerError::SearchFailed(reason) => {
                let mut message = "Failed to run ripgrep: ".to_owned();
                message.append(reason.as_str());
                message
            },
            PickerError::MalformedOutput { found, .. } => {
                let mut message = "Failed to run ripgrep: ".to_owned();
                message.append("expected a context or a matching line but found: ");
                message.append(found.as_str());
                message
            },
            PickerError::EditorFailed(reason) => {
                let mut message = "Failed to open file in VS Code: ".to_owned();
                message.append(reason.as_str());
                message
            },
        }
    }
}

/// The arguments, if there are any.
pub open spec fn arguments_of(arguments: Option<Vec<String>>) -> Option<Seq<Seq<char>>> {
    match arguments {
        Some(arguments) => Some(views(arguments@)),
        None => None,
    }
}

/// A picker.
pub trait Picker<I: PickerItem> {
    /// The arguments of the search for `input`, or `None` where the input
    /// calls for no search and has no results.
    spec fn search(&self, input: Seq<char>) -> Option<Seq<Seq<char>>>;

    /// The arguments that open `item` in the editor.
    spec fn selection(&self, item: &I) -> Seq<Seq<char>>;

    /// The picker's name, which stands over the search box.
    spec fn title(&self) -> Seq<char>;

    /// The title that stands over the preview.
    spec fn preview_heading(&self) -> Seq<char>;

    /// Returns the picker's name.
    fn name(&self) -> (name: &'static str)
        ensures
            name@ == self.title(),
    ;

    /// Returns the picker's preview title.
    fn preview_title(&self) -> (title: &'static str)
        ensures
            title@ == self.preview_heading(),
    ;

    /// Returns the name of the search program, on Windows or elsewhere.
    fn search_program(&self, windows: bool) -> &'static str;

    /// Returns the name of the editor, on Windows or elsewhere.
    fn editor_program(&self, windows: bool) -> &'static str;

    /// Handles changes in the search input field: returns the arguments to
    /// start the search program with, or `None` where the results are empty
    /// without a search.
    fn handle_input_change(&self, input: &str) -> (arguments: Option<Vec<String>>)
        ensures
            arguments_of(arguments) == self.search(input@),
    ;

    /// Reads the outcome of a search.
    fn handle_output(&self, outcome: SearchOutcome) -> Result<Vec<I>, PickerError>;

    /// Handles selection events: returns the arguments to start the editor
    /// with.
    fn handle_selection(&self, item: &I) -> (arguments: Vec<String>)
        ensures
            views(arguments@) == self.selection(item),
    ;
}

} // verus!
