//! The application state, and what each key press and each delivery of search
//! results does to it.

use crate::config::{color_or, Color, Config};
use crate::input::{
    cursor_width, edit, edited, empty_input, input_text, key_of, key_pressed, scroll_width,
    text_of, visual_cursor, visual_scroll, Key,
};
use crate::pickers::{Failure, Picker, PickerError, PickerItem, Tool};
use crate::selection::{Listing, ResultList};
use crate::text::views;
use crate::tui::{
    cursor_column, cursor_column_at, help_label, help_lines, help_text, highlight_mark, rows_of,
    titled, titled_text, Frame, ListRow, Picture,
};
use crossterm::event::KeyEvent;
use tui_input::Input;
use vstd::prelude::*;

verus! {

/// What is left to do after an event, outside the application state.
pub enum Command {
    /// Nothing but to draw the screen again.
    Nothing,
    /// Leave the application.
    Quit,
    /// Start the search program with these arguments.
    Search(Seq<Seq<char>>),
    /// Start the editor with these arguments.
    Open(Seq<Seq<char>>),
}

/// What is left to do after an event, outside the application state.
#[derive(Debug)]
pub enum Action {
    /// Nothing but to draw the screen again.
    Nothing,
    /// Leave the application.
    Quit,
    /// Start the search program with these arguments.
    Search(Vec<String>),
    /// Start the editor with these arguments.
    Open(Vec<String>),
}

impl View for Action {
    type V = Command;

    open spec fn view(&self) -> Command {
        match self {
            Action::Nothing => Command::Nothing,
            Action::Quit => Command::Quit,
            Action::Search(arguments) => Command::Search(views(arguments@)),
            Action::Open(arguments) => Command::Open(views(arguments@)),
        }
    }
}

/// What became of the attempt to start the editor.
pub enum EditorOutcome {
    /// It has started; what it does from here on is its own business.
    Started,
    /// It did not start: there is no such program.
    NotFound,
    /// It did not start; the message says why.
    Failed(String),
}

/// What the application waits for: whichever comes first is handled, and
/// then the screen is drawn again.
pub enum AppEvent<I> {
    /// A key was pressed.
    Key(KeyEvent),
    /// The terminal reported something that is no key press.
    Terminal,
    /// A search has ended, in results or in failure.
    Delivery(Result<Vec<I>, PickerError>),
    /// The editor was asked for, and this came of it.
    Editor(EditorOutcome),
    /// Neither the terminal nor any search will report anything more.
    Closed,
}

/// What the application shows: the query in the search box, the results with
/// the selection, whether the help lies over them, and why the last search
/// failed, if it did.
pub struct Screen<I> {
    pub query: Seq<char>,
    pub listing: Listing<I>,
    pub show_help: bool,
    pub status: Option<Failure>,
}

impl<I: PickerItem> Screen<I> {
    /// The screen at the start: no query, no results, no help.
    pub open spec fn start() -> Self {
        Screen {
            query: Seq::empty(),
            listing: Listing::of(Seq::empty()),
            show_help: false,
            status: None,
        }
    }

    /// The screen once `results` have come in: they take the place of the
    /// list, whichever search they come from.
    pub open spec fn with_results(self, results: Seq<I>) -> Self {
        Screen { listing: Listing::of(results), status: None, ..self }
    }

    /// The screen once a search, or the start of the editor, has failed: the
    /// list stays as it is.
    pub open spec fn with_failure(self, failure: Failure) -> Self {
        Screen { status: Some(failure), ..self }
    }

    /// The screen once a search has ended, in results or in failure.
    pub open spec fn delivered(self, delivery: Result<Seq<I>, Failure>) -> Self {
        match delivery {
            Ok(results) => self.with_results(results),
            Err(failure) => self.with_failure(failure),
        }
    }

    /// What the user is told of the last search, if it failed.
    pub open spec fn status_text(self) -> Option<Seq<char>> {
        match self.status {
            Some(failure) => Some(failure.message()),
            None => None,
        }
    }

    /// What the screen shows, with the titles of `picker` and the colors of
    /// `config`: a row for each result, in order; the preview of the item
    /// under the cursor, or nothing where the list is empty.
    pub open spec fn picture<P: Picker<I>>(self, picker: &P, config: &Config) -> Picture {
        Picture {
            preview_title: titled_text(picker.preview_heading()),
            preview: match self.listing.current() {
                Some(item) => item.preview_text(),
                None => Seq::empty(),
            },
            results_title: titled_text("Results"@),
            rows: self.listing.items.map_values(|item: I| item.row(config)),
            selected: self.listing.selected,
            offset: self.listing.offset,
            highlight_symbol: highlight_mark(),
            input_title: titled_text(picker.title()),
            query: self.query,
            status: self.status_text(),
            help_label: help_label(),
            show_help: self.show_help,
            help_title: titled_text("Help"@),
            help: help_text(),
            base_color: color_or(config.colors.base, Color::LightCyan),
            selection_color: color_or(config.colors.selection, Color::Yellow),
        }
    }

    /// Whether the key asks for the help to be shown or hidden.
    pub open spec fn toggles_help(key: Key) -> bool {
        key == Key::Char('?')
    }

    /// Whether the key goes to the search box: every key does but those
    /// that leave, move the selection, open it, or toggle the help.
    pub open spec fn edits(key: Key) -> bool {
        match key {
            Key::Char(c) => c != '?',
            Key::Other => true,
            _ => false,
        }
    }

    /// The screen once the editor was asked for. An editor that is missing,
    /// or that could not be started, is told to the user; the application
    /// goes on either way, and the list stays as it is.
    pub open spec fn launched(self, outcome: EditorOutcome) -> Self {
        match outcome {
            EditorOutcome::Started => self,
            EditorOutcome::NotFound => self.with_failure(Failure::ToolNotInstalled(Tool::Editor)),
            EditorOutcome::Failed(message) => self.with_failure(Failure::EditorFailed(message@)),
        }
    }

    /// The screen once the results list was drawn with the item of the index
    /// `offset` as the first in sight.
    pub open spec fn with_offset(self, offset: usize) -> Self {
        Screen { listing: self.listing.scrolled(offset), ..self }
    }

    /// Whether the key stays away from the search box: while the help is
    /// shown every key does, and otherwise every key that does not go to it.
    pub open spec fn keeps_search_box(self, key: Key) -> bool {
        self.show_help || !Self::edits(key)
    }

    /// Whether `after` and `command` are what the event leads to from this
    /// screen, with this picker: a key as [Self::keyed] says, a delivery as
    /// [Self::delivered] says; anything else that the terminal reports
    /// changes nothing, and the end of all events ends the application.
    pub open spec fn handled<P: Picker<I>>(
        self,
        event: AppEvent<I>,
        picker: &P,
        after: Self,
        command: Command,
    ) -> bool {
        match event {
            AppEvent::Key(key) => self.keyed(key_pressed(key), picker, after, command),
            AppEvent::Terminal => after == self && command == Command::Nothing,
            AppEvent::Delivery(delivery) => after == self.delivered(delivery_of(delivery))
                && command == Command::Nothing,
            AppEvent::Editor(outcome) => after == self.launched(outcome) && command
                == Command::Nothing,
            AppEvent::Closed => after == self && command == Command::Quit,
        }
    }

    /// Whether `after` and `command` are what the key leads to from this
    /// screen, with this picker.
    ///
    /// Escape leaves. The question mark shows or hides the help. Every
    /// other key does nothing while the help is shown. Otherwise the arrows
    /// move the selection, enter opens the selected item if there is one,
    /// and any other key goes to the search box: the query that the box
    /// holds afterwards is searched for, or, where the picker has nothing to
    /// search for, the list is emptied at once.
    pub open spec fn keyed<P: Picker<I>>(
        self,
        key: Key,
        picker: &P,
        after: Self,
        command: Command,
    ) -> bool {
        if key == Key::Esc {
            after == self && command == Command::Quit
        } else if Self::toggles_help(key) {
            after == (Screen { show_help: !self.show_help, ..self }) && command == Command::Nothing
        } else if self.show_help {
            after == self && command == Command::Nothing
        } else if key == Key::Up {
            after == (Screen { listing: self.listing.up(), ..self }) && command == Command::Nothing
        } else if key == Key::Down {
            after == (Screen { listing: self.listing.down(), ..self }) && command
                == Command::Nothing
        } else if key == Key::Enter {
            after == self && command == match self.listing.current() {
                Some(item) => Command::Open(picker.selection(&item)),
                None => Command::Nothing,
            }
        } else {
            match picker.search(after.query) {
                Some(arguments) => after == (Screen { query: after.query, ..self }) && command
                    == Command::Search(arguments),
                None => after == (Screen { query: after.query, ..self }).with_results(
                    Seq::empty(),
                ) && command == Command::Nothing,
            }
        }
    }
}

/// The results that come in last are the ones shown, whichever search was
/// asked for first: of two deliveries the later one takes the list, and
/// nothing of the earlier one is left.
pub proof fn lemma_last_delivery_wins<I: PickerItem>(
    screen: Screen<I>,
    earlier: Seq<I>,
    later: Seq<I>,
)
    ensures
        screen.with_results(earlier).with_results(later) == screen.with_results(later),
        screen.with_results(earlier).with_results(later).listing == Listing::of(later),
{
}

/// Where nothing is selected, nothing is opened and nothing is previewed,
/// whatever the list holds: enter changes nothing and starts no editor, and
/// the preview is empty.
pub proof fn lemma_nothing_selected_nothing_shown<I: PickerItem, P: Picker<I>>(
    screen: Screen<I>,
    picker: &P,
    config: &Config,
    after: Screen<I>,
    command: Command,
)
    requires
        screen.listing.selected is None,
        !screen.show_help,
        screen.keyed(Key::Enter, picker, after, command),
    ensures
        after == screen,
        command == Command::Nothing,
        screen.picture(picker, config).preview == Seq::<char>::empty(),
        screen.picture(picker, config).selected is None,
{
}

/// New results are shown from the top: the list is scrolled back to its
/// first item, however far it was scrolled before.
pub proof fn lemma_results_are_shown_from_the_top<I: PickerItem>(
    screen: Screen<I>,
    offset: usize,
    results: Seq<I>,
)
    ensures
        screen.with_offset(offset).with_results(results).listing.offset == 0,
        screen.with_offset(offset).with_results(results) == screen.with_results(results),
        screen.with_offset(offset).listing.items == screen.listing.items,
        screen.with_offset(offset).listing.selected == screen.listing.selected,
{
}

/// A search that fails leaves the list and the selection as they are.
pub proof fn lemma_failure_keeps_results<I: PickerItem>(screen: Screen<I>, failure: Failure)
    ensures
        screen.with_failure(failure).listing == screen.listing,
        screen.with_failure(failure).query == screen.query,
        screen.with_failure(failure).status == Some(failure),
{
}

/// The width of a pane between its borders.
pub open spec fn inner_width(width: u16) -> usize {
    if width >= 2 {
        (width - 2) as usize
    } else {
        0
    }
}

/// What a delivery amounts to, as the application takes it.
pub open spec fn delivery_of<I>(delivery: Result<Vec<I>, PickerError>) -> Result<Seq<I>, Failure> {
    match delivery {
        Ok(results) => Ok(results@),
        Err(error) => Err(error@),
    }
}

/// The application state. Abstraction over what's displayed
/// in the TUI.
pub struct App<I, P> where I: PickerItem, P: Picker<I> {
    picker: P,
    input: Input,
    results: ResultList<I>,
    show_help: bool,
    status: Option<PickerError>,
}

/// Why the search failed, if it did.
pub open spec fn failure_of(status: Option<PickerError>) -> Option<Failure> {
    match status {
        Some(error) => Some(error@),
        None => None,
    }
}

impl<I, P> View for App<I, P> where I: PickerItem, P: Picker<I> {
    type V = Screen<I>;

    closed spec fn view(&self) -> Screen<I> {
        Screen {
            query: input_text(self.input),
            listing: self.results@,
            show_help: self.show_help,
            status: failure_of(self.status),
        }
    }
}

impl<I, P> App<I, P> where I: PickerItem, P: Picker<I> {
    /// The picker that the application searches with.
    pub closed spec fn picker(&self) -> P {
        self.picker
    }

    /// The search box.
    pub closed spec fn search_box(&self) -> Input {
        self.input
    }

    /// The search box after the key `key`, which came with `event`: a key
    /// that goes to the box leaves of it what the box makes of the event,
    /// and every other key leaves it as it is.
    pub open spec fn box_after(&self, key: Key, event: KeyEvent) -> Input {
        if self@.keeps_search_box(key) {
            self.search_box()
        } else {
            edited(self.search_box(), event)
        }
    }

    /// Initializes a new application.
    pub fn new(picker: P) -> (app: Self)
        ensures
            app@ == Screen::<I>::start(),
            app.picker() == picker,
            app@.query == input_text(app.search_box()),
    {
        App {
            picker,
            input: empty_input(),
            results: ResultList::new(),
            show_help: false,
            status: None,
        }
    }

    /// Returns the picker that the application searches with.
    pub fn picker_ref(&self) -> (picker: &P)
        ensures
            *picker == self.picker(),
    {
        &self.picker
    }

    /// Returns the search box.
    pub fn input(&self) -> (input: &Input)
        ensures
            *input == self.search_box(),
            input_text(*input) == self@.query,
    {
        &self.input
    }

    /// Returns the results and the selection among them.
    pub fn results(&self) -> (results: &ResultList<I>)
        ensures
            results@ == self@.listing,
    {
        &self.results
    }

    /// Returns whether the help is shown.
    pub fn show_help(&self) -> (shown: bool)
        ensures
            shown == self@.show_help,
    {
        self.show_help
    }

    /// Returns why the last search failed, if it did.
    pub fn status(&self) -> (status: &Option<PickerError>)
        ensures
            failure_of(*status) == self@.status,
    {
        &self.status
    }

    /// Returns what there is to draw, with the colors of `config`.
    pub fn frame(&self, config: &Config) -> (frame: Frame)
        ensures
            frame@ == self@.picture(&self.picker(), config),
    {
        let items = self.results.items();
        let mut rows: Vec<ListRow> = Vec::new();
        let mut index: usize = 0;
        while index < items.len()
            invariant
                index <= items.len(),
                rows_of(rows@) == items@.take(index as int).map_values(|item: I| item.row(config)),
            decreases items.len() - index,
        {
            let ghost drawn = rows@;
            let row = items[index].as_list_item(config);
            rows.push(row);
            assert(rows_of(rows@) == rows_of(drawn).push(row@));
            assert(items@.take(index + 1).map_values(|item: I| item.row(config)) == items@.take(
                index as int,
            ).map_values(|item: I| item.row(config)).push(items@[index as int].row(config)));
            index += 1;
        }
        assert(items@.take(index as int) == items@);
        let preview = match self.results.selected() {
            Some(item) => item.preview(),
            None => String::new(),
        };
        let status = match &self.status {
            Some(error) => Some(error.message()),
            None => None,
        };
        Frame {
            preview_title: titled(self.picker.preview_title()),
            preview,
            results_title: titled("Results"),
            rows,
            selected: self.results.selected_index(),
            offset: self.results.offset(),
            highlight_symbol: ">> ".to_owned(),
            input_title: titled(self.picker.name()),
            query: text_of(&self.input),
            status,
            help_label: "Help (?)".to_owned(),
            show_help: self.show_help,
            help_title: titled("Help"),
            help: help_lines(),
            base_color: config.base_color(),
            selection_color: config.selection_color(),
        }
    }

    /// Returns the column of the cursor in a search box whose left border is
    /// at column `left`, on a screen whose panes are `width` columns wide,
    /// borders included.
    pub fn cursor_column(&self, left: u16, width: u16) -> (column: u16)
        ensures
            column == cursor_column_at(
                left,
                cursor_width(self.search_box()),
                scroll_width(self.search_box(), inner_width(width)),
            ),
    {
        let inner: u16 = if width >= 2 {
            width - 2
        } else {
            0
        };
        let scroll = visual_scroll(&self.input, inner as usize);
        let cursor = visual_cursor(&self.input);
        cursor_column(left, cursor, scroll)
    }

    /// Handles one event of the application loop, and returns what is left
    /// to do.
    pub fn handle_event(&mut self, event: AppEvent<I>) -> (action: Action)
        ensures
            old(self)@.handled(event, &old(self).picker(), final(self)@, action@),
            final(self).picker() == old(self).picker(),
            !(event is Key) ==> final(self).search_box() == old(self).search_box(),
            event matches AppEvent::Key(key) ==> final(self).search_box() == old(
                self,
            ).box_after(key_pressed(key), key),
            final(self)@.query == input_text(final(self).search_box()),
    {
        match event {
            AppEvent::Key(key) => self.handle_key_event(key),
            AppEvent::Terminal => Action::Nothing,
            AppEvent::Delivery(delivery) => {
                self.handle_delivery(delivery);
                Action::Nothing
            },
            AppEvent::Editor(outcome) => {
                self.handle_editor(outcome);
                Action::Nothing
            },
            AppEvent::Closed => Action::Quit,
        }
    }

    /// Updates the state based on the key press, and returns what is left
    /// to do.
    pub fn handle_key_event(&mut self, event: KeyEvent) -> (action: Action)
        ensures
            old(self)@.keyed(key_pressed(event), &old(self).picker(), final(self)@, action@),
            final(self).picker() == old(self).picker(),
            final(self).search_box() == old(self).box_after(key_pressed(event), event),
            final(self)@.query == input_text(final(self).search_box()),
    {
        let key = key_of(&event);
        self.handle_key(key, &event)
    }

    /// Updates the state based on the key `key`, and returns what is left to
    /// do. Where the key goes to the search box, the box takes it from
    /// `event`.
    pub fn handle_key(&mut self, key: Key, event: &KeyEvent) -> (action: Action)
        ensures
            old(self)@.keyed(key, &old(self).picker(), final(self)@, action@),
            final(self).picker() == old(self).picker(),
            final(self).search_box() == old(self).box_after(key, *event),
            final(self)@.query == input_text(final(self).search_box()),
    {
        match (key, self.show_help) {
            (Key::Esc, _) => Action::Quit,
            (Key::Char('?'), _) => {
                self.show_help = !self.show_help;
                Action::Nothing
            },
            (_, true) => Action::Nothing,
            (Key::Up, false) => {
                self.results.move_up();
                Action::Nothing
            },
            (Key::Down, false) => {
                self.results.move_down();
                Action::Nothing
            },
            (Key::Enter, false) => {
                match self.results.selected() {
                    Some(item) => Action::Open(self.picker.handle_selection(item)),
                    None => Action::Nothing,
                }
            },
            (_, false) => {
                edit(&mut self.input, event);
                let query = text_of(&self.input);
                match self.picker.handle_input_change(query.as_str()) {
                    Some(arguments) => Action::Search(arguments),
                    None => {
                        self.handle_results(Vec::new());
                        Action::Nothing
                    },
                }
            },
        }
    }

    /// Sets the current search results and resets the selection: to the
    /// first item, or to none where there are no results.
    pub fn handle_results(&mut self, results: Vec<I>)
        ensures
            final(self)@ == old(self)@.with_results(results@),
            final(self).picker() == old(self).picker(),
            final(self).search_box() == old(self).search_box(),
    {
        self.results.replace(results);
        self.status = None;
    }

    /// Takes what a search has ended in: results replace the list, a
    /// failure is recorded and leaves the list as it is.
    pub fn handle_delivery(&mut self, delivery: Result<Vec<I>, PickerError>)
        ensures
            final(self)@ == old(self)@.delivered(delivery_of(delivery)),
            final(self).picker() == old(self).picker(),
            final(self).search_box() == old(self).search_box(),
    {
        match delivery {
            Ok(results) => self.handle_results(results),
            Err(error) => self.handle_failure(error),
        }
    }

    /// Takes what became of the attempt to start the editor: a failure is
    /// recorded, and the application goes on.
    pub fn handle_editor(&mut self, outcome: EditorOutcome)
        ensures
            final(self)@ == old(self)@.launched(outcome),
            final(self).picker() == old(self).picker(),
            final(self).search_box() == old(self).search_box(),
    {
        match outcome {
            EditorOutcome::Started => {},
            EditorOutcome::NotFound => {
                self.handle_failure(PickerError::ToolNotInstalled(Tool::Editor));
            },
            EditorOutcome::Failed(reason) => {
                self.handle_failure(PickerError::EditorFailed(reason));
            },
        }
    }

    /// Records how far the results list was scrolled when it was last
    /// drawn: the item with the index `offset` was the first in sight.
    pub fn handle_scroll(&mut self, offset: usize)
        ensures
            final(self)@ == old(self)@.with_offset(offset),
            final(self).picker() == old(self).picker(),
            final(self).search_box() == old(self).search_box(),
    {
        self.results.scroll_to(offset);
    }

    /// Records that a search has failed. The results stay as they are.
    pub fn handle_failure(&mut self, error: PickerError)
        ensures
            final(self)@ == old(self)@.with_failure(error@),
            final(self).picker() == old(self).picker(),
            final(self).search_box() == old(self).search_box(),
    {
        self.status = Some(error);
    }
}

} // verus!
