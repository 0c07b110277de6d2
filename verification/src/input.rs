//! The search box and the keyboard: the input field of `tui-input` and the
//! key events of `crossterm`, as far as the picker looks into them.

use crossterm::event::{Event, KeyCode, KeyEvent};
use tui_input::backend::crossterm::EventHandler;
use tui_input::Input;
use vstd::prelude::*;

verus! {

/// `tui_input::Input`: a line of text under edit, with a cursor in it.
/// Nothing inside it is seen here.
#[verifier::external_type_specification]
#[verifier::external_body]
pub struct ExInput(tui_input::Input);

/// `crossterm::event::KeyEvent`: a key with its modifiers, as the terminal
/// reports it. Nothing inside it is seen here.
#[verifier::external_type_specification]
#[verifier::external_body]
pub struct ExKeyEvent(crossterm::event::KeyEvent);

/// The keys that the picker tells apart.
#[derive(Clone, Copy, Debug, PartialEq, Eq, Structural)]
pub enum Key {
    Esc,
    Up,
    Down,
    Enter,
    Char(char),
    Other,
}

/// The key that a key event reports in its field `code`, as far as the
/// picker tells keys apart.
pub uninterp spec fn key_pressed(event: KeyEvent) -> Key;

/// The text that an input field holds: what `Input::value` returns.
pub uninterp spec fn input_text(input: Input) -> Seq<char>;

/// How many columns the text before the cursor of an input field takes:
/// what `Input::visual_cursor` returns.
pub uninterp spec fn cursor_width(input: Input) -> usize;

/// How many columns of an input field are scrolled out of sight on the left
/// when `width` columns are there to show it: what `Input::visual_scroll`
/// returns.
pub uninterp spec fn scroll_width(input: Input, width: usize) -> usize;

/// The input field after it has taken a key event: what
/// `EventHandler::handle_event` leaves of the field that it is called on.
pub uninterp spec fn edited(input: Input, event: KeyEvent) -> Input;

/// Reads the field `code` of a `crossterm` key event: the escape key, the
/// arrows up and down, the enter key and the character keys are told apart,
/// every other key is `Key::Other`. Modifiers are not looked at.
#[verifier::external_body]
pub(crate) fn key_of(event: &KeyEvent) -> (key: Key)
    ensures
        key == key_pressed(*event),
{
    match event.code {
        KeyCode::Esc => Key::Esc,
        KeyCode::Up => Key::Up,
        KeyCode::Down => Key::Down,
        KeyCode::Enter => Key::Enter,
        KeyCode::Char(c) => Key::Char(c),
        _ => Key::Other,
    }
}

/// `Input::default` of `tui-input`: a field that holds no text.
#[verifier::external_body]
pub(crate) fn empty_input() -> (input: Input)
    ensures
        input_text(input) == Seq::<char>::empty(),
{
    Input::default()
}

/// `Input::value` of `tui-input`: the text that the field holds, copied.
#[verifier::external_body]
pub(crate) fn text_of(input: &Input) -> (text: String)
    ensures
        text@ == input_text(*input),
{
    input.value().to_owned()
}

/// `Input::visual_cursor` of `tui-input`: the width in columns of the text
/// before the cursor.
#[verifier::external_body]
pub(crate) fn visual_cursor(input: &Input) -> (columns: usize)
    ensures
        columns == cursor_width(*input),
{
    input.visual_cursor()
}

/// `Input::visual_scroll` of `tui-input`: the width in columns of the text
/// that is scrolled out on the left when the field is `width` columns wide.
#[verifier::external_body]
pub(crate) fn visual_scroll(input: &Input, width: usize) -> (columns: usize)
    ensures
        columns == scroll_width(*input, width),
{
    input.visual_scroll(width)
}

/// `EventHandler::handle_event` of `tui-input`, on a key event: the field
/// takes the key as an edit, a move of its cursor, or not at all. What the
/// field is afterwards depends on the field and the event alone; what text
/// it then holds is not said here.
#[verifier::external_body]
pub(crate) fn edit(input: &mut Input, event: &KeyEvent)
    ensures
        *final(input) == edited(*old(input), *event),
{
    input.handle_event(&Event::Key(*event));
}

} // verus!
