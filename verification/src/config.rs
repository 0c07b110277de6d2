//! User configuration: the colors of the interface, each with a default.

use vstd::prelude::*;

verus! {

/// A terminal color.
#[derive(Clone, Copy, Debug, PartialEq, Eq, Structural)]
pub enum Color {
    Reset,
    Black,
    Red,
    Green,
    Yellow,
    Blue,
    Magenta,
    Cyan,
    Gray,
    DarkGray,
    LightRed,
    LightGreen,
    LightYellow,
    LightBlue,
    LightMagenta,
    LightCyan,
    White,
    Rgb(u8, u8, u8),
    Indexed(u8),
}

/// The colors that the user has chosen; `None` leaves the default in place.
#[derive(Debug)]
pub struct ConfigColors {
    pub base: Option<Color>,
    pub filepath: Option<Color>,
    pub selection: Option<Color>,
}

/// The user's configuration.
#[derive(Debug)]
pub struct Config {
    pub colors: ConfigColors,
}

/// The color that stands where the user has chosen none.
pub open spec fn color_or(chosen: Option<Color>, default: Color) -> Color {
    match chosen {
        Some(color) => color,
        None => default,
    }
}

impl Default for ConfigColors {
    fn default() -> (colors: Self)
        ensures
            colors == (ConfigColors { base: None, filepath: None, selection: None }),
    {
        ConfigColors { base: None, filepath: None, selection: None }
    }
}

impl Default for Config {
    fn default() -> (config: Self)
        ensures
            config == (Config {
                colors: ConfigColors { base: None, filepath: None, selection: None },
            }),
    {
        Config { colors: ConfigColors { base: None, filepath: None, selection: None } }
    }
}

impl Config {
    /// Returns the base UI color. Used for borders, titles, and other general UI elements.
    /// Defaults to [Color::LightCyan].
    pub fn base_color(&self) -> (color: Color)
        ensures
            color == color_or(self.colors.base, Color::LightCyan),
    {
        match self.colors.base {
            Some(color) => color,
            None => Color::LightCyan,
        }
    }

    /// Returns the filepath color. Used for the filepath in the results list.
    /// Defaults to [Color::LightBlue].
    pub fn filepath_color(&self) -> (color: Color)
        ensures
            color == color_or(self.colors.filepath, Color::LightBlue),
    {
        match self.colors.filepath {
            Some(color) => color,
            None => Color::LightBlue,
        }
    }

    /// Returns the selection color. Used for the currently selected item in the results list.
    /// Defaults to [Color::Yellow].
    pub fn selection_color(&self) -> (color: Color)
        ensures
            color == color_or(self.colors.selection, Color::Yellow),
    {
        match self.colors.selection {
            Some(color) => color,
            None => Color::Yellow,
        }
    }
}

} // verus!
