//! The search engine behind an interactive picker: it turns the grouped,
//! context-annotated output of a text search tool into match records, decides
//! what to do on each key press, and keeps the result list and its selection.
//!
//! Nothing here touches the terminal or starts a process. The application
//! around this library reads the keys, starts the programs and draws the
//! frames; this library says which program to start with which arguments,
//! what its output means, and what there is to draw.

pub mod app;
pub mod config;
pub mod input;
pub mod parser;
pub mod pickers;
pub mod rg_item;
pub mod selection;
pub mod text;
pub mod tui;

pub use app::App;
pub use config::Config;
