//! Browsing, staging and discussing Git diffs in a terminal.

pub mod app;
pub mod ask_ai;
pub mod config;
pub mod custom_command;
pub mod diff_render;
pub mod editor;
pub mod git;
pub mod input;
pub mod keybind;
pub mod laws;
pub mod line;
pub mod model;
pub mod patch;
pub mod path_set;
pub mod process;
pub mod quoting;
pub mod review_source;
pub mod rows;
pub mod runtime;
pub mod scroll_text;
pub mod search;
pub mod selection;
pub mod style;
pub mod syntax;
pub mod text;
pub mod theme;
pub mod ui;
pub mod viewport;
