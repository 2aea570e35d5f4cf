//! Laws of what the operations are for, stated of their inputs and results.

pub mod answers;
pub mod characters;
pub mod frame;
pub mod git;
pub mod hunks;
pub mod keys;
pub mod marking;
pub mod names;
pub mod pane;
pub mod panels;
pub mod patches;
pub mod rendering;
pub mod session;
pub mod settings;
pub mod texts;
