//! Rows of rendered text.

pub mod diff;
pub mod file_summary;
pub mod help;
pub mod intraline;
pub mod markdown;
pub mod output;
pub mod sidebar;
pub mod status;
pub mod text;
pub mod tree;
