//! Discovery and filtered search of chat session files kept in per-workspace
//! storage directories.
//!
//! The library works on plain values: what was found on disk is handed in,
//! and what is to be shown is handed back. It reads no file and prints
//! nothing.
//!
//! - `workspace` tells which workspaces a search looks into, labels them and
//!   lists their session files as candidates.
//! - `search` scans the candidates: date filter, title, classification
//!   against the pattern, counts.
//! - `rank` orders the matches newest first and cuts them to the limit.
//! - `title` takes the title of a session out of its raw text.
//! - `commands` works out what the listing and lookup commands show.
//! - `text`, `path`, `timestamp` and `render` hold what the others need of
//!   strings, paths, dates and table cells.
pub mod commands;
pub mod path;
pub mod rank;
pub mod render;
pub mod result;
pub mod search;
pub mod session;
pub mod text;
pub mod timestamp;
pub mod title;
pub mod workspace;

pub use commands::{
    find_sessions, find_workspaces, list_sessions, list_workspaces, show_session, show_workspace,
};
pub use render::truncate_string;
pub use search::find_sessions_filtered;
pub use title::{extract_title_fast, extract_title_from_content};
