//! The record-keeping core of a memo application with sticky-note windows.
//!
//! The application keeps one note on screen, a history of memos, a trash and
//! an archive, a set of sticky notes, font settings and a global keyboard
//! shortcut. This library holds the rules by which each command changes those
//! records; reading and writing files and driving windows is left to the
//! caller. Every function states what it returns and changes, and the
//! statement is proved.

pub mod clock;
pub mod errors;
pub mod events;
pub mod fonts;
pub mod history;
pub mod memo;
pub mod note;
pub mod notebook;
pub mod shortcut;
pub mod sticky;
pub mod sticky_commands;
pub mod store;
pub mod text;
