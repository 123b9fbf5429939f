//! The record files: their names, and what reading one of them yields.

use vstd::prelude::*;
use crate::memo::MemoEntry;
use crate::sticky::{StickyNoteView, StickyNotes};

verus! {

/// The records that are kept on disk, one file each, all in the
/// application's data directory.
#[derive(Clone, Copy, Debug, PartialEq, Eq, Structural)]
pub enum Record {
    Note,
    History,
    Trash,
    Archive,
    FontConfig,
    StickyNotes,
}

/// The name of the file that holds `record`.
pub open spec fn file_name_of(record: Record) -> Seq<char> {
    match record {
        Record::Note => "note.txt"@,
        Record::History => "history.json"@,
        Record::Trash => "trash.json"@,
        Record::Archive => "archive.json"@,
        Record::FontConfig => "font_config.json"@,
        Record::StickyNotes => "sticky_notes.json"@,
    }
}

impl Record {
    /// The name of the file that holds this record.
    pub fn file_name(self) -> (name: &'static str)
        ensures
            name@ == file_name_of(self),
    {
        match self {
            Record::Note => "note.txt",
            Record::History => "history.json",
            Record::Trash => "trash.json",
            Record::Archive => "archive.json",
            Record::FontConfig => "font_config.json",
            Record::StickyNotes => "sticky_notes.json",
        }
    }
}

/// What reading a record file yielded.
#[derive(Debug)]
pub enum Loaded<T> {
    /// There is no such file.
    Missing,
    /// The file holds something else than such a record; the parser's account
    /// of it is held here.
    Malformed(String),
    /// The file holds this record.
    Parsed(T),
}

/// The memo list that a read yielded: the list in the file, and the empty
/// list where the file is missing or holds something else.
pub fn entries_or_empty(loaded: Loaded<Vec<MemoEntry>>) -> (list: Vec<MemoEntry>)
    ensures
        match loaded {
            Loaded::Parsed(stored) => list == stored,
            _ => list@ == Seq::<MemoEntry>::empty(),
        },
{
    match loaded {
        Loaded::Parsed(stored) => stored,
        _ => Vec::new(),
    }
}

/// The sticky notes that a read yielded: the notes in the file, and none
/// where the file is missing or holds something else.
pub fn sticky_notes_or_empty(loaded: Loaded<StickyNotes>) -> (notes: StickyNotes)
    ensures
        match loaded {
            Loaded::Parsed(stored) => notes == stored,
            _ => notes@ == Map::<Seq<char>, StickyNoteView>::empty(),
        },
{
    match loaded {
        Loaded::Parsed(stored) => stored,
        _ => StickyNotes::new(),
    }
}

/// The note that a read yielded: the text in the file, and the empty text
/// where there is no file.
pub fn note_or_empty(stored: Option<String>) -> (note: String)
    ensures
        match stored {
            Some(text) => note == text,
            None => note@ == Seq::<char>::empty(),
        },
{
    match stored {
        Some(text) => text,
        None => String::new(),
    }
}

} // verus!
