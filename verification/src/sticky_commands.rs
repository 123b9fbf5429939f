//! The commands on the collection of sticky notes.

use vstd::prelude::*;
use vstd::string::StringExecFns;
use crate::clock::get_timestamp;
use crate::errors::{MemoError, MemoErrorView};
use crate::sticky::{
    by_id, ids_of, shown, well_kept, Position, Size, StickyNote, StickyNoteView, StickyNotes,
    OPACITY_LIMIT,
};
use crate::text::{decimal, decimal_string};

verus! {

/// The id of the sticky note made at second `id_time`.
pub open spec fn sticky_id(id_time: u64) -> Seq<char> {
    "sticky_"@ + decimal(id_time as nat)
}

/// How far a new note is set off from the default corner when `count` notes
/// exist: 30 for each of them, starting over at 300.
pub open spec fn cascade_offset(count: nat) -> int {
    ((count * 30) % 300) as int
}

/// The coordinate that was asked for, or the default corner set off by
/// `offset`.
pub open spec fn coordinate(asked: Option<i32>, offset: int) -> int {
    match asked {
        Some(value) => value as int,
        None => 100 + offset,
    }
}

/// The note that is made under `id` at second `now`, when `count` notes exist.
pub open spec fn new_note(
    id: Seq<char>,
    count: nat,
    x: Option<i32>,
    y: Option<i32>,
    color: Option<Seq<char>>,
    now: u64,
) -> StickyNoteView {
    StickyNoteView {
        id,
        content: Seq::empty(),
        position: Position {
            x: coordinate(x, cascade_offset(count)) as i32,
            y: coordinate(y, cascade_offset(count)) as i32,
        },
        size: Size { width: 350, height: 250 },
        color: match color {
            Some(name) => name,
            None => "yellow"@,
        },
        opacity: OPACITY_LIMIT,
        created_at: now,
        updated_at: now,
        is_visible: true,
    }
}

/// The opacity that is stored where `asked` is asked for: `asked`, or
/// [`OPACITY_LIMIT`] where more is asked for.
pub open spec fn stored_opacity(asked: u32) -> u32 {
    if asked > OPACITY_LIMIT {
        OPACITY_LIMIT
    } else {
        asked
    }
}

/// `note` with each field that was given put in place of its own, an opacity
/// above [`OPACITY_LIMIT`] counting as that limit, and `now` as the second of
/// its last change.
pub open spec fn updated(
    note: StickyNoteView,
    content: Option<Seq<char>>,
    position: Option<Position>,
    size: Option<Size>,
    color: Option<Seq<char>>,
    opacity: Option<u32>,
    now: u64,
) -> StickyNoteView {
    StickyNoteView {
        id: note.id,
        content: match content {
            Some(text) => text,
            None => note.content,
        },
        position: match position {
            Some(place) => place,
            None => note.position,
        },
        size: match size {
            Some(extent) => extent,
            None => note.size,
        },
        color: match color {
            Some(name) => name,
            None => note.color,
        },
        opacity: match opacity {
            Some(percent) => stored_opacity(percent),
            None => note.opacity,
        },
        created_at: note.created_at,
        updated_at: now,
        is_visible: note.is_visible,
    }
}

/// The title of the window that shows the note `note_id`.
pub fn window_title(note_id: &str) -> (title: String)
    ensures
        title@ == "UpMemo - "@ + note_id@,
{
    String::from_str("UpMemo - ").concat(note_id)
}

/// The offset of a new note when `count` notes exist.
fn offset_for(count: usize) -> (offset: i32)
    ensures
        offset == cascade_offset(count as nat),
        0 <= offset < 300,
{
    let step: usize = count % 10;
    assert((count * 30) % 300 == (count % 10) * 30) by (nonlinear_arith);
    (step * 30) as i32
}

/// Makes a note under the id of second `id_time`, created at second `now`,
/// and puts it into the collection, in place of a note with the same id.
/// Returns the note.
pub fn create_sticky_note_at(
    notes: &mut StickyNotes,
    x: Option<i32>,
    y: Option<i32>,
    color: Option<String>,
    id_time: u64,
    now: u64,
) -> (made: StickyNote)
    ensures
        made@ == new_note(sticky_id(id_time), old(notes)@.len(), x, y, color.deep_view(), now),
        final(notes)@ == old(notes)@.insert(sticky_id(id_time), made@),
        well_kept(final(notes)@),
{
    let note_id = String::from_str("sticky_").concat(decimal_string(id_time).as_str());
    let offset: i32 = offset_for(notes.len());
    let note = StickyNote {
        id: note_id,
        content: String::new(),
        position: Position {
            x: match x {
                Some(value) => value,
                None => 100 + offset,
            },
            y: match y {
                Some(value) => value,
                None => 100 + offset,
            },
        },
        size: Size { width: 350, height: 250 },
        color: match color {
            Some(name) => name,
            None => String::from_str("yellow"),
        },
        opacity: OPACITY_LIMIT,
        created_at: now,
        updated_at: now,
        is_visible: true,
    };
    let made = note.clone();
    notes.insert(note);
    made
}

/// Makes a note as [`create_sticky_note_at`] does, at the seconds that the
/// clock shows.
pub fn create_sticky_note(
    notes: &mut StickyNotes,
    x: Option<i32>,
    y: Option<i32>,
    color: Option<String>,
) -> (made: StickyNote)
    ensures
        exists|id_time: u64, now: u64|
            {
                &&& made@ == #[trigger] new_note(
                    sticky_id(id_time),
                    old(notes)@.len(),
                    x,
                    y,
                    color.deep_view(),
                    now,
                )
                &&& final(notes)@ == old(notes)@.insert(sticky_id(id_time), made@)
            },
        well_kept(final(notes)@),
{
    let id_time: u64 = get_timestamp();
    let now: u64 = get_timestamp();
    create_sticky_note_at(notes, x, y, color, id_time, now)
}

/// The notes of the collection, each once.
pub fn get_all_sticky_notes(notes: &StickyNotes) -> (all: Vec<StickyNote>)
    ensures
        ids_of(all@).no_duplicates(),
        by_id(all@) == notes@,
{
    notes.to_vec()
}

/// Changes the fields of the note `note_id` that are given, and records
/// `now` as the second of the change. An opacity above [`OPACITY_LIMIT`] is
/// stored as that limit. Fails, and changes nothing, where the collection
/// holds no such note.
pub fn update_sticky_note_at(
    notes: &mut StickyNotes,
    note_id: &String,
    content: Option<String>,
    position: Option<Position>,
    size: Option<Size>,
    color: Option<String>,
    opacity: Option<u32>,
    now: u64,
) -> (outcome: Result<(), MemoError>)
    ensures
        old(notes)@.contains_key(note_id@) ==> outcome is Ok && final(notes)@ == old(notes)@.insert(
            note_id@,
            updated(
                old(notes)@[note_id@],
                content.deep_view(),
                position,
                size,
                color.deep_view(),
                opacity,
                now,
            ),
        ),
        !old(notes)@.contains_key(note_id@) ==> final(notes)@ == old(notes)@ && (outcome matches Err(
            error,
        ) && error@ == MemoErrorView::StickyNoteNotFound(note_id@)),
        well_kept(final(notes)@),
{
    match notes.remove(note_id) {
        Some(found) => {
            let mut note = found;
            if let Some(text) = content {
                note.content = text;
            }
            if let Some(place) = position {
                note.position = place;
            }
            if let Some(extent) = size {
                note.size = extent;
            }
            if let Some(name) = color {
                note.color = name;
            }
            if let Some(percent) = opacity {
                note.opacity = if percent > OPACITY_LIMIT {
                    OPACITY_LIMIT
                } else {
                    percent
                };
            }
            note.updated_at = now;
            notes.insert(note);
            assert(notes@ =~= old(notes)@.insert(note_id@, note@));
            Ok(())
        },
        None => {
            assert(notes@ =~= old(notes)@);
            Err(MemoError::StickyNoteNotFound(note_id.clone()))
        },
    }
}

/// Changes a note as [`update_sticky_note_at`] does, at the second that the
/// clock shows.
pub fn update_sticky_note(
    notes: &mut StickyNotes,
    note_id: &String,
    content: Option<String>,
    position: Option<Position>,
    size: Option<Size>,
    color: Option<String>,
    opacity: Option<u32>,
) -> (outcome: Result<(), MemoError>)
    ensures
        old(notes)@.contains_key(note_id@) ==> outcome is Ok && exists|now: u64|
            final(notes)@ == old(notes)@.insert(
                note_id@,
                #[trigger] updated(
                    old(notes)@[note_id@],
                    content.deep_view(),
                    position,
                    size,
                    color.deep_view(),
                    opacity,
                    now,
                ),
            ),
        !old(notes)@.contains_key(note_id@) ==> final(notes)@ == old(notes)@ && (outcome matches Err(
            error,
        ) && error@ == MemoErrorView::StickyNoteNotFound(note_id@)),
        well_kept(final(notes)@),
{
    let now: u64 = get_timestamp();
    update_sticky_note_at(notes, note_id, content, position, size, color, opacity, now)
}

/// Marks the note `note_id` as hidden; its other fields stay. Returns whether
/// the collection holds such a note.
pub fn close_sticky_note(notes: &mut StickyNotes, note_id: &String) -> (known: bool)
    ensures
        known == old(notes)@.contains_key(note_id@),
        known ==> final(notes)@ == old(notes)@.insert(
            note_id@,
            shown(old(notes)@[note_id@], false),
        ),
        !known ==> final(notes)@ == old(notes)@,
        well_kept(final(notes)@),
{
    match notes.remove(note_id) {
        Some(found) => {
            let mut note = found;
            note.is_visible = false;
            notes.insert(note);
            assert(notes@ =~= old(notes)@.insert(note_id@, note@));
            true
        },
        None => {
            assert(notes@ =~= old(notes)@);
            false
        },
    }
}

/// Takes the note `note_id` out of the collection. Returns whether the
/// collection held such a note.
pub fn delete_sticky_note(notes: &mut StickyNotes, note_id: &String) -> (known: bool)
    ensures
        known == old(notes)@.contains_key(note_id@),
        final(notes)@ == old(notes)@.remove(note_id@),
        well_kept(final(notes)@),
{
    notes.remove(note_id).is_some()
}

/// Marks every note as shown, or every note as hidden.
pub fn toggle_all_sticky_notes(notes: &mut StickyNotes, visible: bool)
    ensures
        final(notes)@ == old(notes)@.map_values(|note: StickyNoteView| shown(note, visible)),
        well_kept(final(notes)@),
{
    notes.set_all_visible(visible);
}

/// Flips all windows together, by the state of the main window: where the
/// main window is known to be showing, everything is to be hidden, else
/// everything is to be shown. Marks every note accordingly and returns
/// whether the windows are to be hidden.
pub fn toggle_windows(notes: &mut StickyNotes, main_window_visible: Option<bool>) -> (hiding: bool)
    ensures
        hiding == (main_window_visible == Some(true)),
        final(notes)@ == old(notes)@.map_values(|note: StickyNoteView| shown(note, !hiding)),
        well_kept(final(notes)@),
{
    let hiding = match main_window_visible {
        Some(visible) => visible,
        None => false,
    };
    notes.set_all_visible(!hiding);
    hiding
}

} // verus!
