//! The current memo: which memo the note on screen belongs to, and what
//! saving it does.

use vstd::prelude::*;
use crate::clock::get_timestamp;
use crate::history::{save_entry, saved, HISTORY_LIMIT};
use crate::memo::{entries_view, MemoEntry, MemoEntryView};
use crate::text::{blank, decimal, decimal_string, is_blank};

verus! {

/// The id under which a note is saved: that of the current memo, or, where no
/// memo is current, the numeral of the second `id_time`.
pub open spec fn memo_id_for(current: Option<Seq<char>>, id_time: u64) -> Seq<char> {
    match current {
        Some(id) => id,
        None => decimal(id_time as nat),
    }
}

/// The history after the note `content` was saved under `memo_id` at second
/// `save_time`: a blank note leaves the history as it is.
pub open spec fn history_after_save(
    history: Seq<MemoEntryView>,
    memo_id: Seq<char>,
    content: Seq<char>,
    save_time: u64,
) -> Seq<MemoEntryView> {
    if blank(content) {
        history
    } else {
        saved(history, memo_id, content, save_time)
    }
}

/// The id of the current memo, which becomes the memo named by the second
/// `id_time` where none was current.
pub fn memo_id_for_save_at(current_memo_id: &mut Option<String>, id_time: u64) -> (memo_id: String)
    ensures
        memo_id@ == memo_id_for(old(current_memo_id).deep_view(), id_time),
        final(current_memo_id).deep_view() == Some(memo_id@),
{
    match current_memo_id {
        Some(id) => id.clone(),
        None => {
            let new_id = decimal_string(id_time);
            *current_memo_id = Some(new_id.clone());
            new_id
        },
    }
}

/// The id of the current memo, which becomes the memo named by the second
/// that the clock shows where none was current.
pub fn memo_id_for_save(current_memo_id: &mut Option<String>) -> (memo_id: String)
    ensures
        final(current_memo_id).deep_view() == Some(memo_id@),
        match old(current_memo_id).deep_view() {
            Some(id) => memo_id@ == id,
            None => exists|id_time: u64| memo_id@ == #[trigger] decimal(id_time as nat),
        },
{
    match current_memo_id {
        Some(id) => id.clone(),
        None => {
            let id_time: u64 = get_timestamp();
            memo_id_for_save_at(current_memo_id, id_time)
        },
    }
}

/// What a save of the note `content` asks of the history: nothing where the
/// note is blank, else to save `content` under the id of the current memo. A
/// memo becomes current where none was, named by the second `id_time`.
pub fn note_to_save_at(current_memo_id: &mut Option<String>, content: String, id_time: u64) -> (request:
    Option<(String, String)>)
    ensures
        final(current_memo_id).deep_view() == Some(
            memo_id_for(old(current_memo_id).deep_view(), id_time),
        ),
        match request {
            Some((memo_id, text)) => {
                &&& !blank(content@)
                &&& memo_id@ == memo_id_for(old(current_memo_id).deep_view(), id_time)
                &&& text@ == content@
            },
            None => blank(content@),
        },
{
    let memo_id = memo_id_for_save_at(current_memo_id, id_time);
    if is_blank(content.as_str()) {
        None
    } else {
        Some((memo_id, content))
    }
}

/// What a save of the note `content` asks of the history, as
/// [`note_to_save_at`] says, at the second that the clock shows.
pub fn note_to_save(current_memo_id: &mut Option<String>, content: String) -> (request: Option<
    (String, String),
>)
    ensures
        exists|id_time: u64|
            {
                &&& final(current_memo_id).deep_view() == Some(
                    #[trigger] memo_id_for(old(current_memo_id).deep_view(), id_time),
                )
                &&& match request {
                    Some((memo_id, text)) => {
                        &&& !blank(content@)
                        &&& memo_id@ == memo_id_for(old(current_memo_id).deep_view(), id_time)
                        &&& text@ == content@
                    },
                    None => blank(content@),
                }
            },
{
    let id_time: u64 = get_timestamp();
    note_to_save_at(current_memo_id, content, id_time)
}

/// Saves the note: `content` becomes the stored note, a memo becomes current
/// where none was (named by the second `id_time`), and unless `content` is
/// blank the current memo is saved to the history at second `save_time`.
pub fn save_note_to_history_at(
    note: &mut String,
    current_memo_id: &mut Option<String>,
    history: &mut Vec<MemoEntry>,
    content: String,
    id_time: u64,
    save_time: u64,
)
    ensures
        final(note)@ == content@,
        final(current_memo_id).deep_view() == Some(
            memo_id_for(old(current_memo_id).deep_view(), id_time),
        ),
        entries_view(final(history)@) == history_after_save(
            entries_view(old(history)@),
            memo_id_for(old(current_memo_id).deep_view(), id_time),
            content@,
            save_time,
        ),
        !blank(content@) ==> final(history).len() <= HISTORY_LIMIT,
{
    *note = content.clone();
    match note_to_save_at(current_memo_id, content, id_time) {
        Some((memo_id, text)) => save_entry(history, memo_id, text, save_time),
        None => {},
    }
}

/// Saves the note as [`save_note_to_history_at`] does, at the seconds that the
/// clock shows.
pub fn save_note_to_history(
    note: &mut String,
    current_memo_id: &mut Option<String>,
    history: &mut Vec<MemoEntry>,
    content: String,
)
    ensures
        final(note)@ == content@,
        exists|id_time: u64, save_time: u64|
            {
                &&& final(current_memo_id).deep_view() == Some(
                    #[trigger] memo_id_for(old(current_memo_id).deep_view(), id_time),
                )
                &&& entries_view(final(history)@) == #[trigger] history_after_save(
                    entries_view(old(history)@),
                    memo_id_for(old(current_memo_id).deep_view(), id_time),
                    content@,
                    save_time,
                )
            },
        !blank(content@) ==> final(history).len() <= HISTORY_LIMIT,
{
    let id_time: u64 = get_timestamp();
    let save_time: u64 = get_timestamp();
    save_note_to_history_at(note, current_memo_id, history, content, id_time, save_time);
}

/// Starts a new memo, named by the second `now`: it becomes the current memo
/// and the stored note becomes empty. Returns the new id.
pub fn create_new_memo_at(current_memo_id: &mut Option<String>, note: &mut String, now: u64) -> (new_id:
    String)
    ensures
        new_id@ == decimal(now as nat),
        final(current_memo_id).deep_view() == Some(new_id@),
        final(note)@ == Seq::<char>::empty(),
{
    let new_id = decimal_string(now);
    *current_memo_id = Some(new_id.clone());
    *note = String::new();
    new_id
}

/// Starts a new memo as [`create_new_memo_at`] does, named by the second that
/// the clock shows.
pub fn create_new_memo(current_memo_id: &mut Option<String>, note: &mut String) -> (new_id: String)
    ensures
        exists|now: u64| new_id@ == #[trigger] decimal(now as nat),
        final(current_memo_id).deep_view() == Some(new_id@),
        final(note)@ == Seq::<char>::empty(),
{
    let now: u64 = get_timestamp();
    create_new_memo_at(current_memo_id, note, now)
}

/// The id of the current memo, if one is current.
pub fn get_current_memo_id(current_memo_id: &Option<String>) -> (id: Option<String>)
    ensures
        id.deep_view() == current_memo_id.deep_view(),
{
    match current_memo_id {
        Some(id) => Some(id.clone()),
        None => None,
    }
}

/// Empties the stored note.
pub fn clear_note(note: &mut String)
    ensures
        final(note)@ == Seq::<char>::empty(),
{
    *note = String::new();
}

} // verus!
