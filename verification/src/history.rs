//! The commands that save a memo to the history and move entries between the
//! history, the trash and the archive.
//!
//! Each command is stated over the values of the lists it touches. A move
//! takes the first entry that carries the id, removes every entry with that id
//! from the source, puts the one taken at the head of the destination and
//! cuts the destination to its limit: 100 entries for the history, 50 for the
//! trash, none for the archive.

use vstd::prelude::*;
use crate::clock::get_timestamp;
use crate::errors::MemoError;
use crate::memo::{
    cap_entries, capped, entries_view, find_entry, first_with_id, has_id, insert_at_head,
    lemma_first_with_id, lemma_without_id, lemma_without_id_of_head, remove_entries_with_id,
    with_head, without_id, MemoEntry, MemoEntryView,
};

verus! {

/// The history keeps at most this many entries after a save.
pub const HISTORY_LIMIT: usize = 100;

/// The trash keeps at most this many entries.
pub const TRASH_LIMIT: usize = 50;

/// The history after the memo `id` was saved with `content` at second `now`:
/// its entry is rewritten where it stands, or a new entry is put in front, and
/// the list is cut to [`HISTORY_LIMIT`].
pub open spec fn saved(
    history: Seq<MemoEntryView>,
    id: Seq<char>,
    content: Seq<char>,
    now: u64,
) -> Seq<MemoEntryView> {
    let entry = MemoEntryView { id, content, timestamp: now };
    capped(
        match first_with_id(history, id) {
            Some(i) => history.update(i, entry),
            None => with_head(history, entry),
        },
        HISTORY_LIMIT as nat,
    )
}

/// The destination of a move: the entry taken from `source` stands in front of
/// what `destination` held; nothing changes where `source` has no such entry.
pub open spec fn received(
    source: Seq<MemoEntryView>,
    destination: Seq<MemoEntryView>,
    id: Seq<char>,
) -> Seq<MemoEntryView> {
    match first_with_id(source, id) {
        Some(i) => with_head(destination, source[i]),
        None => destination,
    }
}

/// The source and the destination after the entry `id` has moved from the
/// one to the head of the other: the first entry of `source` that carries the
/// id is the one that moves, and every entry that carries it leaves `source`.
/// Where no entry carries the id, both lists stay as they are.
pub open spec fn moved(
    source: Seq<MemoEntryView>,
    destination: Seq<MemoEntryView>,
    id: Seq<char>,
) -> (Seq<MemoEntryView>, Seq<MemoEntryView>) {
    (without_id(source, id), received(source, destination, id))
}

/// The history and the trash after the history entry `id` has moved to the
/// trash, which is then cut to [`TRASH_LIMIT`]. Where no entry carries the id,
/// both lists stay as they are.
pub open spec fn trashed(
    history: Seq<MemoEntryView>,
    trash: Seq<MemoEntryView>,
    id: Seq<char>,
) -> (Seq<MemoEntryView>, Seq<MemoEntryView>) {
    if has_id(history, id) {
        (without_id(history, id), capped(received(history, trash, id), TRASH_LIMIT as nat))
    } else {
        (history, trash)
    }
}

/// The source and the history after the entry `id` of `source` has moved back
/// to the head of the history, which is then cut to [`HISTORY_LIMIT`]. Where
/// no entry carries the id, both lists stay as they are.
pub open spec fn restored(
    source: Seq<MemoEntryView>,
    history: Seq<MemoEntryView>,
    id: Seq<char>,
) -> (Seq<MemoEntryView>, Seq<MemoEntryView>) {
    if has_id(source, id) {
        (without_id(source, id), capped(received(source, history, id), HISTORY_LIMIT as nat))
    } else {
        (source, history)
    }
}

/// The entry that a move takes: the first of `source` that carries `id`.
pub open spec fn taken(source: Seq<MemoEntryView>, id: Seq<char>) -> MemoEntryView
    recommends
        has_id(source, id),
{
    source[first_with_id(source, id).unwrap()]
}

/// After a move the source holds no entry with the id, and the entry taken
/// stands at the head of the destination as it was, with what the destination
/// held behind it.
pub proof fn lemma_moved(source: Seq<MemoEntryView>, destination: Seq<MemoEntryView>, id: Seq<char>)
    requires
        has_id(source, id),
    ensures
        !has_id(moved(source, destination, id).0, id),
        moved(source, destination, id).0.len() < source.len(),
        moved(source, destination, id).1.len() == destination.len() + 1,
        moved(source, destination, id).1[0] == taken(source, id),
        moved(source, destination, id).1.skip(1) == destination,
        taken(source, id).id == id,
{
    lemma_first_with_id(source, id);
    lemma_without_id(source, id);
    assert(moved(source, destination, id).1.skip(1) =~= destination);
}

/// An entry that moves to the trash and back stands at the head of the
/// history, in front of the other entries, and the trash holds what it held
/// before. This needs a trash below its limit that holds no entry with the id.
pub proof fn lemma_trashed_then_restored(
    history: Seq<MemoEntryView>,
    trash: Seq<MemoEntryView>,
    id: Seq<char>,
)
    requires
        has_id(history, id),
        !has_id(trash, id),
        trash.len() < TRASH_LIMIT,
    ensures
        restored(trashed(history, trash, id).1, trashed(history, trash, id).0, id) == (
            trash,
            capped(
                with_head(without_id(history, id), taken(history, id)),
                HISTORY_LIMIT as nat,
            ),
        ),
{
    let entry = taken(history, id);
    let in_trash = trashed(history, trash, id).1;
    lemma_first_with_id(history, id);
    assert(in_trash == with_head(trash, entry));
    assert(in_trash[0] == entry);
    assert(has_id(in_trash, id));
    assert(first_with_id(in_trash, id) == Some(0int));
    lemma_without_id_of_head(trash, entry, id);
    lemma_without_id(trash, id);
}

/// Saves the memo `memo_id` with `content` at second `now`.
pub fn save_entry(history: &mut Vec<MemoEntry>, memo_id: String, content: String, now: u64)
    ensures
        entries_view(final(history)@) == saved(entries_view(old(history)@), memo_id@, content@, now),
        final(history).len() <= HISTORY_LIMIT,
{
    let entry = MemoEntry { id: memo_id, content, timestamp: now };
    let ghost before = entries_view(history@);
    match find_entry(history, &entry.id) {
        Some(i) => {
            history.set(i, entry);
            assert(entries_view(history@) =~= before.update(i as int, entry@));
        },
        None => {
            insert_at_head(history, entry);
        },
    }
    cap_entries(history, HISTORY_LIMIT);
}

/// Saves the memo `memo_id` with `content` at the second that the clock shows.
pub fn update_or_save_to_history_with_id(
    history: &mut Vec<MemoEntry>,
    memo_id: String,
    content: String,
)
    ensures
        exists|now: u64|
            entries_view(final(history)@) == #[trigger] saved(
                entries_view(old(history)@),
                memo_id@,
                content@,
                now,
            ),
        final(history).len() <= HISTORY_LIMIT,
{
    let now: u64 = get_timestamp();
    save_entry(history, memo_id, content, now);
}

/// Looks up the history entry `id`, makes it the current memo and returns its
/// text. Where no entry carries the id, the current memo stays as it was.
pub fn load_history_item(
    history: &Vec<MemoEntry>,
    current_memo_id: &mut Option<String>,
    id: String,
) -> (loaded: Result<String, MemoError>)
    ensures
        match first_with_id(entries_view(history@), id@) {
            Some(i) => {
                &&& loaded matches Ok(text)
                &&& text@ == history@[i].content@
                &&& *final(current_memo_id) matches Some(current)
                &&& current@ == id@
            },
            None => {
                &&& loaded matches Err(MemoError::HistoryItemNotFound)
                &&& *final(current_memo_id) == *old(current_memo_id)
            },
        },
{
    match find_entry(history, &id) {
        Some(i) => {
            let text = history[i].content.clone();
            *current_memo_id = Some(id);
            Ok(text)
        },
        None => Err(MemoError::HistoryItemNotFound),
    }
}

/// Takes the first entry that carries `id` out of `source`, together with
/// every other entry that carries it, and returns the one taken.
pub fn take_entry(source: &mut Vec<MemoEntry>, id: &String) -> (taken: Option<MemoEntry>)
    ensures
        match first_with_id(entries_view(old(source)@), id@) {
            Some(i) => {
                &&& taken matches Some(entry)
                &&& entry@ == entries_view(old(source)@)[i]
                &&& entries_view(final(source)@) == without_id(entries_view(old(source)@), id@)
            },
            None => taken is None && entries_view(final(source)@) == entries_view(old(source)@),
        },
{
    match find_entry(source, id) {
        Some(i) => {
            let entry = source[i].clone();
            remove_entries_with_id(source, id);
            Some(entry)
        },
        None => None,
    }
}

/// Puts `entry` at the head of the trash and cuts the trash to [`TRASH_LIMIT`].
pub fn put_in_trash(trash: &mut Vec<MemoEntry>, entry: MemoEntry)
    ensures
        entries_view(final(trash)@) == capped(
            with_head(entries_view(old(trash)@), entry@),
            TRASH_LIMIT as nat,
        ),
        final(trash).len() <= TRASH_LIMIT,
{
    insert_at_head(trash, entry);
    cap_entries(trash, TRASH_LIMIT);
}

/// Puts `entry` at the head of the history and cuts the history to
/// [`HISTORY_LIMIT`].
pub fn put_in_history(history: &mut Vec<MemoEntry>, entry: MemoEntry)
    ensures
        entries_view(final(history)@) == capped(
            with_head(entries_view(old(history)@), entry@),
            HISTORY_LIMIT as nat,
        ),
        final(history).len() <= HISTORY_LIMIT,
{
    insert_at_head(history, entry);
    cap_entries(history, HISTORY_LIMIT);
}

/// Moves the history entry `id` to the head of the trash. Returns whether
/// there was such an entry; where there was none, both lists stay as they
/// were.
pub fn delete_history_item(
    history: &mut Vec<MemoEntry>,
    trash: &mut Vec<MemoEntry>,
    id: &String,
) -> (found: bool)
    ensures
        found == has_id(entries_view(old(history)@), id@),
        (entries_view(final(history)@), entries_view(final(trash)@)) == trashed(
            entries_view(old(history)@),
            entries_view(old(trash)@),
            id@,
        ),
        found ==> {
            &&& !has_id(entries_view(final(history)@), id@)
            &&& 0 < final(trash).len() <= TRASH_LIMIT
            &&& entries_view(final(trash)@)[0] == taken(entries_view(old(history)@), id@)
        },
{
    proof {
        lemma_first_with_id(entries_view(history@), id@);
        if has_id(entries_view(history@), id@) {
            lemma_moved(entries_view(history@), entries_view(trash@), id@);
        }
    }
    match take_entry(history, id) {
        Some(entry) => {
            put_in_trash(trash, entry);
            proof {
                let grown = with_head(entries_view(old(trash)@), entry@);
                assert(grown.len() == old(trash)@.len() + 1);
                assert(capped(grown, TRASH_LIMIT as nat)[0] == grown[0]);
                assert(entries_view(trash@).len() == trash@.len());
            }
            true
        },
        None => false,
    }
}

/// Moves the entry `id` of `source` to the head of `destination`, a list
/// without a limit. Returns whether there was such an entry; where there was
/// none, both lists stay as they were.
pub fn move_entry(
    source: &mut Vec<MemoEntry>,
    destination: &mut Vec<MemoEntry>,
    id: &String,
) -> (found: bool)
    ensures
        found == has_id(entries_view(old(source)@), id@),
        (entries_view(final(source)@), entries_view(final(destination)@)) == moved(
            entries_view(old(source)@),
            entries_view(old(destination)@),
            id@,
        ),
        found ==> {
            &&& !has_id(entries_view(final(source)@), id@)
            &&& final(source).len() < old(source).len()
            &&& final(destination).len() == old(destination).len() + 1
            &&& entries_view(final(destination)@)[0] == taken(entries_view(old(source)@), id@)
            &&& entries_view(final(destination)@).skip(1) == entries_view(old(destination)@)
        },
        !found ==> entries_view(final(source)@) == entries_view(old(source)@),
{
    proof {
        lemma_first_with_id(entries_view(source@), id@);
        lemma_without_id(entries_view(source@), id@);
        if has_id(entries_view(source@), id@) {
            lemma_moved(entries_view(source@), entries_view(destination@), id@);
        }
    }
    match take_entry(source, id) {
        Some(entry) => {
            insert_at_head(destination, entry);
            true
        },
        None => false,
    }
}

/// Moves the entry `id` of `source` back to the head of the history, which is
/// then cut to [`HISTORY_LIMIT`]. Returns whether there was such an entry;
/// where there was none, both lists stay as they were.
pub fn restore_entry(
    source: &mut Vec<MemoEntry>,
    history: &mut Vec<MemoEntry>,
    id: &String,
) -> (found: bool)
    ensures
        found == has_id(entries_view(old(source)@), id@),
        (entries_view(final(source)@), entries_view(final(history)@)) == restored(
            entries_view(old(source)@),
            entries_view(old(history)@),
            id@,
        ),
        found ==> {
            &&& !has_id(entries_view(final(source)@), id@)
            &&& final(source).len() < old(source).len()
            &&& 0 < final(history).len() <= HISTORY_LIMIT
            &&& entries_view(final(history)@)[0] == taken(entries_view(old(source)@), id@)
            &&& entries_view(final(history)@) == capped(
                with_head(entries_view(old(history)@), taken(entries_view(old(source)@), id@)),
                HISTORY_LIMIT as nat,
            )
        },
{
    proof {
        lemma_first_with_id(entries_view(source@), id@);
        if has_id(entries_view(source@), id@) {
            lemma_moved(entries_view(source@), entries_view(history@), id@);
        }
    }
    match take_entry(source, id) {
        Some(entry) => {
            put_in_history(history, entry);
            proof {
                let grown = with_head(entries_view(old(history)@), entry@);
                assert(grown.len() == old(history)@.len() + 1);
                assert(capped(grown, HISTORY_LIMIT as nat)[0] == grown[0]);
                assert(entries_view(history@).len() == history@.len());
                assert(entries_view(source@).len() == source@.len());
                assert(entries_view(old(source)@).len() == old(source)@.len());
            }
            true
        },
        None => false,
    }
}

/// Moves the trash entry `id` back to the head of the history, which is then
/// cut to [`HISTORY_LIMIT`].
pub fn restore_from_trash(
    trash: &mut Vec<MemoEntry>,
    history: &mut Vec<MemoEntry>,
    id: &String,
) -> (found: bool)
    ensures
        found == has_id(entries_view(old(trash)@), id@),
        (entries_view(final(trash)@), entries_view(final(history)@)) == restored(
            entries_view(old(trash)@),
            entries_view(old(history)@),
            id@,
        ),
        found ==> {
            &&& !has_id(entries_view(final(trash)@), id@)
            &&& 0 < final(history).len() <= HISTORY_LIMIT
            &&& entries_view(final(history)@)[0] == taken(entries_view(old(trash)@), id@)
            &&& entries_view(final(history)@) == capped(
                with_head(entries_view(old(history)@), taken(entries_view(old(trash)@), id@)),
                HISTORY_LIMIT as nat,
            )
        },
        final(trash).len() <= old(trash).len(),
{
    proof {
        assert(entries_view(trash@).len() == trash@.len());
    }
    let found = restore_entry(trash, history, id);
    proof {
        assert(entries_view(trash@).len() == trash@.len());
    }
    found
}

/// Moves the history entry `id` to the head of the archive.
pub fn archive_history_item(
    history: &mut Vec<MemoEntry>,
    archive: &mut Vec<MemoEntry>,
    id: &String,
) -> (found: bool)
    ensures
        found == has_id(entries_view(old(history)@), id@),
        (entries_view(final(history)@), entries_view(final(archive)@)) == moved(
            entries_view(old(history)@),
            entries_view(old(archive)@),
            id@,
        ),
        found ==> {
            &&& !has_id(entries_view(final(history)@), id@)
            &&& entries_view(final(archive)@)[0] == taken(entries_view(old(history)@), id@)
            &&& entries_view(final(archive)@).skip(1) == entries_view(old(archive)@)
        },
{
    move_entry(history, archive, id)
}

/// Moves the archive entry `id` back to the head of the history, which is
/// then cut to [`HISTORY_LIMIT`].
pub fn restore_from_archive(
    archive: &mut Vec<MemoEntry>,
    history: &mut Vec<MemoEntry>,
    id: &String,
) -> (found: bool)
    ensures
        found == has_id(entries_view(old(archive)@), id@),
        (entries_view(final(archive)@), entries_view(final(history)@)) == restored(
            entries_view(old(archive)@),
            entries_view(old(history)@),
            id@,
        ),
        found ==> {
            &&& !has_id(entries_view(final(archive)@), id@)
            &&& 0 < final(history).len() <= HISTORY_LIMIT
            &&& entries_view(final(history)@)[0] == taken(entries_view(old(archive)@), id@)
            &&& entries_view(final(history)@) == capped(
                with_head(entries_view(old(history)@), taken(entries_view(old(archive)@), id@)),
                HISTORY_LIMIT as nat,
            )
        },
{
    restore_entry(archive, history, id)
}

/// Removes every trash entry that carries `id`, for good.
pub fn permanently_delete_trash_item(trash: &mut Vec<MemoEntry>, id: &String)
    ensures
        entries_view(final(trash)@) == without_id(entries_view(old(trash)@), id@),
        final(trash).len() <= old(trash).len(),
{
    proof {
        lemma_without_id(entries_view(trash@), id@);
    }
    remove_entries_with_id(trash, id);
}

/// Removes every archive entry that carries `id`, for good.
pub fn permanently_delete_archive_item(archive: &mut Vec<MemoEntry>, id: &String)
    ensures
        entries_view(final(archive)@) == without_id(entries_view(old(archive)@), id@),
{
    remove_entries_with_id(archive, id);
}

/// Removes every entry from the trash.
pub fn empty_trash(trash: &mut Vec<MemoEntry>)
    ensures
        final(trash)@ == Seq::<MemoEntry>::empty(),
{
    trash.clear();
}

} // verus!
