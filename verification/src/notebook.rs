//! The memo commands as one state machine, and what holds of every run of it.
//!
//! A [`Notebook`] is the value of everything the memo commands touch. Each
//! [`Command`] changes it as the function of the same name changes the values
//! it is given; [`run`] applies a sequence of commands in turn.

use vstd::prelude::*;
use crate::history::{
    lemma_trashed_then_restored, moved, restored, taken, trashed, HISTORY_LIMIT, TRASH_LIMIT,
};
use crate::memo::{
    capped, has_id, lemma_first_with_id, lemma_without_id, with_head, without_id, MemoEntryView,
};
use crate::note::{history_after_save, memo_id_for};
use crate::text::{blank, decimal};

verus! {

/// The stored note, the current memo and the three memo lists.
pub struct Notebook {
    pub note: Seq<char>,
    pub current_memo_id: Option<Seq<char>>,
    pub history: Seq<MemoEntryView>,
    pub trash: Seq<MemoEntryView>,
    pub archive: Seq<MemoEntryView>,
}

/// A memo command with its arguments. The seconds are those that the clock
/// showed when the command ran.
pub enum Command {
    SaveNoteToHistory { content: Seq<char>, id_time: u64, save_time: u64 },
    LoadHistoryItem { id: Seq<char> },
    DeleteHistoryItem { id: Seq<char> },
    RestoreFromTrash { id: Seq<char> },
    PermanentlyDeleteTrashItem { id: Seq<char> },
    EmptyTrash,
    ArchiveHistoryItem { id: Seq<char> },
    RestoreFromArchive { id: Seq<char> },
    PermanentlyDeleteArchiveItem { id: Seq<char> },
    CreateNewMemo { now: u64 },
    ClearNote,
}

/// The notebook after one command.
pub open spec fn step(book: Notebook, command: Command) -> Notebook {
    match command {
        Command::SaveNoteToHistory { content, id_time, save_time } => Notebook {
            note: content,
            current_memo_id: Some(memo_id_for(book.current_memo_id, id_time)),
            history: history_after_save(
                book.history,
                memo_id_for(book.current_memo_id, id_time),
                content,
                save_time,
            ),
            ..book
        },
        Command::LoadHistoryItem { id } => Notebook {
            current_memo_id: if has_id(book.history, id) {
                Some(id)
            } else {
                book.current_memo_id
            },
            ..book
        },
        Command::DeleteHistoryItem { id } => Notebook {
            history: trashed(book.history, book.trash, id).0,
            trash: trashed(book.history, book.trash, id).1,
            ..book
        },
        Command::RestoreFromTrash { id } => Notebook {
            trash: restored(book.trash, book.history, id).0,
            history: restored(book.trash, book.history, id).1,
            ..book
        },
        Command::PermanentlyDeleteTrashItem { id } => Notebook {
            trash: without_id(book.trash, id),
            ..book
        },
        Command::EmptyTrash => Notebook { trash: Seq::empty(), ..book },
        Command::ArchiveHistoryItem { id } => Notebook {
            history: moved(book.history, book.archive, id).0,
            archive: moved(book.history, book.archive, id).1,
            ..book
        },
        Command::RestoreFromArchive { id } => Notebook {
            archive: restored(book.archive, book.history, id).0,
            history: restored(book.archive, book.history, id).1,
            ..book
        },
        Command::PermanentlyDeleteArchiveItem { id } => Notebook {
            archive: without_id(book.archive, id),
            ..book
        },
        Command::CreateNewMemo { now } => Notebook {
            note: Seq::empty(),
            current_memo_id: Some(decimal(now as nat)),
            ..book
        },
        Command::ClearNote => Notebook { note: Seq::empty(), ..book },
    }
}

/// The notebook after the commands, applied in turn.
pub open spec fn run(book: Notebook, commands: Seq<Command>) -> Notebook
    decreases commands.len(),
{
    if commands.len() == 0 {
        book
    } else {
        step(run(book, commands.drop_last()), commands.last())
    }
}

/// The trash never exceeds its limit: whatever commands run, a trash within
/// the limit stays within it.
pub proof fn law_trash_stays_within_limit(book: Notebook, commands: Seq<Command>)
    requires
        book.trash.len() <= TRASH_LIMIT,
    ensures
        run(book, commands).trash.len() <= TRASH_LIMIT,
    decreases commands.len(),
{
    if commands.len() > 0 {
        law_trash_stays_within_limit(book, commands.drop_last());
        let before = run(book, commands.drop_last());
        match commands.last() {
            Command::RestoreFromTrash { id } => {
                lemma_without_id(before.trash, id);
            },
            Command::PermanentlyDeleteTrashItem { id } => {
                lemma_without_id(before.trash, id);
            },
            _ => {},
        }
    }
}

/// The history never exceeds its limit: whatever commands run, a history
/// within the limit stays within it.
pub proof fn law_history_stays_within_limit(book: Notebook, commands: Seq<Command>)
    requires
        book.history.len() <= HISTORY_LIMIT,
    ensures
        run(book, commands).history.len() <= HISTORY_LIMIT,
    decreases commands.len(),
{
    if commands.len() > 0 {
        law_history_stays_within_limit(book, commands.drop_last());
        let before = run(book, commands.drop_last());
        match commands.last() {
            Command::DeleteHistoryItem { id } => {
                lemma_without_id(before.history, id);
            },
            Command::ArchiveHistoryItem { id } => {
                lemma_without_id(before.history, id);
            },
            _ => {},
        }
    }
}

/// A save of a note that is not blank leaves a history within its limit,
/// whatever the history held.
pub proof fn law_save_cuts_history(book: Notebook, content: Seq<char>, id_time: u64, save_time: u64)
    requires
        !blank(content),
    ensures
        step(book, Command::SaveNoteToHistory { content, id_time, save_time }).history.len()
            <= HISTORY_LIMIT,
{
}

/// Deleting a history entry moves it to the trash: no entry with its id is
/// left in the history, and the entry stands at the head of the trash with
/// the content and the timestamp it had.
pub proof fn law_delete_moves_to_trash_head(book: Notebook, id: Seq<char>)
    requires
        has_id(book.history, id),
    ensures
        !has_id(step(book, Command::DeleteHistoryItem { id }).history, id),
        step(book, Command::DeleteHistoryItem { id }).trash.len() > 0,
        step(book, Command::DeleteHistoryItem { id }).trash[0] == taken(book.history, id),
        taken(book.history, id).id == id,
{
    lemma_first_with_id(book.history, id);
    lemma_without_id(book.history, id);
}

/// Restoring a trash entry moves it to the history: no entry with its id is
/// left in the trash, and the entry stands at the head of the history, in
/// front of what the history held, cut to the history's limit.
pub proof fn law_restore_from_trash_moves_to_history_head(book: Notebook, id: Seq<char>)
    requires
        has_id(book.trash, id),
    ensures
        !has_id(step(book, Command::RestoreFromTrash { id }).trash, id),
        step(book, Command::RestoreFromTrash { id }).history == capped(
            with_head(book.history, taken(book.trash, id)),
            HISTORY_LIMIT as nat,
        ),
        step(book, Command::RestoreFromTrash { id }).history[0] == taken(book.trash, id),
        0 < step(book, Command::RestoreFromTrash { id }).history.len() <= HISTORY_LIMIT,
        taken(book.trash, id).id == id,
{
    lemma_first_with_id(book.trash, id);
    lemma_without_id(book.trash, id);
    let grown = with_head(book.history, taken(book.trash, id));
    assert(capped(grown, HISTORY_LIMIT as nat)[0] == grown[0]);
}

/// Restoring an archive entry moves it to the history: no entry with its id
/// is left in the archive, and the entry stands at the head of the history,
/// in front of what the history held, cut to the history's limit.
pub proof fn law_restore_from_archive_moves_to_history_head(book: Notebook, id: Seq<char>)
    requires
        has_id(book.archive, id),
    ensures
        !has_id(step(book, Command::RestoreFromArchive { id }).archive, id),
        step(book, Command::RestoreFromArchive { id }).history == capped(
            with_head(book.history, taken(book.archive, id)),
            HISTORY_LIMIT as nat,
        ),
        step(book, Command::RestoreFromArchive { id }).history[0] == taken(book.archive, id),
        0 < step(book, Command::RestoreFromArchive { id }).history.len() <= HISTORY_LIMIT,
        taken(book.archive, id).id == id,
{
    lemma_first_with_id(book.archive, id);
    lemma_without_id(book.archive, id);
    let grown = with_head(book.history, taken(book.archive, id));
    assert(capped(grown, HISTORY_LIMIT as nat)[0] == grown[0]);
}

/// An entry that is deleted and then restored is back at the head of the
/// history as it was, in front of the other entries, and the trash holds what
/// it held before. This needs a trash below its limit that holds no entry
/// with the id.
pub proof fn law_delete_then_restore(book: Notebook, id: Seq<char>)
    requires
        has_id(book.history, id),
        !has_id(book.trash, id),
        book.trash.len() < TRASH_LIMIT,
    ensures
        ({
            let deleted = step(book, Command::DeleteHistoryItem { id });
            let back = step(deleted, Command::RestoreFromTrash { id });
            &&& back.history == capped(
                with_head(without_id(book.history, id), taken(book.history, id)),
                HISTORY_LIMIT as nat,
            )
            &&& back.trash == book.trash
        }),
{
    lemma_trashed_then_restored(book.history, book.trash, id);
}

} // verus!
