//! The failures of the application and the text shown for each.
//!
//! Every failure reaches the user as one line of text. The library decides
//! some failures itself; the others arise where files, windows and the
//! operating system are reached, and are named here so that their texts stand
//! in one place.

use vstd::prelude::*;
use vstd::string::StringExecFns;

verus! {

/// What could not be done with a file, a window or the operating system.
#[derive(Clone, Copy, Debug, PartialEq, Eq, Structural)]
pub enum Failure {
    DataDirUnknown,
    DataDirNotCreated,
    NoteUnreadable,
    NoteUnwritable,
    NoteNotCleared,
    HistoryUnreadable,
    HistoryUnserializable,
    HistoryUnwritable,
    TrashUnreadable,
    TrashUnserializable,
    TrashUnwritable,
    ArchiveUnreadable,
    ArchiveUnserializable,
    ArchiveUnwritable,
    FontConfigUnreadable,
    FontConfigUnserializable,
    FontConfigUnwritable,
    StickyNotesUnreadable,
    StickyNotesUnserializable,
    StickyNotesUnwritable,
    WindowNotCreated,
    WindowNotShown,
    WindowNotClosed,
    ShortcutNotRegistered,
    ShortcutNotUnregistered,
}

/// A request that failed.
#[derive(Debug)]
pub enum MemoError {
    /// No history entry carries the requested id.
    HistoryItemNotFound,
    /// No sticky note carries the requested id, which is held here.
    StickyNoteNotFound(String),
    /// The text is no keyboard shortcut; the parser's account of it is held here.
    InvalidShortcut(String),
    /// The installed fonts could not be listed; the font source's account of
    /// it is held here.
    FontsUnavailable(String),
    /// Something outside the library failed; its own account of the failure is
    /// held here.
    Outside(Failure, String),
}

/// The value of a [`MemoError`].
pub enum MemoErrorView {
    HistoryItemNotFound,
    StickyNoteNotFound(Seq<char>),
    InvalidShortcut(Seq<char>),
    FontsUnavailable(Seq<char>),
    Outside(Failure, Seq<char>),
}

impl View for MemoError {
    type V = MemoErrorView;

    open spec fn view(&self) -> MemoErrorView {
        match self {
            MemoError::HistoryItemNotFound => MemoErrorView::HistoryItemNotFound,
            MemoError::StickyNoteNotFound(id) => MemoErrorView::StickyNoteNotFound(id@),
            MemoError::InvalidShortcut(detail) => MemoErrorView::InvalidShortcut(detail@),
            MemoError::FontsUnavailable(detail) => MemoErrorView::FontsUnavailable(detail@),
            MemoError::Outside(failure, detail) => MemoErrorView::Outside(*failure, detail@),
        }
    }
}

/// The words for a failure, without the account of it.
pub open spec fn failure_text(failure: Failure) -> Seq<char> {
    match failure {
        Failure::DataDirUnknown => "無法取得應用程式資料目錄"@,
        Failure::DataDirNotCreated => "無法建立資料目錄"@,
        Failure::NoteUnreadable => "無法讀取筆記"@,
        Failure::NoteUnwritable => "無法儲存筆記"@,
        Failure::NoteNotCleared => "無法清空筆記"@,
        Failure::HistoryUnreadable => "無法讀取歷史記錄"@,
        Failure::HistoryUnserializable => "無法序列化歷史記錄"@,
        Failure::HistoryUnwritable => "無法寫入歷史記錄"@,
        Failure::TrashUnreadable => "無法讀取垃圾桶"@,
        Failure::TrashUnserializable => "無法序列化垃圾桶"@,
        Failure::TrashUnwritable => "無法寫入垃圾桶"@,
        Failure::ArchiveUnreadable => "無法讀取封存"@,
        Failure::ArchiveUnserializable => "無法序列化封存"@,
        Failure::ArchiveUnwritable => "無法寫入封存"@,
        Failure::FontConfigUnreadable => "無法讀取字體設定"@,
        Failure::FontConfigUnserializable => "無法序列化字體設定"@,
        Failure::FontConfigUnwritable => "無法寫入字體設定"@,
        Failure::StickyNotesUnreadable => "無法讀取便利貼資料"@,
        Failure::StickyNotesUnserializable => "無法序列化便利貼資料"@,
        Failure::StickyNotesUnwritable => "無法寫入便利貼資料"@,
        Failure::WindowNotCreated => "無法創建視窗"@,
        Failure::WindowNotShown => "無法顯示視窗"@,
        Failure::WindowNotClosed => "無法關閉視窗"@,
        Failure::ShortcutNotRegistered => "無法註冊快捷鍵"@,
        Failure::ShortcutNotUnregistered => "無法取消註冊快捷鍵"@,
    }
}

/// The text shown to the user for an error: the words for it and, behind a
/// colon, the account that it holds.
pub open spec fn message_text(error: MemoErrorView) -> Seq<char> {
    match error {
        MemoErrorView::HistoryItemNotFound => "找不到該歷史記錄"@,
        MemoErrorView::StickyNoteNotFound(id) => "找不到便利貼"@ + ": "@ + id,
        MemoErrorView::InvalidShortcut(detail) => "無效的快捷鍵"@ + ": "@ + detail,
        MemoErrorView::FontsUnavailable(detail) => "無法獲取系統字體"@ + ": "@ + detail,
        MemoErrorView::Outside(failure, detail) => failure_text(failure) + ": "@ + detail,
    }
}

impl Failure {
    /// The words for this failure, without the account of it.
    pub fn text(self) -> (words: &'static str)
        ensures
            words@ == failure_text(self),
    {
        match self {
            Failure::DataDirUnknown => "無法取得應用程式資料目錄",
            Failure::DataDirNotCreated => "無法建立資料目錄",
            Failure::NoteUnreadable => "無法讀取筆記",
            Failure::NoteUnwritable => "無法儲存筆記",
            Failure::NoteNotCleared => "無法清空筆記",
            Failure::HistoryUnreadable => "無法讀取歷史記錄",
            Failure::HistoryUnserializable => "無法序列化歷史記錄",
            Failure::HistoryUnwritable => "無法寫入歷史記錄",
            Failure::TrashUnreadable => "無法讀取垃圾桶",
            Failure::TrashUnserializable => "無法序列化垃圾桶",
            Failure::TrashUnwritable => "無法寫入垃圾桶",
            Failure::ArchiveUnreadable => "無法讀取封存",
            Failure::ArchiveUnserializable => "無法序列化封存",
            Failure::ArchiveUnwritable => "無法寫入封存",
            Failure::FontConfigUnreadable => "無法讀取字體設定",
            Failure::FontConfigUnserializable => "無法序列化字體設定",
            Failure::FontConfigUnwritable => "無法寫入字體設定",
            Failure::StickyNotesUnreadable => "無法讀取便利貼資料",
            Failure::StickyNotesUnserializable => "無法序列化便利貼資料",
            Failure::StickyNotesUnwritable => "無法寫入便利貼資料",
            Failure::WindowNotCreated => "無法創建視窗",
            Failure::WindowNotShown => "無法顯示視窗",
            Failure::WindowNotClosed => "無法關閉視窗",
            Failure::ShortcutNotRegistered => "無法註冊快捷鍵",
            Failure::ShortcutNotUnregistered => "無法取消註冊快捷鍵",
        }
    }
}

/// `words`, a colon and `detail`.
fn with_detail(words: &str, detail: &str) -> (text: String)
    ensures
        text@ == words@ + ": "@ + detail@,
{
    String::from_str(words).concat(": ").concat(detail)
}

impl MemoError {
    /// The text shown to the user for this error.
    pub fn message(&self) -> (text: String)
        ensures
            text@ == message_text(self@),
    {
        match self {
            MemoError::HistoryItemNotFound => String::from_str("找不到該歷史記錄"),
            MemoError::StickyNoteNotFound(id) => with_detail("找不到便利貼", id.as_str()),
            MemoError::InvalidShortcut(detail) => with_detail("無效的快捷鍵", detail.as_str()),
            MemoError::FontsUnavailable(detail) => with_detail("無法獲取系統字體", detail.as_str()),
            MemoError::Outside(failure, detail) => with_detail(failure.text(), detail.as_str()),
        }
    }
}

} // verus!
