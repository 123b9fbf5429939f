use upmemo::errors::MemoError;
use upmemo::history::{
    archive_history_item, delete_history_item, empty_trash, load_history_item, move_entry,
    permanently_delete_archive_item, permanently_delete_trash_item, put_in_history, put_in_trash,
    restore_entry, restore_from_archive, restore_from_trash, save_entry, take_entry,
    update_or_save_to_history_with_id, HISTORY_LIMIT, TRASH_LIMIT,
};
use upmemo::memo::MemoEntry;

fn entry(id: &str, content: &str, timestamp: u64) -> MemoEntry {
    MemoEntry { id: id.to_string(), content: content.to_string(), timestamp }
}

fn ids(list: &Vec<MemoEntry>) -> Vec<String> {
    list.iter().map(|e| e.id.clone()).collect()
}

fn numbered(count: usize) -> Vec<MemoEntry> {
    (0..count).map(|i| entry(&format!("m{}", i), &format!("text {}", i), i as u64)).collect()
}

#[test]
fn limits_are_one_hundred_and_fifty() {
    assert_eq!(HISTORY_LIMIT, 100);
    assert_eq!(TRASH_LIMIT, 50);
}

#[test]
fn save_entry_puts_a_new_memo_in_front() {
    let mut history = vec![entry("a", "one", 1), entry("b", "two", 2)];
    save_entry(&mut history, "c".to_string(), "three".to_string(), 30);
    assert_eq!(ids(&history), vec!["c", "a", "b"]);
    assert_eq!(history[0].content, "three");
    assert_eq!(history[0].timestamp, 30);
}

#[test]
fn save_entry_rewrites_a_known_memo_where_it_stands() {
    let mut history = vec![entry("a", "one", 1), entry("b", "two", 2), entry("c", "three", 3)];
    save_entry(&mut history, "b".to_string(), "changed".to_string(), 40);
    assert_eq!(ids(&history), vec!["a", "b", "c"]);
    assert_eq!(history[1].content, "changed");
    assert_eq!(history[1].timestamp, 40);
    assert_eq!(history[0].content, "one");
    assert_eq!(history[2].content, "three");
}

#[test]
fn save_entry_rewrites_only_the_first_of_two_entries_with_one_id() {
    let mut history = vec![entry("a", "one", 1), entry("a", "two", 2)];
    save_entry(&mut history, "a".to_string(), "changed".to_string(), 5);
    assert_eq!(history[0].content, "changed");
    assert_eq!(history[0].timestamp, 5);
    assert_eq!(history[1].content, "two");
    assert_eq!(history[1].timestamp, 2);
}

#[test]
fn save_entry_keeps_at_most_one_hundred() {
    let mut history = numbered(100);
    save_entry(&mut history, "fresh".to_string(), "x".to_string(), 1000);
    assert_eq!(history.len(), 100);
    assert_eq!(history[0].id, "fresh");
    assert_eq!(history[1].id, "m0");
    assert_eq!(history[99].id, "m98");
}

#[test]
fn save_entry_cuts_an_overlong_history_even_on_update() {
    let mut history = numbered(130);
    save_entry(&mut history, "m5".to_string(), "again".to_string(), 7);
    assert_eq!(history.len(), 100);
    assert_eq!(history[5].content, "again");
    assert_eq!(history[99].id, "m99");
}

#[test]
fn history_never_exceeds_its_limit_over_many_saves() {
    let mut history: Vec<MemoEntry> = Vec::new();
    for i in 0..250u64 {
        save_entry(&mut history, format!("id{}", i), format!("note {}", i), i);
        assert!(history.len() <= 100);
    }
    assert_eq!(history.len(), 100);
    assert_eq!(history[0].id, "id249");
    assert_eq!(history[99].id, "id150");
}

#[test]
fn update_or_save_stamps_the_entry_with_the_clock() {
    let mut history = vec![entry("a", "one", 1)];
    update_or_save_to_history_with_id(&mut history, "a".to_string(), "now".to_string());
    assert_eq!(history.len(), 1);
    assert_eq!(history[0].content, "now");
    assert!(history[0].timestamp > 1_500_000_000);
    update_or_save_to_history_with_id(&mut history, "b".to_string(), "other".to_string());
    assert_eq!(ids(&history), vec!["b", "a"]);
    assert!(history[0].timestamp >= history[1].timestamp);
}

#[test]
fn load_history_item_returns_the_text_and_makes_the_memo_current() {
    let history = vec![entry("a", "one", 1), entry("b", "two", 2)];
    let mut current: Option<String> = None;
    let loaded = load_history_item(&history, &mut current, "b".to_string());
    assert_eq!(loaded.unwrap(), "two");
    assert_eq!(current, Some("b".to_string()));
}

#[test]
fn load_history_item_fails_for_an_unknown_id_and_keeps_the_current_memo() {
    let history = vec![entry("a", "one", 1)];
    let mut current = Some("a".to_string());
    let loaded = load_history_item(&history, &mut current, "zzz".to_string());
    match loaded {
        Err(MemoError::HistoryItemNotFound) => {}
        other => panic!("unexpected outcome: {:?}", other),
    }
    assert_eq!(current, Some("a".to_string()));
}

#[test]
fn take_entry_returns_the_first_match_and_removes_all_matches() {
    let mut list = vec![entry("a", "one", 1), entry("b", "two", 2), entry("a", "three", 3)];
    let taken = take_entry(&mut list, &"a".to_string()).unwrap();
    assert_eq!(taken.content, "one");
    assert_eq!(taken.timestamp, 1);
    assert_eq!(ids(&list), vec!["b"]);
    assert!(take_entry(&mut list, &"a".to_string()).is_none());
    assert_eq!(ids(&list), vec!["b"]);
}

#[test]
fn put_in_trash_keeps_at_most_fifty() {
    let mut trash = numbered(50);
    put_in_trash(&mut trash, entry("new", "n", 9));
    assert_eq!(trash.len(), 50);
    assert_eq!(trash[0].id, "new");
    assert_eq!(trash[49].id, "m48");
}

#[test]
fn delete_history_item_moves_the_entry_to_the_head_of_the_trash() {
    let mut history = vec![entry("a", "one", 1), entry("x", "target", 42), entry("b", "two", 2)];
    let mut trash = vec![entry("t", "old", 0)];
    assert!(delete_history_item(&mut history, &mut trash, &"x".to_string()));
    assert_eq!(ids(&history), vec!["a", "b"]);
    assert_eq!(ids(&trash), vec!["x", "t"]);
    assert_eq!(trash[0].content, "target");
    assert_eq!(trash[0].timestamp, 42);
}

#[test]
fn delete_history_item_with_unknown_id_changes_nothing() {
    let mut history = vec![entry("a", "one", 1)];
    let mut trash = numbered(60);
    assert!(!delete_history_item(&mut history, &mut trash, &"x".to_string()));
    assert_eq!(ids(&history), vec!["a"]);
    assert_eq!(trash.len(), 60);
}

#[test]
fn trash_never_exceeds_its_limit_over_many_deletes() {
    let mut history = numbered(80);
    let mut trash: Vec<MemoEntry> = Vec::new();
    for i in 0..80 {
        assert!(delete_history_item(&mut history, &mut trash, &format!("m{}", i)));
        assert!(trash.len() <= 50);
    }
    assert!(history.is_empty());
    assert_eq!(trash.len(), 50);
    assert_eq!(trash[0].id, "m79");
    assert_eq!(trash[49].id, "m30");
}

#[test]
fn restore_from_trash_puts_the_entry_at_the_head_of_the_history() {
    let mut trash = vec![entry("t1", "first", 5), entry("t2", "second", 6)];
    let mut history = vec![entry("a", "one", 1)];
    assert!(restore_from_trash(&mut trash, &mut history, &"t2".to_string()));
    assert_eq!(ids(&trash), vec!["t1"]);
    assert_eq!(ids(&history), vec!["t2", "a"]);
    assert_eq!(history[0].content, "second");
    assert_eq!(history[0].timestamp, 6);
    assert!(!restore_from_trash(&mut trash, &mut history, &"t2".to_string()));
    assert_eq!(ids(&history), vec!["t2", "a"]);
}

#[test]
fn restore_from_trash_cuts_the_history_to_one_hundred() {
    let mut trash = vec![entry("t", "back", 5)];
    let mut history = numbered(100);
    assert!(restore_from_trash(&mut trash, &mut history, &"t".to_string()));
    assert!(trash.is_empty());
    assert_eq!(history.len(), 100);
    assert_eq!(history[0].id, "t");
    assert_eq!(history[0].content, "back");
    assert_eq!(history[0].timestamp, 5);
    assert_eq!(history[1].id, "m0");
    assert_eq!(history[99].id, "m98");
}

#[test]
fn restore_from_archive_cuts_the_history_to_one_hundred() {
    let mut archive = vec![entry("k", "kept", 8), entry("l", "later", 9)];
    let mut history = numbered(100);
    assert!(restore_from_archive(&mut archive, &mut history, &"l".to_string()));
    assert_eq!(ids(&archive), vec!["k"]);
    assert_eq!(history.len(), 100);
    assert_eq!(history[0].id, "l");
    assert_eq!(history[0].content, "later");
    assert_eq!(history[1].id, "m0");
    assert_eq!(history[99].id, "m98");
}

#[test]
fn a_restore_of_an_unknown_id_leaves_an_overlong_history_as_it_is() {
    let mut trash = vec![entry("t", "back", 5)];
    let mut history = numbered(120);
    assert!(!restore_from_trash(&mut trash, &mut history, &"nope".to_string()));
    assert_eq!(trash.len(), 1);
    assert_eq!(history.len(), 120);
}

#[test]
fn restore_entry_takes_the_first_match_and_cuts_the_history() {
    let mut source = vec![entry("d", "first", 1), entry("e", "other", 2), entry("d", "second", 3)];
    let mut history = numbered(99);
    assert!(restore_entry(&mut source, &mut history, &"d".to_string()));
    assert_eq!(ids(&source), vec!["e"]);
    assert_eq!(history.len(), 100);
    assert_eq!(history[0].content, "first");
    assert_eq!(history[99].id, "m98");
    assert!(restore_entry(&mut source, &mut history, &"e".to_string()));
    assert!(source.is_empty());
    assert_eq!(history.len(), 100);
    assert_eq!(history[0].id, "e");
    assert_eq!(history[1].id, "d");
    assert_eq!(history[99].id, "m97");
}

#[test]
fn put_in_history_keeps_at_most_one_hundred() {
    let mut history = numbered(100);
    put_in_history(&mut history, entry("new", "n", 9));
    assert_eq!(history.len(), 100);
    assert_eq!(history[0].id, "new");
    assert_eq!(history[99].id, "m98");
    let mut short = numbered(3);
    put_in_history(&mut short, entry("new", "n", 9));
    assert_eq!(ids(&short), vec!["new", "m0", "m1", "m2"]);
}

#[test]
fn history_never_exceeds_its_limit_over_restores() {
    let mut history = numbered(100);
    let mut trash: Vec<MemoEntry> = (0..50).map(|i| entry(&format!("t{}", i), "", i)).collect();
    let mut archive: Vec<MemoEntry> = (0..30).map(|i| entry(&format!("a{}", i), "", i)).collect();
    for i in 0..50 {
        assert!(restore_from_trash(&mut trash, &mut history, &format!("t{}", i)));
        assert!(history.len() <= 100);
    }
    for i in 0..30 {
        assert!(restore_from_archive(&mut archive, &mut history, &format!("a{}", i)));
        assert!(history.len() <= 100);
    }
    assert_eq!(history.len(), 100);
    assert_eq!(history[0].id, "a29");
}

#[test]
fn archive_history_item_moves_the_entry_to_the_head_of_the_archive() {
    let mut history = vec![entry("a", "one", 1), entry("b", "two", 2)];
    let mut archive = numbered(70);
    assert!(archive_history_item(&mut history, &mut archive, &"a".to_string()));
    assert_eq!(ids(&history), vec!["b"]);
    assert_eq!(archive.len(), 71);
    assert_eq!(archive[0].id, "a");
    assert_eq!(archive[0].content, "one");
    assert_eq!(archive[0].timestamp, 1);
    assert!(!archive_history_item(&mut history, &mut archive, &"a".to_string()));
    assert_eq!(archive.len(), 71);
}

#[test]
fn restore_from_archive_puts_the_entry_at_the_head_of_the_history() {
    let mut archive = vec![entry("k", "kept", 8), entry("l", "later", 9)];
    let mut history = vec![entry("a", "one", 1)];
    assert!(restore_from_archive(&mut archive, &mut history, &"k".to_string()));
    assert_eq!(ids(&archive), vec!["l"]);
    assert_eq!(ids(&history), vec!["k", "a"]);
    assert_eq!(history[0].content, "kept");
    assert_eq!(history[0].timestamp, 8);
}

#[test]
fn move_entry_takes_the_first_of_several_matches() {
    let mut source = vec![entry("d", "first", 1), entry("e", "other", 2), entry("d", "second", 3)];
    let mut destination: Vec<MemoEntry> = Vec::new();
    assert!(move_entry(&mut source, &mut destination, &"d".to_string()));
    assert_eq!(ids(&source), vec!["e"]);
    assert_eq!(destination.len(), 1);
    assert_eq!(destination[0].content, "first");
}

#[test]
fn delete_then_restore_brings_the_entry_back_to_the_head() {
    let mut history = vec![entry("a", "one", 1), entry("b", "two", 2), entry("c", "three", 3)];
    let mut trash = vec![entry("t", "old", 0)];
    assert!(delete_history_item(&mut history, &mut trash, &"b".to_string()));
    assert!(restore_from_trash(&mut trash, &mut history, &"b".to_string()));
    assert_eq!(ids(&history), vec!["b", "a", "c"]);
    assert_eq!(history[0].content, "two");
    assert_eq!(history[0].timestamp, 2);
    assert_eq!(ids(&trash), vec!["t"]);
}

#[test]
fn permanently_delete_trash_item_removes_it() {
    let mut trash = vec![entry("t1", "", 1), entry("t2", "", 2), entry("t1", "", 3)];
    permanently_delete_trash_item(&mut trash, &"t1".to_string());
    assert_eq!(ids(&trash), vec!["t2"]);
    permanently_delete_trash_item(&mut trash, &"nope".to_string());
    assert_eq!(ids(&trash), vec!["t2"]);
}

#[test]
fn permanently_delete_archive_item_removes_it() {
    let mut archive = vec![entry("k1", "", 1), entry("k2", "", 2)];
    permanently_delete_archive_item(&mut archive, &"k2".to_string());
    assert_eq!(ids(&archive), vec!["k1"]);
}

#[test]
fn empty_trash_removes_everything() {
    let mut trash = numbered(7);
    empty_trash(&mut trash);
    assert!(trash.is_empty());
}
