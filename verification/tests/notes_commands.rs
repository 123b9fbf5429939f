use upmemo::memo::MemoEntry;
use upmemo::note::{
    clear_note, create_new_memo, create_new_memo_at, get_current_memo_id, memo_id_for_save,
    memo_id_for_save_at, note_to_save, note_to_save_at, save_note_to_history,
    save_note_to_history_at,
};
use upmemo::text::{decimal_string, is_blank, is_white_space_char, same_text};

#[test]
fn saving_hello_without_a_current_memo_creates_one() {
    let mut note = String::new();
    let mut current: Option<String> = None;
    let mut history: Vec<MemoEntry> = Vec::new();
    save_note_to_history(&mut note, &mut current, &mut history, "hello".to_string());
    assert_eq!(note, "hello");
    let id = current.clone().expect("a memo is current after a save");
    assert!(!id.is_empty());
    assert!(id.chars().all(|c| c.is_ascii_digit()));
    assert_eq!(history.len(), 1);
    assert_eq!(history[0].content, "hello");
    assert_eq!(history[0].id, id);
}

#[test]
fn saving_at_given_seconds_names_the_memo_by_the_first_of_them() {
    let mut note = String::from("old");
    let mut current: Option<String> = None;
    let mut history: Vec<MemoEntry> = Vec::new();
    save_note_to_history_at(
        &mut note,
        &mut current,
        &mut history,
        "hello".to_string(),
        1700000000,
        1700000005,
    );
    assert_eq!(note, "hello");
    assert_eq!(current, Some("1700000000".to_string()));
    assert_eq!(history.len(), 1);
    assert_eq!(history[0].id, "1700000000");
    assert_eq!(history[0].content, "hello");
    assert_eq!(history[0].timestamp, 1700000005);
}

#[test]
fn saving_again_rewrites_the_entry_of_the_current_memo() {
    let mut note = String::new();
    let mut current: Option<String> = None;
    let mut history: Vec<MemoEntry> = Vec::new();
    save_note_to_history_at(&mut note, &mut current, &mut history, "one".to_string(), 10, 11);
    save_note_to_history_at(&mut note, &mut current, &mut history, "two".to_string(), 20, 21);
    assert_eq!(current, Some("10".to_string()));
    assert_eq!(history.len(), 1);
    assert_eq!(history[0].id, "10");
    assert_eq!(history[0].content, "two");
    assert_eq!(history[0].timestamp, 21);
    assert_eq!(note, "two");
}

#[test]
fn saving_a_blank_note_names_a_memo_but_leaves_the_history() {
    let mut note = String::from("before");
    let mut current: Option<String> = None;
    let mut history: Vec<MemoEntry> = Vec::new();
    save_note_to_history_at(&mut note, &mut current, &mut history, "  \n\t ".to_string(), 5, 6);
    assert_eq!(note, "  \n\t ");
    assert_eq!(current, Some("5".to_string()));
    assert!(history.is_empty());
}

#[test]
fn saving_keeps_the_history_within_one_hundred() {
    let mut note = String::new();
    let mut history: Vec<MemoEntry> = Vec::new();
    for i in 0..120u64 {
        let mut current: Option<String> = None;
        save_note_to_history_at(&mut note, &mut current, &mut history, format!("n{}", i), i, i);
        assert!(history.len() <= 100);
    }
    assert_eq!(history.len(), 100);
    assert_eq!(history[0].id, "119");
}

#[test]
fn memo_id_for_save_keeps_the_current_memo() {
    let mut current = Some("abc".to_string());
    assert_eq!(memo_id_for_save_at(&mut current, 99), "abc");
    assert_eq!(current, Some("abc".to_string()));
    assert_eq!(memo_id_for_save(&mut current), "abc");
    assert_eq!(current, Some("abc".to_string()));
}

#[test]
fn memo_id_for_save_names_a_new_memo_by_the_second() {
    let mut current: Option<String> = None;
    assert_eq!(memo_id_for_save_at(&mut current, 1234), "1234");
    assert_eq!(current, Some("1234".to_string()));
    let mut other: Option<String> = None;
    let id = memo_id_for_save(&mut other);
    assert!(id.parse::<u64>().is_ok());
    assert_eq!(other, Some(id));
}

#[test]
fn create_new_memo_names_it_by_the_second_and_empties_the_note() {
    let mut current = Some("old".to_string());
    let mut note = String::from("text");
    let id = create_new_memo_at(&mut current, &mut note, 42);
    assert_eq!(id, "42");
    assert_eq!(current, Some("42".to_string()));
    assert_eq!(note, "");
    let mut note = String::from("more");
    let id = create_new_memo(&mut current, &mut note);
    assert!(id.parse::<u64>().unwrap() > 1_500_000_000);
    assert_eq!(current, Some(id));
    assert_eq!(note, "");
}

#[test]
fn get_current_memo_id_copies_it() {
    assert_eq!(get_current_memo_id(&None), None);
    assert_eq!(get_current_memo_id(&Some("7".to_string())), Some("7".to_string()));
}

#[test]
fn clear_note_empties_it() {
    let mut note = String::from("something");
    clear_note(&mut note);
    assert_eq!(note, "");
}

#[test]
fn decimal_string_writes_numerals() {
    assert_eq!(decimal_string(0), "0");
    assert_eq!(decimal_string(7), "7");
    assert_eq!(decimal_string(10), "10");
    assert_eq!(decimal_string(109), "109");
    assert_eq!(decimal_string(1700000000), "1700000000");
    assert_eq!(decimal_string(u64::MAX), "18446744073709551615");
    for n in [1u64, 9, 11, 99, 100, 101, 999_999, 1_000_000, 12_345_678_901_234] {
        assert_eq!(decimal_string(n), n.to_string());
    }
}

#[test]
fn is_blank_agrees_with_trimming() {
    for text in ["", " ", "\t\n\r ", "\u{3000}", "\u{a0}\u{2003}", "a", " a ", "\u{200b}", "  x", "。"] {
        assert_eq!(is_blank(text), text.trim().is_empty(), "text {:?}", text);
    }
    assert!(is_blank(""));
    assert!(is_blank(" \u{3000}\n"));
    assert!(!is_blank(" hello "));
}

#[test]
fn white_space_is_what_the_standard_library_calls_white_space() {
    for code in 0..=0x10FFFFu32 {
        if let Some(c) = char::from_u32(code) {
            assert_eq!(is_white_space_char(c), c.is_whitespace(), "code {:x}", code);
        }
    }
}

#[test]
fn same_text_compares_texts() {
    assert!(same_text("", ""));
    assert!(same_text("show", "show"));
    assert!(!same_text("show", "shown"));
    assert!(!same_text("show", "shot"));
    assert!(same_text("便條", "便條"));
    assert!(!same_text("便條", "便利"));
}

#[test]
fn note_to_save_asks_nothing_for_a_blank_note() {
    let mut current: Option<String> = None;
    assert_eq!(note_to_save_at(&mut current, " \n".to_string(), 8), None);
    assert_eq!(current, Some("8".to_string()));
    assert_eq!(note_to_save(&mut current, "".to_string()), None);
    assert_eq!(current, Some("8".to_string()));
}

#[test]
fn note_to_save_asks_to_save_under_the_current_memo() {
    let mut current = Some("77".to_string());
    assert_eq!(
        note_to_save_at(&mut current, "text".to_string(), 8),
        Some(("77".to_string(), "text".to_string()))
    );
    let mut none: Option<String> = None;
    assert_eq!(
        note_to_save_at(&mut none, "text".to_string(), 9),
        Some(("9".to_string(), "text".to_string()))
    );
    assert_eq!(none, Some("9".to_string()));
}
