use upmemo::errors::MemoError;
use upmemo::sticky::{Position, Size, StickyNote, StickyNotes, OPACITY_LIMIT};
use upmemo::sticky_commands::{
    close_sticky_note, create_sticky_note, create_sticky_note_at, delete_sticky_note,
    get_all_sticky_notes, toggle_all_sticky_notes, toggle_windows, update_sticky_note,
    update_sticky_note_at, window_title,
};

fn note(id: &str, is_visible: bool) -> StickyNote {
    StickyNote {
        id: id.to_string(),
        content: format!("content of {}", id),
        position: Position { x: 1, y: 2 },
        size: Size { width: 3, height: 4 },
        color: "blue".to_string(),
        opacity: 80,
        created_at: 10,
        updated_at: 20,
        is_visible,
    }
}

fn sorted_ids(notes: &StickyNotes) -> Vec<String> {
    let mut ids = notes.ids();
    ids.sort();
    ids
}

#[test]
fn a_new_collection_is_empty() {
    let notes = StickyNotes::new();
    assert_eq!(notes.len(), 0);
    assert!(notes.get(&"a".to_string()).is_none());
    assert!(notes.ids().is_empty());
    assert!(notes.to_vec().is_empty());
}

#[test]
fn insert_adds_or_replaces_by_id() {
    let mut notes = StickyNotes::new();
    notes.insert(note("a", true));
    notes.insert(note("b", true));
    assert_eq!(notes.len(), 2);
    let mut changed = note("a", false);
    changed.content = "replaced".to_string();
    notes.insert(changed);
    assert_eq!(notes.len(), 2);
    let found = notes.get(&"a".to_string()).unwrap();
    assert_eq!(found.content, "replaced");
    assert!(!found.is_visible);
    assert_eq!(notes.get(&"b".to_string()).unwrap().content, "content of b");
    assert_eq!(sorted_ids(&notes), vec!["a", "b"]);
}

#[test]
fn remove_takes_the_note_out() {
    let mut notes = StickyNotes::new();
    notes.insert(note("a", true));
    notes.insert(note("b", true));
    notes.insert(note("c", true));
    let removed = notes.remove(&"b".to_string()).unwrap();
    assert_eq!(removed.id, "b");
    assert_eq!(removed.content, "content of b");
    assert_eq!(sorted_ids(&notes), vec!["a", "c"]);
    assert!(notes.remove(&"b".to_string()).is_none());
    assert_eq!(notes.len(), 2);
}

#[test]
fn create_uses_the_defaults() {
    let mut notes = StickyNotes::new();
    let id = create_sticky_note_at(&mut notes, None, None, None, 1700000000, 1700000001).id;
    assert_eq!(id, "sticky_1700000000");
    assert_eq!(notes.len(), 1);
    let made = notes.get(&id).unwrap();
    assert_eq!(made.id, "sticky_1700000000");
    assert_eq!(made.content, "");
    assert_eq!(made.position, Position { x: 100, y: 100 });
    assert_eq!(made.size, Size { width: 350, height: 250 });
    assert_eq!(made.color, "yellow");
    assert_eq!(made.opacity, 100);
    assert_eq!(made.created_at, 1700000001);
    assert_eq!(made.updated_at, 1700000001);
    assert!(made.is_visible);
}

#[test]
fn create_sets_each_new_note_off_by_thirty_and_starts_over_at_three_hundred() {
    let mut notes = StickyNotes::new();
    let expected = [100, 130, 160, 190, 220, 250, 280, 310, 340, 370, 100, 130];
    for (count, corner) in expected.iter().enumerate() {
        assert_eq!(notes.len(), count);
        let id = create_sticky_note_at(&mut notes, None, None, None, count as u64, 0).id;
        let made = notes.get(&id).unwrap();
        assert_eq!(made.position, Position { x: *corner, y: *corner }, "with {} notes", count);
    }
}

#[test]
fn create_takes_the_place_and_the_color_that_were_asked_for() {
    let mut notes = StickyNotes::new();
    notes.insert(note("a", true));
    let id = create_sticky_note_at(&mut notes, Some(-5), None, Some("pink".to_string()), 3, 4).id;
    let made = notes.get(&id).unwrap();
    assert_eq!(made.position, Position { x: -5, y: 130 });
    assert_eq!(made.color, "pink");
    let id = create_sticky_note_at(&mut notes, None, Some(7), None, 5, 6).id;
    let made = notes.get(&id).unwrap();
    assert_eq!(made.position, Position { x: 160, y: 7 });
}

#[test]
fn create_in_the_same_second_replaces_the_note() {
    let mut notes = StickyNotes::new();
    let first = create_sticky_note_at(&mut notes, Some(1), Some(1), None, 50, 50).id;
    let second = create_sticky_note_at(&mut notes, Some(2), Some(2), None, 50, 51).id;
    assert_eq!(first, second);
    assert_eq!(notes.len(), 1);
    assert_eq!(notes.get(&first).unwrap().position, Position { x: 2, y: 2 });
}

#[test]
fn create_by_the_clock_names_the_note_by_the_second() {
    let mut notes = StickyNotes::new();
    let returned = create_sticky_note(&mut notes, None, None, None);
    let id = returned.id.clone();
    assert!(id.starts_with("sticky_"));
    assert_eq!(returned.position, Position { x: 100, y: 100 });
    assert_eq!(returned.color, "yellow");
    let seconds: u64 = id["sticky_".len()..].parse().unwrap();
    assert!(seconds > 1_500_000_000);
    let made = notes.get(&id).unwrap();
    assert!(made.created_at >= seconds);
    assert_eq!(made.created_at, made.updated_at);
}

#[test]
fn update_changes_only_what_is_given() {
    let mut notes = StickyNotes::new();
    notes.insert(note("a", true));
    notes.insert(note("b", true));
    let outcome = update_sticky_note_at(
        &mut notes,
        &"a".to_string(),
        Some("new text".to_string()),
        None,
        Some(Size { width: 400, height: 300 }),
        None,
        Some(55),
        99,
    );
    assert!(outcome.is_ok());
    let changed = notes.get(&"a".to_string()).unwrap();
    assert_eq!(changed.content, "new text");
    assert_eq!(changed.position, Position { x: 1, y: 2 });
    assert_eq!(changed.size, Size { width: 400, height: 300 });
    assert_eq!(changed.color, "blue");
    assert_eq!(changed.opacity, 55);
    assert_eq!(changed.created_at, 10);
    assert_eq!(changed.updated_at, 99);
    assert!(changed.is_visible);
    let other = notes.get(&"b".to_string()).unwrap();
    assert_eq!(other.content, "content of b");
    assert_eq!(other.updated_at, 20);
}

#[test]
fn update_with_nothing_given_still_records_the_second() {
    let mut notes = StickyNotes::new();
    notes.insert(note("a", false));
    let outcome =
        update_sticky_note_at(&mut notes, &"a".to_string(), None, None, None, None, None, 77);
    assert!(outcome.is_ok());
    let changed = notes.get(&"a".to_string()).unwrap();
    assert_eq!(changed.content, "content of a");
    assert_eq!(changed.updated_at, 77);
    assert!(!changed.is_visible);
}

#[test]
fn update_sets_place_and_color() {
    let mut notes = StickyNotes::new();
    notes.insert(note("a", true));
    let outcome = update_sticky_note(
        &mut notes,
        &"a".to_string(),
        None,
        Some(Position { x: -10, y: 20 }),
        None,
        Some("green".to_string()),
        None,
    );
    assert!(outcome.is_ok());
    let changed = notes.get(&"a".to_string()).unwrap();
    assert_eq!(changed.position, Position { x: -10, y: 20 });
    assert_eq!(changed.color, "green");
    assert!(changed.updated_at > 1_500_000_000);
}

#[test]
fn update_of_an_unknown_note_fails_and_changes_nothing() {
    let mut notes = StickyNotes::new();
    notes.insert(note("a", true));
    let outcome = update_sticky_note_at(
        &mut notes,
        &"ghost".to_string(),
        Some("x".to_string()),
        None,
        None,
        None,
        None,
        5,
    );
    match outcome {
        Err(MemoError::StickyNoteNotFound(id)) => assert_eq!(id, "ghost"),
        other => panic!("unexpected outcome: {:?}", other),
    }
    assert_eq!(notes.len(), 1);
    let kept = notes.get(&"a".to_string()).unwrap();
    assert_eq!(kept.content, "content of a");
    assert_eq!(kept.updated_at, 20);
}

#[test]
fn close_hides_the_note_and_keeps_it() {
    let mut notes = StickyNotes::new();
    notes.insert(note("a", true));
    notes.insert(note("b", true));
    assert!(close_sticky_note(&mut notes, &"a".to_string()));
    assert_eq!(notes.len(), 2);
    let closed = notes.get(&"a".to_string()).unwrap();
    assert!(!closed.is_visible);
    assert_eq!(closed.content, "content of a");
    assert_eq!(closed.updated_at, 20);
    assert!(notes.get(&"b".to_string()).unwrap().is_visible);
    assert!(!close_sticky_note(&mut notes, &"ghost".to_string()));
    assert_eq!(notes.len(), 2);
}

#[test]
fn delete_removes_the_note() {
    let mut notes = StickyNotes::new();
    notes.insert(note("a", true));
    notes.insert(note("b", true));
    assert!(delete_sticky_note(&mut notes, &"a".to_string()));
    assert_eq!(sorted_ids(&notes), vec!["b"]);
    assert!(!delete_sticky_note(&mut notes, &"a".to_string()));
    assert_eq!(sorted_ids(&notes), vec!["b"]);
}

#[test]
fn toggle_all_marks_every_note() {
    let mut notes = StickyNotes::new();
    notes.insert(note("a", true));
    notes.insert(note("b", false));
    toggle_all_sticky_notes(&mut notes, false);
    assert!(get_all_sticky_notes(&notes).iter().all(|n| !n.is_visible));
    toggle_all_sticky_notes(&mut notes, true);
    let all = get_all_sticky_notes(&notes);
    assert_eq!(all.len(), 2);
    assert!(all.iter().all(|n| n.is_visible));
    assert_eq!(notes.get(&"a".to_string()).unwrap().content, "content of a");
    assert_eq!(notes.get(&"b".to_string()).unwrap().opacity, 80);
}

#[test]
fn toggle_windows_hides_everything_when_the_main_window_shows() {
    let mut notes = StickyNotes::new();
    notes.insert(note("a", true));
    notes.insert(note("b", false));
    assert!(toggle_windows(&mut notes, Some(true)));
    assert!(get_all_sticky_notes(&notes).iter().all(|n| !n.is_visible));
}

#[test]
fn toggle_windows_shows_everything_otherwise() {
    let mut notes = StickyNotes::new();
    notes.insert(note("a", false));
    notes.insert(note("b", false));
    assert!(!toggle_windows(&mut notes, Some(false)));
    assert!(get_all_sticky_notes(&notes).iter().all(|n| n.is_visible));
    toggle_all_sticky_notes(&mut notes, false);
    assert!(!toggle_windows(&mut notes, None));
    assert!(get_all_sticky_notes(&notes).iter().all(|n| n.is_visible));
}

#[test]
fn get_all_returns_each_note_once() {
    let mut notes = StickyNotes::new();
    for id in ["c", "a", "b", "a"] {
        notes.insert(note(id, true));
    }
    let mut ids: Vec<String> = get_all_sticky_notes(&notes).into_iter().map(|n| n.id).collect();
    ids.sort();
    assert_eq!(ids, vec!["a", "b", "c"]);
}

#[test]
fn window_title_names_the_note() {
    assert_eq!(window_title("sticky_17"), "UpMemo - sticky_17");
    assert_eq!(window_title(""), "UpMemo - ");
}

#[test]
fn the_opacity_limit_is_one_hundred() {
    assert_eq!(OPACITY_LIMIT, 100);
}

#[test]
fn update_stores_an_opacity_above_the_limit_as_the_limit() {
    let mut notes = StickyNotes::new();
    notes.insert(note("a", true));
    for (asked, stored) in [(150, 100), (101, 100), (100, 100), (99, 99), (0, 0), (u32::MAX, 100)] {
        let outcome = update_sticky_note_at(
            &mut notes,
            &"a".to_string(),
            None,
            None,
            None,
            None,
            Some(asked),
            5,
        );
        assert!(outcome.is_ok());
        assert_eq!(notes.get(&"a".to_string()).unwrap().opacity, stored, "asked {}", asked);
    }
    assert!(update_sticky_note(&mut notes, &"a".to_string(), None, None, None, None, Some(300))
        .is_ok());
    assert_eq!(notes.get(&"a".to_string()).unwrap().opacity, 100);
}

#[test]
fn insert_stores_an_opacity_above_the_limit_as_the_limit() {
    let mut notes = StickyNotes::new();
    let mut glaring = note("a", true);
    glaring.opacity = 250;
    notes.insert(glaring);
    let stored = notes.get(&"a".to_string()).unwrap();
    assert_eq!(stored.opacity, 100);
    assert_eq!(stored.content, "content of a");
    assert!(get_all_sticky_notes(&notes).iter().all(|n| n.opacity <= 100));
}
