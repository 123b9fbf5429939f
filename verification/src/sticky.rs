//! Sticky notes: the notes themselves and the collection that holds them,
//! one note for each id.

use vstd::prelude::*;
use crate::text::texts;

verus! {

/// Where a note's window stands on the screen.
#[derive(Clone, Copy, Debug, PartialEq, Eq, Structural)]
pub struct Position {
    pub x: i32,
    pub y: i32,
}

/// How large a note's window is.
#[derive(Clone, Copy, Debug, PartialEq, Eq, Structural)]
pub struct Size {
    pub width: u32,
    pub height: u32,
}

/// One sticky note.
#[derive(Debug)]
pub struct StickyNote {
    pub id: String,
    pub content: String,
    pub position: Position,
    pub size: Size,
    pub color: String,
    /// In percent; at most [`OPACITY_LIMIT`] in every note of a collection.
    pub opacity: u32,
    pub created_at: u64,
    pub updated_at: u64,
    pub is_visible: bool,
}

/// The value of a [`StickyNote`].
pub struct StickyNoteView {
    pub id: Seq<char>,
    pub content: Seq<char>,
    pub position: Position,
    pub size: Size,
    pub color: Seq<char>,
    pub opacity: u32,
    pub created_at: u64,
    pub updated_at: u64,
    pub is_visible: bool,
}

impl View for StickyNote {
    type V = StickyNoteView;

    open spec fn view(&self) -> StickyNoteView {
        StickyNoteView {
            id: self.id@,
            content: self.content@,
            position: self.position,
            size: self.size,
            color: self.color@,
            opacity: self.opacity,
            created_at: self.created_at,
            updated_at: self.updated_at,
            is_visible: self.is_visible,
        }
    }
}

impl Clone for StickyNote {
    fn clone(&self) -> (copy: StickyNote)
        ensures
            copy@ == self@,
    {
        StickyNote {
            id: self.id.clone(),
            content: self.content.clone(),
            position: self.position,
            size: self.size,
            color: self.color.clone(),
            opacity: self.opacity,
            created_at: self.created_at,
            updated_at: self.updated_at,
            is_visible: self.is_visible,
        }
    }
}

/// The ids of a row of notes, in order.
pub open spec fn ids_of(notes: Seq<StickyNote>) -> Seq<Seq<char>> {
    notes.map_values(|note: StickyNote| note.id@)
}

/// The notes of a row, each under its id. Where two notes share an id, one of
/// them stands for both.
pub open spec fn by_id(notes: Seq<StickyNote>) -> Map<Seq<char>, StickyNoteView> {
    Map::new(
        |id: Seq<char>| ids_of(notes).contains(id),
        |id: Seq<char>| notes[ids_of(notes).index_of(id)]@,
    )
}

/// A note is at most this opaque, in percent.
pub const OPACITY_LIMIT: u32 = 100;

/// `note` with an opacity above [`OPACITY_LIMIT`] brought down to it.
pub open spec fn within_limit(note: StickyNoteView) -> StickyNoteView {
    StickyNoteView {
        id: note.id,
        content: note.content,
        position: note.position,
        size: note.size,
        color: note.color,
        opacity: if note.opacity > OPACITY_LIMIT {
            OPACITY_LIMIT
        } else {
            note.opacity
        },
        created_at: note.created_at,
        updated_at: note.updated_at,
        is_visible: note.is_visible,
    }
}

/// Whether a map holds finitely many notes, each under its own id.
pub open spec fn keyed_by_id(map: Map<Seq<char>, StickyNoteView>) -> bool {
    &&& map.dom().finite()
    &&& forall|id: Seq<char>| map.contains_key(id) ==> (#[trigger] map[id]).id == id
}

/// Whether no note of a map is more opaque than [`OPACITY_LIMIT`].
pub open spec fn opacities_within_limit(map: Map<Seq<char>, StickyNoteView>) -> bool {
    forall|id: Seq<char>| map.contains_key(id) ==> (#[trigger] map[id]).opacity <= OPACITY_LIMIT
}

/// What holds of every collection of sticky notes: it holds finitely many
/// notes, each under its own id, and none more opaque than [`OPACITY_LIMIT`].
pub open spec fn well_kept(map: Map<Seq<char>, StickyNoteView>) -> bool {
    keyed_by_id(map) && opacities_within_limit(map)
}

/// Whether no note of a row is more opaque than [`OPACITY_LIMIT`].
pub open spec fn row_within_limit(notes: Seq<StickyNote>) -> bool {
    forall|i: int| 0 <= i < notes.len() ==> (#[trigger] notes[i]).opacity <= OPACITY_LIMIT
}

/// In a row without a repeated id, each note stands under its own id.
pub proof fn lemma_by_id(notes: Seq<StickyNote>)
    requires
        ids_of(notes).no_duplicates(),
    ensures
        keyed_by_id(by_id(notes)),
        row_within_limit(notes) ==> well_kept(by_id(notes)),
        by_id(notes).dom().finite(),
        by_id(notes).dom() == ids_of(notes).to_set(),
        by_id(notes).len() == notes.len(),
        forall|i: int|
            0 <= i < notes.len() ==> by_id(notes).contains_key(#[trigger] notes[i].id@) && by_id(
                notes,
            )[notes[i].id@] == notes[i]@,
        forall|id: Seq<char>|
            by_id(notes).contains_key(id) ==> exists|i: int|
                0 <= i < notes.len() && #[trigger] notes[i].id@ == id,
{
    let ids = ids_of(notes);
    assert(by_id(notes).dom() =~= ids.to_set());
    ids.unique_seq_to_set();
    assert forall|i: int| 0 <= i < notes.len() implies by_id(notes).contains_key(
        #[trigger] notes[i].id@,
    ) && by_id(notes)[notes[i].id@] == notes[i]@ by {
        assert(ids[i] == notes[i].id@);
        let k = ids.index_of(notes[i].id@);
        assert(0 <= k < ids.len() && ids[k] == ids[i]);
    }
    assert forall|id: Seq<char>| by_id(notes).contains_key(id) implies (exists|i: int|
        0 <= i < notes.len() && #[trigger] notes[i].id@ == id) && by_id(notes)[id].id == id && (
    row_within_limit(notes) ==> by_id(notes)[id].opacity <= OPACITY_LIMIT) by {
        let k = ids.index_of(id);
        assert(0 <= k < ids.len() && ids[k] == id);
        assert(notes[k].id@ == id);
        assert(by_id(notes)[id] == notes[k]@);
    }
}

/// A map that holds each note of a row under its id, and nothing else, is
/// the row's map by id.
pub proof fn lemma_by_id_is(notes: Seq<StickyNote>, map: Map<Seq<char>, StickyNoteView>)
    requires
        ids_of(notes).no_duplicates(),
        forall|i: int|
            0 <= i < notes.len() ==> map.contains_key(#[trigger] notes[i].id@) && map[notes[i].id@]
                == notes[i]@,
        forall|id: Seq<char>|
            map.contains_key(id) ==> exists|i: int|
                0 <= i < notes.len() && #[trigger] notes[i].id@ == id,
    ensures
        by_id(notes) == map,
{
    lemma_by_id(notes);
    assert forall|id: Seq<char>| by_id(notes).contains_key(id) implies map.contains_key(id)
        && map[id] == by_id(notes)[id] by {
        let i = choose|i: int| 0 <= i < notes.len() && #[trigger] notes[i].id@ == id;
        assert(map.contains_key(notes[i].id@));
    }
    assert forall|id: Seq<char>| map.contains_key(id) implies by_id(notes).contains_key(id) by {
        let i = choose|i: int| 0 <= i < notes.len() && #[trigger] notes[i].id@ == id;
        assert(by_id(notes).contains_key(notes[i].id@));
    }
    assert(by_id(notes) =~= map);
}

/// The sticky notes of the application, at most one for each id.
#[derive(Debug)]
pub struct StickyNotes {
    notes: Vec<StickyNote>,
}

impl View for StickyNotes {
    type V = Map<Seq<char>, StickyNoteView>;

    closed spec fn view(&self) -> Map<Seq<char>, StickyNoteView> {
        by_id(self.notes@)
    }
}

/// The position in `row` of the note `id`.
fn position_in(row: &Vec<StickyNote>, id: &String) -> (found: Option<usize>)
    ensures
        match found {
            Some(i) => i < row@.len() && row@[i as int].id@ == id@,
            None => !ids_of(row@).contains(id@),
        },
{
    let mut i: usize = 0;
    while i < row.len()
        invariant
            i <= row.len(),
            forall|j: int| 0 <= j < i ==> (#[trigger] ids_of(row@)[j]) != id@,
        decreases row.len() - i,
    {
        if row[i].id == *id {
            return Some(i);
        }
        assert(ids_of(row@)[i as int] == row@[i as int].id@);
        i += 1;
    }
    None
}

impl StickyNotes {
    #[verifier::type_invariant]
    spec fn distinct_ids_and_opacities_within_limit(&self) -> bool {
        ids_of(self.notes@).no_duplicates() && row_within_limit(self.notes@)
    }

    /// A collection without notes.
    pub fn new() -> (notes: StickyNotes)
        ensures
            notes@ == Map::<Seq<char>, StickyNoteView>::empty(),
            well_kept(notes@),
    {
        let notes = StickyNotes { notes: Vec::new() };
        proof {
            lemma_by_id(notes.notes@);
            assert(notes@ =~= Map::<Seq<char>, StickyNoteView>::empty());
        }
        notes
    }

    /// Takes the row of notes out, leaving the collection empty.
    fn take_row(&mut self) -> (row: Vec<StickyNote>)
        ensures
            ids_of(row@).no_duplicates(),
            row_within_limit(row@),
            by_id(row@) == old(self)@,
            well_kept(old(self)@),
    {
        proof {
            use_type_invariant(&*self);
            lemma_by_id(self.notes@);
        }
        let mut row: Vec<StickyNote> = Vec::new();
        std::mem::swap(&mut self.notes, &mut row);
        row
    }

    /// Makes `row` the notes of the collection.
    fn put_row(&mut self, row: Vec<StickyNote>)
        requires
            ids_of(row@).no_duplicates(),
            row_within_limit(row@),
        ensures
            final(self)@ == by_id(row@),
            well_kept(final(self)@),
    {
        proof {
            lemma_by_id(row@);
        }
        self.notes = row;
    }

    /// The number of notes.
    pub fn len(&self) -> (count: usize)
        ensures
            well_kept(self@),
            count == self@.len(),
    {
        proof {
            use_type_invariant(self);
            lemma_by_id(self.notes@);
        }
        self.notes.len()
    }

    /// The note `id`, if the collection holds it.
    pub fn get(&self, id: &String) -> (found: Option<&StickyNote>)
        ensures
            match found {
                Some(note) => self@.contains_key(id@) && note@ == self@[id@] && note.id@ == id@
                    && note.opacity <= OPACITY_LIMIT,
                None => !self@.contains_key(id@),
            },
    {
        proof {
            use_type_invariant(self);
            lemma_by_id(self.notes@);
        }
        match position_in(&self.notes, id) {
            Some(i) => Some(&self.notes[i]),
            None => None,
        }
    }

    /// Puts `note` under its id, in place of the note that stood there. An
    /// opacity above [`OPACITY_LIMIT`] is stored as that limit.
    pub fn insert(&mut self, note: StickyNote)
        ensures
            final(self)@ == old(self)@.insert(note.id@, within_limit(note@)),
            well_kept(final(self)@),
    {
        let ghost given = note@;
        let mut note = note;
        if note.opacity > OPACITY_LIMIT {
            note.opacity = OPACITY_LIMIT;
        }
        assert(note@ == within_limit(given));
        let mut row = self.take_row();
        let ghost before = row@;
        proof {
            lemma_by_id(before);
        }
        match position_in(&row, &note.id) {
            Some(i) => {
                row.set(i, note);
                proof {
                    assert(ids_of(row@) =~= ids_of(before));
                    let target = by_id(before).insert(note.id@, note@);
                    assert forall|j: int| 0 <= j < row@.len() implies target.contains_key(
                        #[trigger] row@[j].id@,
                    ) && target[row@[j].id@] == row@[j]@ by {
                        if j != i {
                            assert(row@[j] == before[j]);
                            assert(ids_of(before)[j] != ids_of(before)[i as int]);
                        }
                    }
                    assert forall|id: Seq<char>| target.contains_key(id) implies exists|j: int|
                        0 <= j < row@.len() && #[trigger] row@[j].id@ == id by {
                        if id == note.id@ {
                            assert(row@[i as int].id@ == id);
                        } else {
                            let j = choose|j: int|
                                0 <= j < before.len() && #[trigger] before[j].id@ == id;
                            assert(row@[j].id@ == id);
                        }
                    }
                    lemma_by_id_is(row@, target);
                }
            },
            None => {
                row.push(note);
                proof {
                    assert(ids_of(row@) =~= ids_of(before).push(note.id@));
                    assert(ids_of(row@).no_duplicates()) by {
                        assert forall|a: int, b: int|
                            0 <= a < row@.len() && 0 <= b < row@.len() && a != b implies ids_of(
                            row@,
                        )[a] != ids_of(row@)[b] by {
                            if a < before.len() {
                                assert(ids_of(before).contains(ids_of(before)[a]));
                            }
                            if b < before.len() {
                                assert(ids_of(before).contains(ids_of(before)[b]));
                            }
                        }
                    }
                    let target = by_id(before).insert(note.id@, note@);
                    assert forall|j: int| 0 <= j < row@.len() implies target.contains_key(
                        #[trigger] row@[j].id@,
                    ) && target[row@[j].id@] == row@[j]@ by {
                        if j < before.len() {
                            assert(row@[j] == before[j]);
                            assert(ids_of(before).contains(ids_of(before)[j]));
                        }
                    }
                    assert forall|id: Seq<char>| target.contains_key(id) implies exists|j: int|
                        0 <= j < row@.len() && #[trigger] row@[j].id@ == id by {
                        if id == note.id@ {
                            assert(row@[before.len() as int].id@ == id);
                        } else {
                            let j = choose|j: int|
                                0 <= j < before.len() && #[trigger] before[j].id@ == id;
                            assert(row@[j].id@ == id);
                        }
                    }
                    lemma_by_id_is(row@, target);
                }
            },
        }
        self.put_row(row);
    }

    /// Takes the note `id` out of the collection.
    pub fn remove(&mut self, id: &String) -> (removed: Option<StickyNote>)
        ensures
            final(self)@ == old(self)@.remove(id@),
            well_kept(final(self)@),
            match removed {
                Some(note) => old(self)@.contains_key(id@) && note@ == old(self)@[id@] && note.id@
                    == id@ && note.opacity <= OPACITY_LIMIT,
                None => !old(self)@.contains_key(id@),
            },
    {
        let mut row = self.take_row();
        let ghost before = row@;
        proof {
            lemma_by_id(before);
        }
        let removed = match position_in(&row, id) {
            Some(i) => {
                let note = row.remove(i);
                proof {
                    assert(ids_of(row@) =~= ids_of(before).remove(i as int));
                    lemma_remove_keeps_distinct(ids_of(before), i as int);
                    lemma_by_id(row@);
                    assert forall|other: Seq<char>| by_id(before).remove(id@).contains_key(
                        other,
                    ) implies by_id(row@).contains_key(other) && by_id(row@)[other] == by_id(
                        before,
                    )[other] by {
                        let j = choose|j: int| 0 <= j < before.len() && #[trigger] before[j].id@ == other;
                        if j < i {
                            assert(row@[j] == before[j]);
                        } else {
                            assert(row@[j - 1] == before[j]);
                        }
                    }
                    assert forall|other: Seq<char>| by_id(row@).contains_key(other) implies by_id(
                        before,
                    ).remove(id@).contains_key(other) by {
                        let j = choose|j: int| 0 <= j < row@.len() && #[trigger] row@[j].id@ == other;
                        if j < i {
                            assert(row@[j] == before[j]);
                            assert(ids_of(before)[j] == other);
                            assert(ids_of(before)[i as int] == id@);
                        } else {
                            assert(row@[j] == before[j + 1]);
                            assert(ids_of(before)[j + 1] == other);
                            assert(ids_of(before)[i as int] == id@);
                        }
                    }
                    assert(by_id(row@) =~= by_id(before).remove(id@));
                }
                Some(note)
            },
            None => {
                proof {
                    assert(by_id(row@) =~= by_id(before).remove(id@));
                }
                None
            },
        };
        self.put_row(row);
        removed
    }

    /// The ids of the notes, each once.
    pub fn ids(&self) -> (ids: Vec<String>)
        ensures
            texts(ids@).no_duplicates(),
            texts(ids@).to_set() == self@.dom(),
    {
        proof {
            use_type_invariant(self);
            lemma_by_id(self.notes@);
        }
        let mut ids: Vec<String> = Vec::new();
        let mut i: usize = 0;
        while i < self.notes.len()
            invariant
                i <= self.notes.len(),
                texts(ids@) == ids_of(self.notes@).take(i as int),
            decreases self.notes.len() - i,
        {
            let id = self.notes[i].id.clone();
            ids.push(id);
            assert(texts(ids@) =~= ids_of(self.notes@).take(i as int).push(id@));
            assert(texts(ids@) =~= ids_of(self.notes@).take(i + 1));
            i += 1;
        }
        assert(ids_of(self.notes@).take(i as int) =~= ids_of(self.notes@));
        ids
    }

    /// The notes, each once.
    pub fn to_vec(&self) -> (all: Vec<StickyNote>)
        ensures
            ids_of(all@).no_duplicates(),
            row_within_limit(all@),
            by_id(all@) == self@,
            well_kept(self@),
    {
        proof {
            use_type_invariant(self);
            lemma_by_id(self.notes@);
        }
        let mut all: Vec<StickyNote> = Vec::new();
        let mut i: usize = 0;
        while i < self.notes.len()
            invariant
                i <= self.notes.len(),
                all@.len() == i,
                forall|j: int| 0 <= j < i ==> (#[trigger] all@[j])@ == self.notes@[j]@,
            decreases self.notes.len() - i,
        {
            all.push(self.notes[i].clone());
            i += 1;
        }
        proof {
            lemma_same_values(self.notes@, all@);
        }
        all
    }

    /// Marks every note as shown or as hidden.
    pub fn set_all_visible(&mut self, visible: bool)
        ensures
            final(self)@ == old(self)@.map_values(|note: StickyNoteView| shown(note, visible)),
            well_kept(final(self)@),
    {
        let mut row = self.take_row();
        let ghost before = row@;
        let mut i: usize = 0;
        while i < row.len()
            invariant
                i <= row.len(),
                row@.len() == before.len(),
                row_within_limit(before),
                forall|j: int| 0 <= j < i ==> (#[trigger] row@[j])@ == shown(before[j]@, visible),
                forall|j: int| i <= j < row@.len() ==> (#[trigger] row@[j]) == before[j],
            decreases row.len() - i,
        {
            let mut note = row[i].clone();
            note.is_visible = visible;
            row.set(i, note);
            i += 1;
        }
        proof {
            assert(ids_of(row@) =~= ids_of(before));
            lemma_by_id(before);
            lemma_by_id(row@);
            assert(by_id(row@) =~= by_id(before).map_values(
                |note: StickyNoteView| shown(note, visible),
            ));
        }
        self.put_row(row);
    }
}

/// `note`, marked as shown or as hidden.
pub open spec fn shown(note: StickyNoteView, visible: bool) -> StickyNoteView {
    StickyNoteView {
        id: note.id,
        content: note.content,
        position: note.position,
        size: note.size,
        color: note.color,
        opacity: note.opacity,
        created_at: note.created_at,
        updated_at: note.updated_at,
        is_visible: visible,
    }
}

/// Taking one element out of a sequence without a repeated element leaves
/// none repeated.
proof fn lemma_remove_keeps_distinct(ids: Seq<Seq<char>>, i: int)
    requires
        ids.no_duplicates(),
        0 <= i < ids.len(),
    ensures
        ids.remove(i).no_duplicates(),
        !ids.remove(i).contains(ids[i]),
{
    let rest = ids.remove(i);
    assert forall|a: int, b: int| 0 <= a < rest.len() && 0 <= b < rest.len() && a != b implies rest[a]
        != rest[b] by {
        let a0 = if a < i { a } else { a + 1 };
        let b0 = if b < i { b } else { b + 1 };
        assert(rest[a] == ids[a0] && rest[b] == ids[b0]);
    }
    if rest.contains(ids[i]) {
        let a = choose|a: int| 0 <= a < rest.len() && rest[a] == ids[i];
        let a0 = if a < i { a } else { a + 1 };
        assert(rest[a] == ids[a0]);
    }
}

/// Two rows whose notes have the same values, place by place, hold the same
/// notes under the same ids.
proof fn lemma_same_values(a: Seq<StickyNote>, b: Seq<StickyNote>)
    requires
        ids_of(a).no_duplicates(),
        a.len() == b.len(),
        forall|j: int| 0 <= j < a.len() ==> (#[trigger] b[j])@ == a[j]@,
    ensures
        ids_of(b).no_duplicates(),
        by_id(b) == by_id(a),
{
    assert(ids_of(b) =~= ids_of(a)) by {
        assert forall|j: int| 0 <= j < a.len() implies ids_of(b)[j] == ids_of(a)[j] by {
            assert(b[j]@.id == a[j]@.id);
        }
    }
    lemma_by_id(a);
    lemma_by_id(b);
    assert(by_id(b) =~= by_id(a));
}

} // verus!
