//! Memo entries and the elementary operations on lists of them.
//!
//! A list of memos is kept newest first. Every operation here is stated over
//! the list's value, a sequence of [`MemoEntryView`].

use vstd::prelude::*;

verus! {

/// A snapshot of one memo: its identity, its text and the second at which it
/// was last written.
#[derive(Debug)]
pub struct MemoEntry {
    pub id: String,
    pub content: String,
    pub timestamp: u64,
}

/// The mathematical value of a [`MemoEntry`].
pub struct MemoEntryView {
    pub id: Seq<char>,
    pub content: Seq<char>,
    pub timestamp: u64,
}

impl View for MemoEntry {
    type V = MemoEntryView;

    open spec fn view(&self) -> MemoEntryView {
        MemoEntryView { id: self.id@, content: self.content@, timestamp: self.timestamp }
    }
}

impl Clone for MemoEntry {
    fn clone(&self) -> (copy: MemoEntry)
        ensures
            copy@ == self@,
    {
        MemoEntry { id: self.id.clone(), content: self.content.clone(), timestamp: self.timestamp }
    }
}

/// The values of the entries of a list, in order.
pub open spec fn entries_view(list: Seq<MemoEntry>) -> Seq<MemoEntryView> {
    list.map_values(|e: MemoEntry| e@)
}

/// Whether some entry of `list` carries the id `id`.
pub open spec fn has_id(list: Seq<MemoEntryView>, id: Seq<char>) -> bool {
    exists|i: int| 0 <= i < list.len() && (#[trigger] list[i]).id == id
}

/// The position of the first entry of `list` whose id is `id`, if there is one.
pub open spec fn first_with_id(list: Seq<MemoEntryView>, id: Seq<char>) -> Option<int>
    decreases list.len(),
{
    if list.len() == 0 {
        None
    } else if list[0].id == id {
        Some(0int)
    } else {
        match first_with_id(list.drop_first(), id) {
            Some(i) => Some(i + 1),
            None => None,
        }
    }
}

/// `list` without the entries whose id is `id`; the others keep their order.
pub open spec fn without_id(list: Seq<MemoEntryView>, id: Seq<char>) -> Seq<MemoEntryView> {
    list.filter(|e: MemoEntryView| e.id != id)
}

/// `list` with `entry` put in front of it.
pub open spec fn with_head(list: Seq<MemoEntryView>, entry: MemoEntryView) -> Seq<MemoEntryView> {
    seq![entry] + list
}

/// The first `limit` entries of `list`, or all of it where it has no more.
pub open spec fn capped(list: Seq<MemoEntryView>, limit: nat) -> Seq<MemoEntryView> {
    if list.len() > limit {
        list.take(limit as int)
    } else {
        list
    }
}

/// `first_with_id` returns the least position that carries the id, and a
/// position exactly when some entry carries it.
pub proof fn lemma_first_with_id(list: Seq<MemoEntryView>, id: Seq<char>)
    ensures
        first_with_id(list, id) is Some <==> has_id(list, id),
        match first_with_id(list, id) {
            Some(i) => {
                &&& 0 <= i < list.len()
                &&& list[i].id == id
                &&& forall|j: int| 0 <= j < i ==> (#[trigger] list[j]).id != id
            },
            None => forall|j: int| 0 <= j < list.len() ==> (#[trigger] list[j]).id != id,
        },
    decreases list.len(),
{
    if list.len() == 0 {
    } else if list[0].id == id {
        assert(has_id(list, id));
    } else {
        let rest = list.drop_first();
        lemma_first_with_id(rest, id);
        assert(forall|j: int| 0 <= j < rest.len() ==> rest[j] == list[j + 1]);
        match first_with_id(rest, id) {
            Some(i) => {
                assert(list[i + 1].id == id);
                assert(has_id(list, id));
                assert forall|j: int| 0 <= j < i + 1 implies (#[trigger] list[j]).id != id by {
                    if j > 0 {
                        assert(rest[j - 1].id != id);
                    }
                }
            },
            None => {
                assert forall|j: int| 0 <= j < list.len() implies (#[trigger] list[j]).id != id by {
                    if j > 0 {
                        assert(rest[j - 1].id != id);
                    }
                }
            },
        }
    }
}

/// A position that carries the id, with none before it that does, is the one
/// that `first_with_id` returns.
pub proof fn lemma_first_with_id_at(list: Seq<MemoEntryView>, id: Seq<char>, i: int)
    requires
        0 <= i < list.len(),
        list[i].id == id,
        forall|j: int| 0 <= j < i ==> (#[trigger] list[j]).id != id,
    ensures
        first_with_id(list, id) == Some(i),
{
    lemma_first_with_id(list, id);
    assert(has_id(list, id));
    let k = first_with_id(list, id).unwrap();
    if k < i {
        assert(list[k].id != id);
    } else if i < k {
        assert(list[i].id != id);
    }
}

/// Nothing that `without_id` keeps carries the id, and it keeps no more than
/// there was.
pub proof fn lemma_without_id(list: Seq<MemoEntryView>, id: Seq<char>)
    ensures
        !has_id(without_id(list, id), id),
        first_with_id(without_id(list, id), id) is None,
        without_id(list, id).len() <= list.len(),
        has_id(list, id) ==> without_id(list, id).len() < list.len(),
        !has_id(list, id) ==> without_id(list, id) == list,
    decreases list.len(),
{
    reveal(Seq::filter);
    let keep = |e: MemoEntryView| e.id != id;
    let kept = without_id(list, id);
    if list.len() > 0 {
        let front = list.drop_last();
        lemma_without_id(front, id);
        let kept_front = without_id(front, id);
        if has_id(kept, id) {
            let i = choose|i: int| 0 <= i < kept.len() && (#[trigger] kept[i]).id == id;
            if i < kept_front.len() {
                assert(kept_front[i].id == id);
            }
        }
        if has_id(list, id) && !(list.last().id == id) {
            let i = choose|i: int| 0 <= i < list.len() && (#[trigger] list[i]).id == id;
            assert(front[i].id == id);
        }
        if !has_id(list, id) {
            assert(list.last() == list[list.len() - 1]);
            if has_id(front, id) {
                let i = choose|i: int| 0 <= i < front.len() && (#[trigger] front[i]).id == id;
                assert(list[i].id == id);
            }
            assert(kept =~= list);
        }
    }
    lemma_first_with_id(kept, id);
}

/// What `without_id` makes of a list with an entry put in front: the entry
/// stays in front unless it carries the id.
pub proof fn lemma_without_id_of_head(list: Seq<MemoEntryView>, entry: MemoEntryView, id: Seq<char>)
    ensures
        without_id(with_head(list, entry), id) == if entry.id == id {
            without_id(list, id)
        } else {
            with_head(without_id(list, id), entry)
        },
    decreases list.len(),
{
    reveal_with_fuel(Seq::filter, 2);
    let grown = with_head(list, entry);
    if list.len() == 0 {
        assert(grown.drop_last() =~= Seq::<MemoEntryView>::empty());
        assert(without_id(grown, id) =~= if entry.id == id {
            without_id(list, id)
        } else {
            with_head(without_id(list, id), entry)
        });
    } else {
        assert(grown.drop_last() =~= with_head(list.drop_last(), entry));
        assert(grown.last() == list.last());
        lemma_without_id_of_head(list.drop_last(), entry, id);
        assert(without_id(grown, id) =~= if entry.id == id {
            without_id(list, id)
        } else {
            with_head(without_id(list, id), entry)
        });
    }
}

/// The position of the first entry of `list` whose id is `id`.
pub fn find_entry(list: &Vec<MemoEntry>, id: &String) -> (found: Option<usize>)
    ensures
        found is Some <==> has_id(entries_view(list@), id@),
        match found {
            Some(i) => first_with_id(entries_view(list@), id@) == Some(i as int) && i < list.len(),
            None => first_with_id(entries_view(list@), id@) is None,
        },
{
    let ghost whole = entries_view(list@);
    let mut i: usize = 0;
    while i < list.len()
        invariant
            i <= list.len(),
            whole == entries_view(list@),
            forall|j: int| 0 <= j < i ==> (#[trigger] whole[j]).id != id@,
        decreases list.len() - i,
    {
        if list[i].id == *id {
            proof {
                lemma_first_with_id_at(whole, id@, i as int);
                lemma_first_with_id(whole, id@);
            }
            return Some(i);
        }
        i += 1;
    }
    proof {
        lemma_first_with_id(whole, id@);
    }
    None
}

/// Removes every entry whose id is `id`.
pub fn remove_entries_with_id(list: &mut Vec<MemoEntry>, id: &String)
    ensures
        entries_view(final(list)@) == without_id(entries_view(old(list)@), id@),
{
    let ghost whole = entries_view(list@);
    let mut kept: Vec<MemoEntry> = Vec::new();
    let mut i: usize = 0;
    proof {
        reveal(Seq::filter);
        assert(whole.take(0) =~= Seq::<MemoEntryView>::empty());
    }
    while i < list.len()
        invariant
            i <= list.len(),
            whole == entries_view(list@),
            entries_view(kept@) == without_id(whole.take(i as int), id@),
        decreases list.len() - i,
    {
        proof {
            reveal(Seq::filter);
            assert(whole.take(i + 1).drop_last() =~= whole.take(i as int));
            assert(whole.take(i + 1).last() == whole[i as int]);
        }
        if !(list[i].id == *id) {
            let entry = list[i].clone();
            kept.push(entry);
            assert(entries_view(kept@) =~= without_id(whole.take(i as int), id@).push(whole[i as int]));
        }
        i += 1;
    }
    assert(whole.take(i as int) =~= whole);
    *list = kept;
}

/// Puts `entry` in front of the list.
pub fn insert_at_head(list: &mut Vec<MemoEntry>, entry: MemoEntry)
    ensures
        entries_view(final(list)@) == with_head(entries_view(old(list)@), entry@),
{
    list.insert(0, entry);
    assert(entries_view(list@) =~= with_head(entries_view(old(list)@), entry@));
}

/// Drops what follows the first `limit` entries.
pub fn cap_entries(list: &mut Vec<MemoEntry>, limit: usize)
    ensures
        entries_view(final(list)@) == capped(entries_view(old(list)@), limit as nat),
        final(list).len() <= limit,
{
    if list.len() > limit {
        list.truncate(limit);
    }
    assert(entries_view(list@) =~= capped(entries_view(old(list)@), limit as nat));
}

} // verus!
