//! Font settings and the list of installed font families.

use font_kit::error::SelectionError;
use font_kit::source::SystemSource;
use vstd::prelude::*;
use vstd::string::StringExecFns;
use vstd::utf8::encode_utf8;
use crate::errors::{MemoError, MemoErrorView};
use crate::text::texts;
use crate::store::Loaded;

verus! {

/// The fonts in which the notes are shown.
#[derive(Debug)]
pub struct FontConfig {
    pub chinese_font: String,
    pub english_font: String,
}

/// The value of a [`FontConfig`].
pub struct FontConfigView {
    pub chinese_font: Seq<char>,
    pub english_font: Seq<char>,
}

impl View for FontConfig {
    type V = FontConfigView;

    open spec fn view(&self) -> FontConfigView {
        FontConfigView { chinese_font: self.chinese_font@, english_font: self.english_font@ }
    }
}

impl Clone for FontConfig {
    fn clone(&self) -> (copy: FontConfig)
        ensures
            copy@ == self@,
    {
        FontConfig {
            chinese_font: self.chinese_font.clone(),
            english_font: self.english_font.clone(),
        }
    }
}

/// The settings in force where none were ever saved.
pub open spec fn default_font_config() -> FontConfigView {
    FontConfigView { chinese_font: "Microsoft JhengHei"@, english_font: "Segoe UI"@ }
}

impl Default for FontConfig {
    fn default() -> (config: FontConfig)
        ensures
            config@ == default_font_config(),
    {
        FontConfig {
            chinese_font: String::from_str("Microsoft JhengHei"),
            english_font: String::from_str("Segoe UI"),
        }
    }
}

/// The font settings that a read of the settings file yielded: those in the
/// file, and the default where there is no file or the file holds something
/// else.
pub fn load_font_config(loaded: Loaded<FontConfig>) -> (config: Result<FontConfig, MemoError>)
    ensures
        match loaded {
            Loaded::Parsed(stored) => config == Ok::<FontConfig, MemoError>(stored),
            _ => config matches Ok(settings) && settings@ == default_font_config(),
        },
{
    match loaded {
        Loaded::Parsed(stored) => Ok(stored),
        _ => Ok(FontConfig::default()),
    }
}

/// The settings to store for the two fonts.
pub fn save_font_config(chinese_font: String, english_font: String) -> (config: FontConfig)
    ensures
        config.chinese_font == chinese_font,
        config.english_font == english_font,
{
    FontConfig { chinese_font, english_font }
}

/// Whether `a` comes before `b`, or equals it, in the lexicographic order of
/// bytes.
pub open spec fn bytes_le(a: Seq<u8>, b: Seq<u8>) -> bool
    decreases a.len(),
{
    if a.len() == 0 {
        true
    } else if b.len() == 0 {
        false
    } else if a[0] != b[0] {
        a[0] < b[0]
    } else {
        bytes_le(a.drop_first(), b.drop_first())
    }
}

/// The order of strings: that of their UTF-8 bytes.
pub open spec fn text_le(a: Seq<char>, b: Seq<char>) -> bool {
    bytes_le(encode_utf8(a), encode_utf8(b))
}

/// Whether each name comes before the ones that follow it, or equals them.
pub open spec fn sorted(names: Seq<Seq<char>>) -> bool {
    forall|i: int, j: int| 0 <= i < j < names.len() ==> text_le(names[i], names[j])
}

/// Of two byte strings one comes before the other, or they are equal.
pub proof fn lemma_bytes_le_total(a: Seq<u8>, b: Seq<u8>)
    ensures
        bytes_le(a, b) || bytes_le(b, a),
    decreases a.len(),
{
    if a.len() > 0 && b.len() > 0 && a[0] == b[0] {
        lemma_bytes_le_total(a.drop_first(), b.drop_first());
    }
}

/// What comes before something that comes before a third comes before the
/// third.
pub proof fn lemma_bytes_le_transitive(a: Seq<u8>, b: Seq<u8>, c: Seq<u8>)
    requires
        bytes_le(a, b),
        bytes_le(b, c),
    ensures
        bytes_le(a, c),
    decreases a.len(),
{
    if a.len() > 0 && b.len() > 0 && c.len() > 0 && a[0] == b[0] && b[0] == c[0] {
        lemma_bytes_le_transitive(a.drop_first(), b.drop_first(), c.drop_first());
    }
}

/// Whether `a` comes before `b`, or equals it.
pub fn text_comes_first(a: &str, b: &str) -> (first: bool)
    ensures
        first == text_le(a@, b@),
{
    let x = a.as_bytes();
    let y = b.as_bytes();
    let mut i: usize = 0;
    assert(x@.skip(0) =~= x@ && y@.skip(0) =~= y@);
    while i < x.len() && i < y.len()
        invariant
            i <= x@.len(),
            i <= y@.len(),
            x@ == encode_utf8(a@),
            y@ == encode_utf8(b@),
            bytes_le(x@, y@) == bytes_le(x@.skip(i as int), y@.skip(i as int)),
        decreases x.len() - i,
    {
        proof {
            assert(x@.skip(i as int).drop_first() =~= x@.skip(i + 1));
            assert(y@.skip(i as int).drop_first() =~= y@.skip(i + 1));
        }
        if x[i] != y[i] {
            return x[i] < y[i];
        }
        i += 1;
    }
    i == x.len()
}

/// Sorts the names, in the order of their UTF-8 bytes.
pub fn sort_families(families: &mut Vec<String>)
    ensures
        sorted(texts(final(families)@)),
        texts(final(families)@).to_multiset() == texts(old(families)@).to_multiset(),
{
    let mut done: usize = 0;
    while done < families.len()
        invariant
            done <= families.len(),
            sorted(texts(families@).take(done as int)),
            texts(families@).to_multiset() == texts(old(families)@).to_multiset(),
        decreases families.len() - done,
    {
        let ghost before = texts(families@);
        let ghost front = before.take(done as int);
        let name = families.remove(done);
        assert(texts(families@) =~= before.remove(done as int));
        let mut place: usize = done;
        while place > 0 && !text_comes_first(families[place - 1].as_str(), name.as_str())
            invariant
                place <= done,
                done <= families.len(),
                texts(families@) == before.remove(done as int),
                forall|k: int| place <= k < done ==> !text_le(#[trigger] texts(families@)[k], name@),
            decreases place,
        {
            place -= 1;
        }
        let ghost rest = texts(families@);
        families.insert(place, name);
        proof {
            let after = texts(families@);
            assert(after =~= rest.insert(place as int, name@));
            vstd::seq_lib::to_multiset_remove(before, done as int);
            vstd::seq_lib::to_multiset_insert(rest, place as int, name@);
            assert(before[done as int] == name@);
            assert(before.to_multiset().count(name@) > 0) by {
                before.to_multiset_ensures();
                assert(before.contains(name@));
            }
            assert(after.to_multiset() =~= before.to_multiset());
            let grown = after.take(done + 1);
            assert forall|i: int, j: int| 0 <= i < j < grown.len() implies text_le(
                grown[i],
                grown[j],
            ) by {
                if j < place {
                    assert(grown[i] == front[i] && grown[j] == front[j]);
                } else if j == place {
                    assert(grown[i] == front[i]);
                    assert(rest[place - 1] == front[place - 1]);
                    if i < place - 1 {
                        assert(text_le(front[i], front[place - 1]));
                        lemma_bytes_le_transitive(
                            encode_utf8(front[i]),
                            encode_utf8(front[place - 1]),
                            encode_utf8(name@),
                        );
                    }
                } else if i == place {
                    assert(grown[j] == front[j - 1]);
                    assert(rest[j - 1] == front[j - 1]);
                    lemma_bytes_le_total(encode_utf8(front[j - 1]), encode_utf8(name@));
                } else if i < place {
                    assert(grown[i] == front[i] && grown[j] == front[j - 1]);
                } else {
                    assert(grown[i] == front[i - 1] && grown[j] == front[j - 1]);
                }
            }
        }
        done += 1;
    }
    assert(texts(families@).take(done as int) =~= texts(families@));
}

/// The font database of the operating system, as `font_kit` holds it. It is
/// opaque here.
#[verifier::external_type_specification]
#[verifier::external_body]
pub struct ExSystemSource(SystemSource);

/// The reason why `font_kit` could not look fonts up. It is opaque here.
#[verifier::external_type_specification]
#[verifier::external_body]
pub struct ExSelectionError(SelectionError);

/// `SystemSource::new` opens the font database of the operating system.
/// Nothing is claimed of it.
#[verifier::external_body]
fn open_system_source() -> (source: SystemSource) {
    SystemSource::new()
}

/// `SystemSource::all_families` lists the names of the font families that are
/// installed, or fails. The list depends on the machine, so nothing is claimed
/// of it.
#[verifier::external_body]
fn all_families(source: &SystemSource) -> (found: Result<Vec<String>, SelectionError>) {
    source.all_families()
}

/// The `Display` form of a `SelectionError`. Nothing is claimed of the text.
#[verifier::external_body]
fn selection_error_text(error: &SelectionError) -> (text: String) {
    format!("{}", error)
}

/// The font list to show, from what the font source found: the names in
/// order, or the failure with the source's account of it.
pub fn font_list(found: Result<Vec<String>, String>) -> (list: Result<Vec<String>, MemoError>)
    ensures
        match found {
            Ok(names) => list matches Ok(sorted_names) && sorted(texts(sorted_names@)) && texts(
                sorted_names@,
            ).to_multiset() == texts(names@).to_multiset(),
            Err(detail) => list matches Err(error) && error@ == MemoErrorView::FontsUnavailable(
                detail@,
            ),
        },
{
    match found {
        Ok(names) => {
            let mut sorted_names = names;
            sort_families(&mut sorted_names);
            Ok(sorted_names)
        },
        Err(detail) => Err(MemoError::FontsUnavailable(detail)),
    }
}

/// The names of the font families that are installed, in order, or the reason
/// why they cannot be listed.
pub fn get_system_fonts() -> (list: Result<Vec<String>, MemoError>)
    ensures
        match list {
            Ok(names) => sorted(texts(names@)),
            Err(error) => error@ is FontsUnavailable,
        },
{
    let source = open_system_source();
    let found = match all_families(&source) {
        Ok(names) => Ok(names),
        Err(error) => Err(selection_error_text(&error)),
    };
    font_list(found)
}

} // verus!
