//! The global keyboard shortcut: what to ask of the operating system when a
//! shortcut is registered or given up, and what to remember afterwards.
//!
//! The operating system is not called from here. A plan says which shortcut
//! to release and which to claim; the caller carries it out and then records
//! the outcome with [`shortcut_registered`] or [`shortcut_unregistered`].

use global_hotkey::hotkey::HotKey;
use vstd::prelude::*;
use vstd::string::StringExecFns;
use crate::errors::{MemoError, MemoErrorView};

verus! {

/// A hotkey of `global_hotkey`: modifier keys and one key. It is opaque here
/// and only carried from the parser to the caller.
#[verifier::external_type_specification]
#[verifier::external_body]
pub struct ExHotKey(HotKey);

/// What the hotkey parser objects to in `text`: `None` where `text` is a
/// hotkey, else the parser's error in its `Debug` form.
pub uninterp spec fn hotkey_parse_error(text: Seq<char>) -> Option<Seq<char>>;

/// `<HotKey as FromStr>::from_str`, reached through `str::parse`: the hotkey
/// that `text` spells, or the parser's error rendered with `{:?}`. The parser
/// reads nothing but `text`, so whether it accepts a text, and with which
/// error it rejects one, is fixed by the text. Nothing is claimed of the
/// hotkey itself.
#[verifier::external_body]
fn parse_hotkey(text: &str) -> (parsed: Result<HotKey, String>)
    ensures
        match parsed {
            Ok(_) => hotkey_parse_error(text@) is None,
            Err(detail) => hotkey_parse_error(text@) == Some(detail@),
        },
{
    match text.parse::<HotKey>() {
        Ok(key) => Ok(key),
        Err(error) => Err(format!("{:?}", error)),
    }
}

/// A keyboard shortcut that parsed: its text and the hotkey that the parser
/// made of that text.
#[derive(Debug)]
pub struct Shortcut {
    pub text: String,
    pub key: HotKey,
}

/// Parses `text`: the shortcut of that text, or the parser's error in its
/// `Debug` form. The hotkey of the shortcut is the one that the parser
/// returned for `text`.
pub fn parse_shortcut(text: &str) -> (parsed: Result<Shortcut, String>)
    ensures
        match parsed {
            Ok(shortcut) => hotkey_parse_error(text@) is None && shortcut.text@ == text@,
            Err(detail) => hotkey_parse_error(text@) == Some(detail@),
        },
{
    match parse_hotkey(text) {
        Ok(key) => Ok(Shortcut { text: String::from_str(text), key }),
        Err(detail) => Err(detail),
    }
}

/// What to ask of the operating system when a shortcut is registered.
#[derive(Debug)]
pub struct RegistrationPlan {
    /// The shortcut to release first; a failure to release it is ignored.
    pub release: Option<Shortcut>,
    /// The shortcut to claim, or the reason why none is claimed.
    pub claim: Result<Shortcut, MemoError>,
}

/// The plan for registering a shortcut, from what the parser made of the
/// shortcut in force (`None` where none is in force) and of the one asked for:
/// a shortcut in force is released if it still parses, and the one asked for
/// is claimed if it parses.
pub fn plan_registration(
    in_force: Option<Result<Shortcut, String>>,
    asked: Result<Shortcut, String>,
) -> (plan: RegistrationPlan)
    ensures
        plan.release == (match in_force {
            Some(Ok(shortcut)) => Some(shortcut),
            _ => None,
        }),
        match asked {
            Ok(shortcut) => plan.claim == Ok::<Shortcut, MemoError>(shortcut),
            Err(detail) => plan.claim matches Err(error) && error@ == MemoErrorView::InvalidShortcut(
                detail@,
            ),
        },
{
    let release = match in_force {
        Some(Ok(shortcut)) => Some(shortcut),
        _ => None,
    };
    let claim = match asked {
        Ok(shortcut) => Ok(shortcut),
        Err(detail) => Err(MemoError::InvalidShortcut(detail)),
    };
    RegistrationPlan { release, claim }
}

/// The plan for registering `shortcut_str` while `current_shortcut` is in
/// force: the shortcut in force is released if it still parses, and
/// `shortcut_str` is claimed if it parses. Each shortcut of the plan holds
/// the text it was parsed from.
pub fn register_shortcut(current_shortcut: &Option<String>, shortcut_str: &str) -> (plan:
    RegistrationPlan)
    ensures
        match *current_shortcut {
            Some(text) => match hotkey_parse_error(text@) {
                None => plan.release matches Some(shortcut) && shortcut.text@ == text@,
                Some(_) => plan.release is None,
            },
            None => plan.release is None,
        },
        match hotkey_parse_error(shortcut_str@) {
            None => plan.claim matches Ok(shortcut) && shortcut.text@ == shortcut_str@,
            Some(detail) => plan.claim matches Err(error) && error@
                == MemoErrorView::InvalidShortcut(detail),
        },
{
    let in_force = match current_shortcut {
        Some(text) => Some(parse_shortcut(text.as_str())),
        None => None,
    };
    let asked = parse_shortcut(shortcut_str);
    plan_registration(in_force, asked)
}

/// Records that `shortcut_str` was claimed: it is the shortcut in force.
pub fn shortcut_registered(current_shortcut: &mut Option<String>, shortcut_str: String)
    ensures
        *final(current_shortcut) == Some(shortcut_str),
{
    *current_shortcut = Some(shortcut_str);
}

/// The shortcut to release when the shortcut in force is given up, from what
/// the parser made of it (`None` where none is in force): nothing where none
/// is in force, and a failure where the one in force does not parse.
pub fn plan_unregistration(in_force: Option<Result<Shortcut, String>>) -> (plan: Result<
    Option<Shortcut>,
    MemoError,
>)
    ensures
        match in_force {
            None => plan == Ok::<Option<Shortcut>, MemoError>(None),
            Some(Ok(shortcut)) => plan == Ok::<Option<Shortcut>, MemoError>(Some(shortcut)),
            Some(Err(detail)) => plan matches Err(error) && error@
                == MemoErrorView::InvalidShortcut(detail@),
        },
{
    match in_force {
        None => Ok(None),
        Some(Ok(shortcut)) => Ok(Some(shortcut)),
        Some(Err(detail)) => Err(MemoError::InvalidShortcut(detail)),
    }
}

/// The shortcut to release when `current_shortcut` is given up. It holds the
/// text of `current_shortcut`, from which it was parsed.
pub fn unregister_shortcut(current_shortcut: &Option<String>) -> (plan: Result<
    Option<Shortcut>,
    MemoError,
>)
    ensures
        match *current_shortcut {
            None => plan == Ok::<Option<Shortcut>, MemoError>(None),
            Some(text) => match hotkey_parse_error(text@) {
                None => plan matches Ok(Some(shortcut)) && shortcut.text@ == text@,
                Some(detail) => plan matches Err(error) && error@
                    == MemoErrorView::InvalidShortcut(detail),
            },
        },
{
    let in_force = match current_shortcut {
        Some(text) => Some(parse_shortcut(text.as_str())),
        None => None,
    };
    plan_unregistration(in_force)
}

/// Records that the shortcut in force was released: none is in force.
pub fn shortcut_unregistered(current_shortcut: &mut Option<String>)
    ensures
        *final(current_shortcut) is None,
{
    *current_shortcut = None;
}

} // verus!
