//! The closed set of lighting actions and the parsing of action names.

use vstd::prelude::*;
use vstd::string::StrSliceExecFns;
use crate::MciError;

verus! {

/// A symbolic lighting command. The set is closed: the bridge protocol
/// defines exactly these eight, and callers cannot extend it.
#[derive(Clone, Copy, Debug, PartialEq, Eq, Structural)]
pub enum Action {
    On,
    Off,
    BrightnessUp,
    BrightnessDown,
    WarmthUp,
    WarmthDown,
    FullBrightness,
    NightMode,
}

/// The command-line name of each action.
pub open spec fn spec_action_name(action: Action) -> Seq<char> {
    match action {
        Action::On => "on"@,
        Action::Off => "off"@,
        Action::BrightnessUp => "inc_brightness"@,
        Action::BrightnessDown => "dec_brightness"@,
        Action::WarmthUp => "inc_warmth"@,
        Action::WarmthDown => "dec_warmth"@,
        Action::FullBrightness => "bright_mode"@,
        Action::NightMode => "night_mode"@,
    }
}

/// What `parse_action` resolves a name to: the action whose name
/// matches, or `UnknownAction` when none does.
pub open spec fn spec_parse_action(name: Seq<char>) -> Result<Action, MciError> {
    if name == spec_action_name(Action::On) {
        Ok(Action::On)
    } else if name == spec_action_name(Action::Off) {
        Ok(Action::Off)
    } else if name == spec_action_name(Action::BrightnessUp) {
        Ok(Action::BrightnessUp)
    } else if name == spec_action_name(Action::BrightnessDown) {
        Ok(Action::BrightnessDown)
    } else if name == spec_action_name(Action::WarmthUp) {
        Ok(Action::WarmthUp)
    } else if name == spec_action_name(Action::WarmthDown) {
        Ok(Action::WarmthDown)
    } else if name == spec_action_name(Action::FullBrightness) {
        Ok(Action::FullBrightness)
    } else if name == spec_action_name(Action::NightMode) {
        Ok(Action::NightMode)
    } else {
        Err(MciError::UnknownAction)
    }
}

/// Character-for-character equality of two string slices.
fn str_eq(a: &str, b: &str) -> (r: bool)
    ensures
        r == (a@ == b@),
{
    let a_len: usize = a.unicode_len();
    let b_len: usize = b.unicode_len();
    if a_len != b_len {
        assert(a@ != b@) by {
            assert(a@.len() != b@.len());
        }
        return false;
    }
    let mut i: usize = 0;
    while i < a_len
        invariant
            a_len == a@.len(),
            a_len == b@.len(),
            i <= a_len,
            forall|j: int| 0 <= j < i ==> a@[j] == b@[j],
        decreases a_len - i,
    {
        if a.get_char(i) != b.get_char(i) {
            return false;
        }
        i = i + 1;
    }
    assert(a@ =~= b@);
    true
}

/// Resolves a command-line action name to an `Action`. A name outside
/// the action set is a distinct, explicit failure: no command derives
/// from it.
pub fn parse_action(name: &str) -> (r: Result<Action, MciError>)
    ensures
        r == spec_parse_action(name@),
{
    if str_eq(name, "on") {
        Ok(Action::On)
    } else if str_eq(name, "off") {
        Ok(Action::Off)
    } else if str_eq(name, "inc_brightness") {
        Ok(Action::BrightnessUp)
    } else if str_eq(name, "dec_brightness") {
        Ok(Action::BrightnessDown)
    } else if str_eq(name, "inc_warmth") {
        Ok(Action::WarmthUp)
    } else if str_eq(name, "dec_warmth") {
        Ok(Action::WarmthDown)
    } else if str_eq(name, "bright_mode") {
        Ok(Action::FullBrightness)
    } else if str_eq(name, "night_mode") {
        Ok(Action::NightMode)
    } else {
        Err(MciError::UnknownAction)
    }
}

} // verus!
