//! Decisions over raw interactive inputs, shared by the command flows.

use vstd::prelude::*;
use crate::text::{str_eq, str_is_empty};

verus! {

/// Whether a description gate answer opens the external editor: exactly
/// "Y" does.
pub fn wants_editor(answer: &str) -> (r: bool)
    ensures
        r == (answer@ == "Y"@),
{
    str_eq(answer, "Y")
}

/// What an edit flow does with the description input: blank keeps the
/// fetched text, "E" opens the external editor on it, anything else
/// replaces it.
#[derive(Clone, Copy, Debug, PartialEq, Eq, Structural)]
pub enum DescriptionAction {
    Keep,
    Edit,
    Replace,
}

pub open spec fn description_action_of(input: Seq<char>) -> DescriptionAction {
    if input.len() == 0 {
        DescriptionAction::Keep
    } else if input == "E"@ {
        DescriptionAction::Edit
    } else {
        DescriptionAction::Replace
    }
}

pub fn description_action(input: &str) -> (r: DescriptionAction)
    ensures
        r == description_action_of(input@),
{
    if str_is_empty(input) {
        DescriptionAction::Keep
    } else if str_eq(input, "E") {
        DescriptionAction::Edit
    } else {
        DescriptionAction::Replace
    }
}

/// Why a delete confirmation input was rejected.
#[derive(Clone, Copy, Debug, PartialEq, Eq, Structural)]
pub enum ConfirmError {
    Empty,
    Invalid,
}

/// Reads a delete confirmation: exactly "Y" confirms and exactly "N"
/// declines; anything else is rejected.
pub fn parse_confirmation(input: &str) -> (r: Result<bool, ConfirmError>)
    ensures
        input@.len() == 0 ==> r == Err::<bool, ConfirmError>(ConfirmError::Empty),
        input@ == "Y"@ ==> r == Ok::<bool, ConfirmError>(true),
        input@ == "N"@ ==> r == Ok::<bool, ConfirmError>(false),
        input@.len() > 0 && input@ != "Y"@ && input@ != "N"@ ==> r == Err::<
            bool,
            ConfirmError,
        >(ConfirmError::Invalid),
{
    proof {
        reveal_strlit("Y");
        reveal_strlit("N");
        assert("Y"@[0] == 'Y');
        assert("N"@[0] == 'N');
    }
    if str_is_empty(input) {
        Err(ConfirmError::Empty)
    } else if str_eq(input, "Y") {
        Ok(true)
    } else if str_eq(input, "N") {
        Ok(false)
    } else {
        Err(ConfirmError::Invalid)
    }
}

} // verus!
