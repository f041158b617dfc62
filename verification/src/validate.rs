//! Platform text validation.
//!
//! The platform's grammar for command and option names and its length
//! bounds for descriptions are enforced by the validation crate of the
//! platform client; this module relies on it through thin wrappers and
//! gives the two name grammars names that contracts can speak of.

use vstd::prelude::*;

verus! {

/// Whether the platform accepts `s` as a chat command name.
pub uninterp spec fn chat_input_name_valid(s: Seq<char>) -> bool;

/// Whether the platform accepts `s` as a command option name.
pub uninterp spec fn option_name_valid(s: Seq<char>) -> bool;

/// Whether the platform accepts `s` as a command or option description:
/// one to one hundred characters.
pub open spec fn description_valid(s: Seq<char>) -> bool {
    1 <= s.len() <= 100
}

/// Relies on twilight_validate::command::chat_input_name: accepts a name
/// of one to thirty-two characters, each alphanumeric, `-` or `_`, with
/// the lowercase variant used wherever one exists.
#[verifier::external_body]
pub(crate) fn validate_command_chat_input_name(name: &String) -> (r: bool)
    ensures
        r == chat_input_name_valid(name@),
{
    twilight_validate::command::chat_input_name(name).is_ok()
}

/// Relies on twilight_validate::command::option_name: accepts the same
/// grammar as a chat command name.
#[verifier::external_body]
pub(crate) fn validate_option_name(name: &String) -> (r: bool)
    ensures
        r == option_name_valid(name@),
{
    twilight_validate::command::option_name(name).is_ok()
}

/// Relies on twilight_validate::command::description: accepts exactly the
/// descriptions of one to one hundred characters.
#[verifier::external_body]
pub(crate) fn validate_command_description(description: &String) -> (r: bool)
    ensures
        r == description_valid(description@),
{
    twilight_validate::command::description(description).is_ok()
}

} // verus!
