//! The length rule for typed answers.

use vstd::prelude::*;
use vstd::string::StringExecFns;
use vstd::string::StrSliceExecFns;

verus! {

/// The largest number of characters that a typed answer may have.
pub const MAX_ANSWER_CHARS: usize = 140;

/// What the length rule says of an answer.
#[derive(Clone, Debug, PartialEq, Eq)]
pub enum Validation {
    /// The answer is taken.
    Valid,
    /// The answer is refused; the text tells the user why.
    Invalid(String),
}

/// Whether an answer is short enough to be taken. Characters are counted,
/// not bytes, and the empty answer is short enough.
pub open spec fn fits(answer: Seq<char>) -> bool {
    answer.len() <= MAX_ANSWER_CHARS
}

/// What the user is told when an answer is too long.
pub open spec fn too_long_message() -> Seq<char> {
    "You're only allowed 140 characters."@
}

/// Returns what the user is told when an answer is too long.
pub fn too_long_text() -> (message: String)
    ensures
        message@ == too_long_message(),
{
    String::from_str("You're only allowed 140 characters.")
}

/// Whether `answer` is short enough to be taken.
pub fn is_acceptable(answer: &str) -> (ok: bool)
    ensures
        ok == fits(answer@),
{
    answer.unicode_len() <= MAX_ANSWER_CHARS
}

/// Holds an answer to the length rule: an answer of at most
/// `MAX_ANSWER_CHARS` characters is valid, a longer one is refused with the
/// message of `too_long_message`.
pub fn validate_answer(answer: &str) -> (verdict: Validation)
    ensures
        match verdict {
            Validation::Valid => fits(answer@),
            Validation::Invalid(message) => !fits(answer@) && message@ == too_long_message(),
        },
{
    if is_acceptable(answer) {
        Validation::Valid
    } else {
        Validation::Invalid(too_long_text())
    }
}

} // verus!
