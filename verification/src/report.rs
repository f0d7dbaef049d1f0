//! What the wizard tells its user besides its questions.

use vstd::prelude::*;
use vstd::string::StringExecFns;

verus! {

/// The greeting of the wizard.
pub open spec fn welcome_message_spec() -> Seq<char> {
    "Welcome to the Distro Manifesto Wizard!"@
}

/// Returns the greeting of the wizard.
pub fn welcome_message() -> (message: &'static str)
    ensures
        message@ == welcome_message_spec(),
{
    "Welcome to the Distro Manifesto Wizard!"
}

/// The two parts of the report on a manifest that was written: where it was
/// written, and what it holds.
pub open spec fn report_lines_spec(path: Seq<char>, text: Seq<char>) -> Seq<Seq<char>> {
    seq!["Assemble file created at: "@ + path, "Created Manifest file contents: "@ + text]
}

/// Returns the report on a manifest `text` that was written to `path`.
pub fn report_lines(path: &str, text: &str) -> (lines: Vec<String>)
    ensures
        lines.deep_view() == report_lines_spec(path@, text@),
{
    let mut lines: Vec<String> = Vec::new();
    lines.push(String::from_str("Assemble file created at: ").concat(path));
    lines.push(String::from_str("Created Manifest file contents: ").concat(text));
    assert(lines.deep_view() =~= report_lines_spec(path@, text@));
    lines
}

/// What the user is told when a question could not be asked or answered.
pub open spec fn prompt_failure_spec(cause: Seq<char>) -> Seq<char> {
    "Error while publishing your status: "@ + cause
}

/// Returns what the user is told when a question could not be asked or
/// answered, for the reason `cause`.
pub fn prompt_failure_message(cause: &str) -> (message: String)
    ensures
        message@ == prompt_failure_spec(cause@),
{
    String::from_str("Error while publishing your status: ").concat(cause)
}

/// The two parts of the report on a manifest that could not be written:
/// where it was to go and why it did not, and what it holds, so that the
/// user can still save it by hand.
pub open spec fn write_failure_lines_spec(
    path: Seq<char>,
    cause: Seq<char>,
    text: Seq<char>,
) -> Seq<Seq<char>> {
    seq![
        "Unable to write file "@ + path + ": "@ + cause,
        "Created Manifest file contents: "@ + text,
    ]
}

/// Returns the report on a manifest `text` that could not be written to
/// `path`, for the reason `cause`.
pub fn write_failure_lines(path: &str, cause: &str, text: &str) -> (lines: Vec<String>)
    ensures
        lines.deep_view() == write_failure_lines_spec(path@, cause@, text@),
{
    let mut lines: Vec<String> = Vec::new();
    lines.push(String::from_str("Unable to write file ").concat(path).concat(": ").concat(cause));
    lines.push(String::from_str("Created Manifest file contents: ").concat(text));
    assert(lines.deep_view() =~= write_failure_lines_spec(path@, cause@, text@));
    lines
}

} // verus!
