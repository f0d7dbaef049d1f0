//! From a parsed command line to what the program says and does.
//!
//! Parsing the arguments is the business of the program that uses the crate.
//! Here stands what follows from them: the status lines that are printed, in
//! their order, and whether the wizard is run.

use crate::text::text_view;
use vstd::prelude::*;
use vstd::string::StringExecFns;

verus! {

/// A subcommand of the program.
#[derive(Clone, Debug, PartialEq, Eq)]
pub enum Command {
    /// Does testing things; `list` asks for the test values.
    Test { list: bool },
    /// Runs the wizard, which has the manifest written to `filepath`.
    Wizard { filepath: String },
}

/// What a command holds.
pub ghost enum CommandView {
    Test { list: bool },
    Wizard { filepath: Seq<char> },
}

impl View for Command {
    type V = CommandView;

    open spec fn view(&self) -> CommandView {
        match self {
            Command::Test { list } => CommandView::Test { list: *list },
            Command::Wizard { filepath } => CommandView::Wizard { filepath: filepath@ },
        }
    }
}

/// A parsed command line: an optional name to operate on, an optional
/// configuration file, how often the debug flag was given, and an optional
/// subcommand.
#[derive(Clone, Debug, PartialEq, Eq)]
pub struct Invocation {
    pub name: Option<String>,
    pub config: Option<String>,
    pub debug: u8,
    pub command: Option<Command>,
}

/// What the program does once it has printed its status lines.
#[derive(Clone, Debug, PartialEq, Eq)]
pub enum Route {
    /// Nothing more: the program leaves with success.
    Leave,
    /// The wizard is run and has the manifest written to `filepath`.
    RunWizard { filepath: String },
}

/// What a route holds.
pub ghost enum RouteView {
    Leave,
    RunWizard { filepath: Seq<char> },
}

impl View for Route {
    type V = RouteView;

    open spec fn view(&self) -> RouteView {
        match self {
            Route::Leave => RouteView::Leave,
            Route::RunWizard { filepath } => RouteView::RunWizard { filepath: filepath@ },
        }
    }
}

/// Where the wizard has the manifest written when the command line names no
/// other place: the current directory.
pub open spec fn default_filepath_spec() -> Seq<char> {
    "./"@
}

/// Returns where the wizard has the manifest written when the command line
/// names no other place.
pub fn default_filepath() -> (path: &'static str)
    ensures
        path@ == default_filepath_spec(),
{
    "./"
}

/// What the program says of its debug level, by the number of times that
/// the debug flag was given.
pub open spec fn debug_message_spec(level: u8) -> Seq<char> {
    if level == 0 {
        "Debug mode is off"@
    } else if level == 1 {
        "Debug mode is kind of on"@
    } else if level == 2 {
        "Debug mode is on"@
    } else {
        "Don't be crazy"@
    }
}

/// Returns what the program says of its debug level.
pub fn debug_message(level: u8) -> (message: &'static str)
    ensures
        message@ == debug_message_spec(level),
{
    match level {
        0 => "Debug mode is off",
        1 => "Debug mode is kind of on",
        2 => "Debug mode is on",
        _ => "Don't be crazy",
    }
}

/// What the test subcommand says, with and without the request for a list.
pub open spec fn test_message_spec(list: bool) -> Seq<char> {
    if list {
        "Printing testing lists..."@
    } else {
        "Not printing testing lists..."@
    }
}

/// Returns what the test subcommand says.
pub fn test_message(list: bool) -> (message: &'static str)
    ensures
        message@ == test_message_spec(list),
{
    if list {
        "Printing testing lists..."
    } else {
        "Not printing testing lists..."
    }
}

/// What the program says before it runs the wizard.
pub open spec fn wizard_message_spec() -> Seq<char> {
    "Starting the wizard!"@
}

/// The lines that a text which may be missing contributes: one line made
/// of `prefix` and the text if it is there, and none if it is not.
pub open spec fn optional_line(prefix: Seq<char>, text: Option<Seq<char>>) -> Seq<Seq<char>> {
    match text {
        Some(text) => seq![prefix + text],
        None => Seq::empty(),
    }
}

/// The line that a subcommand contributes, if there is one.
pub open spec fn command_lines(command: Option<CommandView>) -> Seq<Seq<char>> {
    match command {
        Some(CommandView::Test { list }) => seq![test_message_spec(list)],
        Some(CommandView::Wizard { filepath }) => seq![wizard_message_spec()],
        None => Seq::empty(),
    }
}

/// The status lines of a command line, in the order in which they are
/// printed: the name if one was given, the configuration file if one was
/// given, the debug level, and the line of the subcommand if there is one.
pub open spec fn status_lines(
    name: Option<Seq<char>>,
    config: Option<Seq<char>>,
    debug: u8,
    command: Option<CommandView>,
) -> Seq<Seq<char>> {
    optional_line("Value for name: "@, name) + optional_line("Value for config: "@, config)
        + seq![debug_message_spec(debug)] + command_lines(command)
}

/// What follows the status lines: the wizard runs for the wizard
/// subcommand, with the place that it names, and nothing follows otherwise.
pub open spec fn route_of(command: Option<CommandView>) -> RouteView {
    match command {
        Some(CommandView::Wizard { filepath }) => RouteView::RunWizard { filepath },
        _ => RouteView::Leave,
    }
}

/// What a subcommand that may be missing holds.
pub open spec fn optional_command_view(command: Option<Command>) -> Option<CommandView> {
    match command {
        Some(command) => Some(command@),
        None => None,
    }
}

/// Returns the status lines that the program prints for a command line, and
/// what it does after them.
pub fn dispatch(invocation: Invocation) -> (outcome: (Vec<String>, Route))
    ensures
        outcome.0.deep_view() == status_lines(
            text_view(invocation.name),
            text_view(invocation.config),
            invocation.debug,
            optional_command_view(invocation.command),
        ),
        outcome.1@ == route_of(optional_command_view(invocation.command)),
{
    let Invocation { name, config, debug, command } = invocation;
    let mut lines: Vec<String> = Vec::new();
    if let Some(name) = &name {
        lines.push(String::from_str("Value for name: ").concat(name.as_str()));
    }
    if let Some(config) = &config {
        lines.push(String::from_str("Value for config: ").concat(config.as_str()));
    }
    lines.push(String::from_str(debug_message(debug)));
    let route = match command {
        Some(Command::Test { list }) => {
            lines.push(String::from_str(test_message(list)));
            Route::Leave
        },
        Some(Command::Wizard { filepath }) => {
            lines.push(String::from_str("Starting the wizard!"));
            Route::RunWizard { filepath }
        },
        None => Route::Leave,
    };
    assert(lines.deep_view() =~= status_lines(
        text_view(name),
        text_view(config),
        debug,
        optional_command_view(command),
    ));
    (lines, route)
}

} // verus!
