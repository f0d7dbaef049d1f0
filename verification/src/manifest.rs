//! The manifest record and its text form.
//!
//! A manifest is written as a section header that bears the container's
//! name, one quoted entry each for the image, the init command and the home
//! directory, and one line for each flag that is switched on:
//!
//! ```text
//! [web]
//! image="ubuntu:22.04"
//! init="/bin/sh"
//! home="/home/user"
//! root=true
//! pull=true
//! ```
//!
//! Every line ends with a line feed. The flag lines stand in the order in
//! which the flags were switched on; a draft without flags has no flag line.
//! The texts are written as they are: nothing in them is escaped.

use crate::flag::Flag;
use crate::selection::FlagSelection;
use crate::text::text_view;
use crate::validate::{fits, is_acceptable, too_long_text, Validation};
use vstd::prelude::*;
use vstd::string::StringExecFns;
use vstd::utf8::encode_utf8;

verus! {

/// The four texts of a manifest, in the order in which they are asked for.
#[derive(Clone, Copy, Debug, PartialEq, Eq, Hash, Structural)]
pub enum TextField {
    ContainerName,
    BaseImage,
    InitCommand,
    HomeDirectory,
}

impl TextField {
    /// The question that asks the user for the field.
    pub open spec fn question_spec(self) -> Seq<char> {
        match self {
            TextField::ContainerName => "What should the container be named?: "@,
            TextField::BaseImage => "Enter the base image: "@,
            TextField::InitCommand => "Enter an init command: "@,
            TextField::HomeDirectory => "Which home directory should the container use: "@,
        }
    }

    /// Returns the question that asks the user for the field.
    pub fn question(&self) -> (text: &'static str)
        ensures
            text@ == self.question_spec(),
    {
        match self {
            TextField::ContainerName => "What should the container be named?: ",
            TextField::BaseImage => "Enter the base image: ",
            TextField::InitCommand => "Enter an init command: ",
            TextField::HomeDirectory => "Which home directory should the container use: ",
        }
    }
}

/// The question that asks the user for the flags.
pub open spec fn flags_question_spec() -> Seq<char> {
    "Select which flags you would like to turn on: "@
}

/// Returns the question that asks the user for the flags.
pub fn flags_question() -> (text: &'static str)
    ensures
        text@ == flags_question_spec(),
{
    "Select which flags you would like to turn on: "
}

/// The header of the section that describes the container `name`.
pub open spec fn section_line(name: Seq<char>) -> Seq<char> {
    "["@ + name + "]\n"@
}

/// The line that gives `key` the quoted `value`.
pub open spec fn entry_line(key: Seq<char>, value: Seq<char>) -> Seq<char> {
    key + "=\""@ + value + "\"\n"@
}

/// The line that switches `flag` on.
pub open spec fn flag_line(flag: Flag) -> Seq<char> {
    flag.name_spec() + "=true\n"@
}

/// The lines that switch `flags` on, one after the other.
pub open spec fn flag_lines(flags: Seq<Flag>) -> Seq<char>
    decreases flags.len(),
{
    if flags.len() == 0 {
        Seq::empty()
    } else {
        flag_lines(flags.drop_last()) + flag_line(flags.last())
    }
}

/// The text of the manifest with these four texts and these flags.
pub open spec fn manifest_text(
    container_name: Seq<char>,
    base_image: Seq<char>,
    init_command: Seq<char>,
    home_directory: Seq<char>,
    enabled_flags: Seq<Flag>,
) -> Seq<char> {
    section_line(container_name) + entry_line("image"@, base_image) + entry_line(
        "init"@,
        init_command,
    ) + entry_line("home"@, home_directory) + flag_lines(enabled_flags)
}

/// A manifest without flags has no flag line: it is the section header and
/// the three entries, and nothing after them.
pub proof fn lemma_no_flags_no_flag_lines(
    container_name: Seq<char>,
    base_image: Seq<char>,
    init_command: Seq<char>,
    home_directory: Seq<char>,
)
    ensures
        flag_lines(Seq::<Flag>::empty()) == Seq::<char>::empty(),
        manifest_text(
            container_name,
            base_image,
            init_command,
            home_directory,
            Seq::<Flag>::empty(),
        ) == section_line(container_name) + entry_line("image"@, base_image) + entry_line(
            "init"@,
            init_command,
        ) + entry_line("home"@, home_directory),
{
    let head = section_line(container_name) + entry_line("image"@, base_image) + entry_line(
        "init"@,
        init_command,
    ) + entry_line("home"@, home_directory);
    assert(head + Seq::<char>::empty() =~= head);
}

/// One more flag is one more line at the end of the manifest, and the lines
/// before it stay as they are.
pub proof fn lemma_one_more_flag_one_more_line(
    container_name: Seq<char>,
    base_image: Seq<char>,
    init_command: Seq<char>,
    home_directory: Seq<char>,
    flags: Seq<Flag>,
    flag: Flag,
)
    ensures
        flag_lines(flags.push(flag)) == flag_lines(flags) + flag_line(flag),
        manifest_text(container_name, base_image, init_command, home_directory, flags.push(flag))
            == manifest_text(container_name, base_image, init_command, home_directory, flags)
            + flag_line(flag),
{
    assert(flags.push(flag).drop_last() =~= flags);
    let head = section_line(container_name) + entry_line("image"@, base_image) + entry_line(
        "init"@,
        init_command,
    ) + entry_line("home"@, home_directory);
    assert(head + (flag_lines(flags) + flag_line(flag)) =~= head + flag_lines(flags) + flag_line(
        flag,
    ));
}

/// Whether a text that may be missing is short enough, if it is there.
pub open spec fn fits_if_given(text: Option<Seq<char>>) -> bool {
    text matches Some(text) ==> fits(text)
}

/// What a draft holds: each text that has been given, and the flags that
/// are switched on.
pub ghost struct DraftView {
    pub container_name: Option<Seq<char>>,
    pub base_image: Option<Seq<char>>,
    pub init_command: Option<Seq<char>>,
    pub home_directory: Option<Seq<char>>,
    pub enabled_flags: Seq<Flag>,
}

impl DraftView {
    /// The draft to which nothing has been given yet.
    pub open spec fn empty() -> DraftView {
        DraftView {
            container_name: None,
            base_image: None,
            init_command: None,
            home_directory: None,
            enabled_flags: Seq::empty(),
        }
    }

    /// The text of a field, if it has been given.
    pub open spec fn text(self, field: TextField) -> Option<Seq<char>> {
        match field {
            TextField::ContainerName => self.container_name,
            TextField::BaseImage => self.base_image,
            TextField::InitCommand => self.init_command,
            TextField::HomeDirectory => self.home_directory,
        }
    }

    /// The draft with `text` in the place of a field.
    pub open spec fn with_text(self, field: TextField, text: Seq<char>) -> DraftView {
        match field {
            TextField::ContainerName => DraftView { container_name: Some(text), ..self },
            TextField::BaseImage => DraftView { base_image: Some(text), ..self },
            TextField::InitCommand => DraftView { init_command: Some(text), ..self },
            TextField::HomeDirectory => DraftView { home_directory: Some(text), ..self },
        }
    }

    /// The draft with `flags` switched on and no others.
    pub open spec fn with_flags(self, flags: Seq<Flag>) -> DraftView {
        DraftView { enabled_flags: flags, ..self }
    }

    /// Whether all four texts have been given.
    pub open spec fn complete(self) -> bool {
        &&& self.container_name is Some
        &&& self.base_image is Some
        &&& self.init_command is Some
        &&& self.home_directory is Some
    }

    /// Whether each text that has been given is short enough and no flag is
    /// switched on twice.
    pub open spec fn wf(self) -> bool {
        &&& fits_if_given(self.container_name)
        &&& fits_if_given(self.base_image)
        &&& fits_if_given(self.init_command)
        &&& fits_if_given(self.home_directory)
        &&& self.enabled_flags.no_duplicates()
    }

    /// The manifest text of a complete draft; an incomplete draft has none.
    pub open spec fn rendering(self) -> Option<Seq<char>> {
        if self.complete() {
            Some(
                manifest_text(
                    self.container_name->0,
                    self.base_image->0,
                    self.init_command->0,
                    self.home_directory->0,
                    self.enabled_flags,
                ),
            )
        } else {
            None
        }
    }
}

/// A manifest in the making. It starts empty and is given its texts and its
/// flags one by one. A text of more than `MAX_ANSWER_CHARS` characters never
/// gets into it.
#[derive(Debug, PartialEq, Eq)]
pub struct ManifestDraft {
    container_name: Option<String>,
    base_image: Option<String>,
    init_command: Option<String>,
    home_directory: Option<String>,
    enabled_flags: FlagSelection,
}

impl View for ManifestDraft {
    type V = DraftView;

    closed spec fn view(&self) -> DraftView {
        DraftView {
            container_name: text_view(self.container_name),
            base_image: text_view(self.base_image),
            init_command: text_view(self.init_command),
            home_directory: text_view(self.home_directory),
            enabled_flags: self.enabled_flags@,
        }
    }
}

fn push_section_line(out: &mut String, name: &str)
    ensures
        final(out)@ == old(out)@ + section_line(name@),
{
    out.append("[");
    out.append(name);
    out.append("]\n");
    assert(out@ =~= old(out)@ + section_line(name@));
}

fn push_entry_line(out: &mut String, key: &str, value: &str)
    ensures
        final(out)@ == old(out)@ + entry_line(key@, value@),
{
    out.append(key);
    out.append("=\"");
    out.append(value);
    out.append("\"\n");
    assert(out@ =~= old(out)@ + entry_line(key@, value@));
}

fn push_flag_lines(out: &mut String, flags: &Vec<Flag>)
    ensures
        final(out)@ == old(out)@ + flag_lines(flags@),
{
    let mut i: usize = 0;
    assert(out@ =~= old(out)@ + flag_lines(flags@.take(0)));
    while i < flags.len()
        invariant
            i <= flags.len(),
            out@ == old(out)@ + flag_lines(flags@.take(i as int)),
        decreases flags.len() - i,
    {
        out.append(flags[i].name());
        out.append("=true\n");
        proof {
            let upto = flags@.take(i + 1);
            assert(upto.drop_last() =~= flags@.take(i as int));
            assert(upto.last() == flags@[i as int]);
            assert(out@ =~= old(out)@ + flag_lines(upto));
        }
        i += 1;
    }
    assert(flags@.take(i as int) =~= flags@);
}

/// Writes the manifest with these four texts and these flags.
pub fn render_manifest(
    container_name: &str,
    base_image: &str,
    init_command: &str,
    home_directory: &str,
    enabled_flags: &Vec<Flag>,
) -> (text: String)
    ensures
        text@ == manifest_text(
            container_name@,
            base_image@,
            init_command@,
            home_directory@,
            enabled_flags@,
        ),
{
    let mut text = String::new();
    push_section_line(&mut text, container_name);
    push_entry_line(&mut text, "image", base_image);
    push_entry_line(&mut text, "init", init_command);
    push_entry_line(&mut text, "home", home_directory);
    push_flag_lines(&mut text, enabled_flags);
    assert(text@ =~= manifest_text(
        container_name@,
        base_image@,
        init_command@,
        home_directory@,
        enabled_flags@,
    ));
    text
}

/// Rendering depends on nothing but what the draft holds: any two results
/// of rendering one draft are the same, character for character and byte
/// for byte.
pub proof fn lemma_render_deterministic(
    draft: ManifestDraft,
    first: Option<String>,
    second: Option<String>,
)
    requires
        text_view(first) == draft@.rendering(),
        text_view(second) == draft@.rendering(),
    ensures
        first is Some <==> second is Some,
        first is Some ==> first->0@ == second->0@ && encode_utf8(first->0@) == encode_utf8(
            second->0@,
        ),
{
}

impl ManifestDraft {
    /// What every draft keeps to.
    #[verifier::type_invariant]
    pub open spec fn valid(&self) -> bool {
        self@.wf()
    }

    /// Returns the draft to which nothing has been given yet.
    pub fn new() -> (draft: Self)
        ensures
            draft@ == DraftView::empty(),
    {
        ManifestDraft {
            container_name: None,
            base_image: None,
            init_command: None,
            home_directory: None,
            enabled_flags: FlagSelection::new(),
        }
    }

    /// Puts `text` in the place of a field if it is short enough, and leaves
    /// the draft as it was if it is not.
    pub fn set_text(&mut self, field: TextField, text: String) -> (verdict: Validation)
        ensures
            final(self)@.wf(),
            match verdict {
                Validation::Valid => {
                    &&& fits(text@)
                    &&& final(self)@ == old(self)@.with_text(field, text@)
                },
                Validation::Invalid(message) => {
                    &&& !fits(text@)
                    &&& final(self)@ == old(self)@
                    &&& message@ == crate::validate::too_long_message()
                },
            },
    {
        proof {
            use_type_invariant(&*self);
        }
        if !is_acceptable(text.as_str()) {
            return Validation::Invalid(too_long_text());
        }
        match field {
            TextField::ContainerName => {
                self.container_name = Some(text);
            },
            TextField::BaseImage => {
                self.base_image = Some(text);
            },
            TextField::InitCommand => {
                self.init_command = Some(text);
            },
            TextField::HomeDirectory => {
                self.home_directory = Some(text);
            },
        }
        Validation::Valid
    }

    /// Switches on the flags of `flags` and no others.
    pub fn set_flags(&mut self, flags: FlagSelection)
        ensures
            final(self)@.wf(),
            final(self)@ == old(self)@.with_flags(flags@),
    {
        proof {
            use_type_invariant(&*self);
            use_type_invariant(&flags);
        }
        self.enabled_flags = flags;
    }

    /// Returns the text of a field, if it has been given.
    pub fn text(&self, field: TextField) -> (text: Option<&String>)
        ensures
            match text {
                Some(text) => self@.text(field) == Some(text@),
                None => self@.text(field) is None,
            },
            self@.wf(),
    {
        proof {
            use_type_invariant(self);
        }
        match field {
            TextField::ContainerName => self.container_name.as_ref(),
            TextField::BaseImage => self.base_image.as_ref(),
            TextField::InitCommand => self.init_command.as_ref(),
            TextField::HomeDirectory => self.home_directory.as_ref(),
        }
    }

    /// Returns the flags that are switched on.
    pub fn flags(&self) -> (flags: &FlagSelection)
        ensures
            flags@ == self@.enabled_flags,
    {
        &self.enabled_flags
    }

    /// Whether all four texts have been given.
    pub fn is_complete(&self) -> (complete: bool)
        ensures
            complete == self@.complete(),
    {
        self.container_name.is_some() && self.base_image.is_some() && self.init_command.is_some()
            && self.home_directory.is_some()
    }

    /// Writes the manifest of a complete draft. An incomplete draft has no
    /// manifest, and the answer is `None`.
    pub fn render(&self) -> (text: Option<String>)
        ensures
            text_view(text) == self@.rendering(),
    {
        match (&self.container_name, &self.base_image, &self.init_command, &self.home_directory) {
            (Some(container_name), Some(base_image), Some(init_command), Some(home_directory)) => {
                let flags = self.enabled_flags.flags();
                Some(
                    render_manifest(
                        container_name.as_str(),
                        base_image.as_str(),
                        init_command.as_str(),
                        home_directory.as_str(),
                        &flags,
                    ),
                )
            },
            _ => None,
        }
    }
}

} // verus!
