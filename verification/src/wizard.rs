//! The flow of the wizard as a finite-state machine.
//!
//! The wizard itself asks nothing and writes nothing. It tells its driver
//! which action comes next; the driver performs the action and hands back what
//! came of it as an event. The stages follow one another in a fixed order:
//!
//! ```text
//! Start -> NameCollected -> ImageCollected -> InitCollected -> HomeCollected
//!       -> FlagsCollected -> Rendered -> Reported -> Done
//! ```
//!
//! An answer that is too long is refused and the same question is asked
//! again. An action that fails ends the flow in `Aborted`. A manifest text
//! exists from `Rendered` on and never before.

use crate::flag::Flag;
use crate::manifest::{manifest_text, DraftView, ManifestDraft, TextField};
use crate::selection::FlagSelection;
use crate::text::text_view;
use crate::validate::{fits, too_long_message, Validation};
use vstd::prelude::*;

verus! {

/// How far the flow has come.
#[derive(Clone, Copy, Debug, PartialEq, Eq, Hash, Structural)]
pub enum Stage {
    Start,
    NameCollected,
    ImageCollected,
    InitCollected,
    HomeCollected,
    FlagsCollected,
    Rendered,
    Reported,
    Done,
    Aborted,
}

impl Stage {
    /// Whether the flow is over.
    pub open spec fn terminal(self) -> bool {
        self == Stage::Done || self == Stage::Aborted
    }

    /// The text that is asked for at this stage, if one is.
    pub open spec fn pending_field(self) -> Option<TextField> {
        match self {
            Stage::Start => Some(TextField::ContainerName),
            Stage::NameCollected => Some(TextField::BaseImage),
            Stage::ImageCollected => Some(TextField::InitCommand),
            Stage::InitCollected => Some(TextField::HomeDirectory),
            _ => None,
        }
    }

    /// The stage that follows when the action of this stage has succeeded.
    /// The two terminal stages follow themselves.
    pub open spec fn successor(self) -> Stage {
        match self {
            Stage::Start => Stage::NameCollected,
            Stage::NameCollected => Stage::ImageCollected,
            Stage::ImageCollected => Stage::InitCollected,
            Stage::InitCollected => Stage::HomeCollected,
            Stage::HomeCollected => Stage::FlagsCollected,
            Stage::FlagsCollected => Stage::Rendered,
            Stage::Rendered => Stage::Reported,
            Stage::Reported => Stage::Done,
            Stage::Done => Stage::Done,
            Stage::Aborted => Stage::Aborted,
        }
    }

    /// The number of steps that lead from `Start` to this stage on the way
    /// to `Done`. `Aborted` lies off that way and ranks above all.
    pub open spec fn rank(self) -> int {
        match self {
            Stage::Start => 0,
            Stage::NameCollected => 1,
            Stage::ImageCollected => 2,
            Stage::InitCollected => 3,
            Stage::HomeCollected => 4,
            Stage::FlagsCollected => 5,
            Stage::Rendered => 6,
            Stage::Reported => 7,
            Stage::Done => 8,
            Stage::Aborted => 9,
        }
    }

    /// Returns the text that is asked for at this stage, if one is.
    pub fn field(&self) -> (field: Option<TextField>)
        ensures
            field == self.pending_field(),
    {
        match self {
            Stage::Start => Some(TextField::ContainerName),
            Stage::NameCollected => Some(TextField::BaseImage),
            Stage::ImageCollected => Some(TextField::InitCommand),
            Stage::InitCollected => Some(TextField::HomeDirectory),
            _ => None,
        }
    }

    /// Returns the stage that follows when the action of this stage has
    /// succeeded.
    pub fn next(&self) -> (next: Stage)
        ensures
            next == self.successor(),
    {
        match self {
            Stage::Start => Stage::NameCollected,
            Stage::NameCollected => Stage::ImageCollected,
            Stage::ImageCollected => Stage::InitCollected,
            Stage::InitCollected => Stage::HomeCollected,
            Stage::HomeCollected => Stage::FlagsCollected,
            Stage::FlagsCollected => Stage::Rendered,
            Stage::Rendered => Stage::Reported,
            Stage::Reported => Stage::Done,
            Stage::Done => Stage::Done,
            Stage::Aborted => Stage::Aborted,
        }
    }

    /// Whether the flow is over.
    pub fn is_terminal(&self) -> (over: bool)
        ensures
            over == self.terminal(),
    {
        match self {
            Stage::Done | Stage::Aborted => true,
            _ => false,
        }
    }
}

/// What came of the action that the wizard asked for.
#[derive(Debug, PartialEq, Eq)]
pub enum Event {
    /// The user has answered a text question.
    Answered(String),
    /// The user has made a selection of flags.
    Selected(FlagSelection),
    /// The action is done and has nothing to hand back.
    Completed,
    /// The action could not be carried out.
    Failed,
}

/// What an event holds.
pub ghost enum EventView {
    Answered(Seq<char>),
    Selected(Seq<Flag>),
    Completed,
    Failed,
}

impl View for Event {
    type V = EventView;

    open spec fn view(&self) -> EventView {
        match self {
            Event::Answered(text) => EventView::Answered(text@),
            Event::Selected(flags) => EventView::Selected(flags@),
            Event::Completed => EventView::Completed,
            Event::Failed => EventView::Failed,
        }
    }
}

impl EventView {
    /// Whether the event is one that a driver can hand over: no flag is
    /// selected twice.
    pub open spec fn wf(self) -> bool {
        self matches EventView::Selected(flags) ==> flags.no_duplicates()
    }
}

/// What the driver is to do next.
#[derive(Debug, PartialEq, Eq)]
pub enum Action {
    /// Ask for the text of `field`. Where the answer before was refused,
    /// `complaint` tells the user why.
    AskText { field: TextField, complaint: Option<String> },
    /// Let the user switch flags of the vocabulary on and off.
    AskFlags,
    /// Nothing is to be done outside: hand back `Event::Completed`.
    Proceed,
    /// Write `text` to `path` and show both to the user.
    Report { path: String, text: String },
    /// The flow is over.
    Stop,
}

/// What an action holds.
pub ghost enum ActionView {
    AskText { field: TextField, complaint: Option<Seq<char>> },
    AskFlags,
    Proceed,
    Report { path: Seq<char>, text: Seq<char> },
    Stop,
}

impl View for Action {
    type V = ActionView;

    open spec fn view(&self) -> ActionView {
        match self {
            Action::AskText { field, complaint } => ActionView::AskText {
                field: *field,
                complaint: text_view(*complaint),
            },
            Action::AskFlags => ActionView::AskFlags,
            Action::Proceed => ActionView::Proceed,
            Action::Report { path, text } => ActionView::Report { path: path@, text: text@ },
            Action::Stop => ActionView::Stop,
        }
    }
}

/// What a wizard holds: its stage, the draft, the place the manifest is to
/// be written to, and the manifest text once it exists.
pub ghost struct WizardView {
    pub stage: Stage,
    pub draft: DraftView,
    pub output_path: Seq<char>,
    pub rendered: Option<Seq<char>>,
}

impl WizardView {
    /// The wizard before its first question.
    pub open spec fn initial(output_path: Seq<char>) -> WizardView {
        WizardView { stage: Stage::Start, draft: DraftView::empty(), output_path, rendered: None }
    }

    /// Whether the draft holds what the stage says has been collected, and
    /// the manifest text is there from `Rendered` on and is the text of the
    /// draft. A flow that was aborted holds what it had when it ended.
    pub open spec fn wf(self) -> bool {
        &&& self.draft.wf()
        &&& self.draft.base_image is Some ==> self.draft.container_name is Some
        &&& self.draft.init_command is Some ==> self.draft.base_image is Some
        &&& self.draft.home_directory is Some ==> self.draft.init_command is Some
        &&& self.draft.enabled_flags.len() > 0 ==> self.draft.home_directory is Some
        &&& self.rendered is Some ==> self.rendered == self.draft.rendering()
        &&& match self.stage {
            Stage::Start => self.draft.container_name is None && self.rendered is None,
            Stage::NameCollected => {
                &&& self.draft.container_name is Some
                &&& self.draft.base_image is None
                &&& self.rendered is None
            },
            Stage::ImageCollected => {
                &&& self.draft.base_image is Some
                &&& self.draft.init_command is None
                &&& self.rendered is None
            },
            Stage::InitCollected => {
                &&& self.draft.init_command is Some
                &&& self.draft.home_directory is None
                &&& self.rendered is None
            },
            Stage::HomeCollected => {
                &&& self.draft.home_directory is Some
                &&& self.draft.enabled_flags.len() == 0
                &&& self.rendered is None
            },
            Stage::FlagsCollected => self.draft.home_directory is Some && self.rendered is None,
            Stage::Rendered | Stage::Reported | Stage::Done => self.rendered is Some,
            Stage::Aborted => true,
        }
    }

    /// The wizard after `event`.
    ///
    /// A flow that is over stays as it is. A failure ends the flow. An answer
    /// that is short enough, a selection, and the completion of an action
    /// move the flow on by one stage where that stage waits for them. All
    /// else leaves the wizard as it is.
    pub open spec fn after(self, event: EventView) -> WizardView {
        if self.stage.terminal() {
            self
        } else {
            match event {
                EventView::Failed => WizardView { stage: Stage::Aborted, ..self },
                EventView::Answered(text) => match self.stage.pending_field() {
                    Some(field) => if fits(text) {
                        WizardView {
                            stage: self.stage.successor(),
                            draft: self.draft.with_text(field, text),
                            ..self
                        }
                    } else {
                        self
                    },
                    None => self,
                },
                EventView::Selected(flags) => if self.stage == Stage::HomeCollected {
                    WizardView {
                        stage: Stage::FlagsCollected,
                        draft: self.draft.with_flags(flags),
                        ..self
                    }
                } else {
                    self
                },
                EventView::Completed => match self.stage {
                    Stage::FlagsCollected => WizardView {
                        stage: Stage::Rendered,
                        rendered: self.draft.rendering(),
                        ..self
                    },
                    Stage::Rendered => WizardView { stage: Stage::Reported, ..self },
                    Stage::Reported => WizardView { stage: Stage::Done, ..self },
                    _ => self,
                },
            }
        }
    }

    /// Whether `event` is an answer that the wizard refuses as too long.
    pub open spec fn refuses(self, event: EventView) -> bool {
        &&& self.stage.pending_field() is Some
        &&& event matches EventView::Answered(text)
        &&& !fits(text)
    }

    /// What the driver of this wizard is to do next.
    pub open spec fn pending(self) -> ActionView {
        match self.stage {
            Stage::Start | Stage::NameCollected | Stage::ImageCollected | Stage::InitCollected => {
                ActionView::AskText { field: self.stage.pending_field()->0, complaint: None }
            },
            Stage::HomeCollected => ActionView::AskFlags,
            Stage::FlagsCollected | Stage::Reported => ActionView::Proceed,
            Stage::Rendered => match self.rendered {
                Some(text) => ActionView::Report { path: self.output_path, text },
                None => ActionView::Stop,
            },
            Stage::Done | Stage::Aborted => ActionView::Stop,
        }
    }

    /// What the driver is to do after it has handed over `event`: the same
    /// question with a complaint where the answer was refused, and else the
    /// action of the wizard as it is after the event.
    pub open spec fn reply(self, event: EventView) -> ActionView {
        if self.refuses(event) {
            ActionView::AskText {
                field: self.stage.pending_field()->0,
                complaint: Some(too_long_message()),
            }
        } else {
            self.after(event).pending()
        }
    }
}

/// An event leaves a wizard that is in order in order.
pub proof fn lemma_after_keeps_order(wizard: WizardView, event: EventView)
    requires
        wizard.wf(),
        event.wf(),
    ensures
        wizard.after(event).wf(),
{
}

/// An event leaves the stage as it is, moves it on to its successor, or ends
/// the flow in `Aborted`: no stage is skipped and none comes again once it
/// is left. The place to write to never changes.
pub proof fn lemma_stages_follow_in_order(wizard: WizardView, event: EventView)
    ensures
        ({
            let next = wizard.after(event).stage;
            next == wizard.stage || next == wizard.stage.successor() || next == Stage::Aborted
        }),
        wizard.stage.rank() <= wizard.after(event).stage.rank(),
        wizard.stage.terminal() ==> wizard.after(event) == wizard,
        wizard.after(event).output_path == wizard.output_path,
{
}

/// In a wizard that is in order, a manifest text exists at the stages
/// `Rendered`, `Reported` and `Done`, and besides those only in a flow that
/// was aborted after it had been rendered. Where it exists, all four texts
/// have been given and it is the manifest text of the draft.
pub proof fn lemma_manifest_only_when_complete(wizard: WizardView)
    requires
        wizard.wf(),
    ensures
        wizard.rendered is Some ==> wizard.draft.complete() && wizard.stage.rank()
            >= Stage::Rendered.rank(),
        wizard.rendered matches Some(text) ==> text == manifest_text(
            wizard.draft.container_name->0,
            wizard.draft.base_image->0,
            wizard.draft.init_command->0,
            wizard.draft.home_directory->0,
            wizard.draft.enabled_flags,
        ),
        Stage::Rendered.rank() <= wizard.stage.rank() <= Stage::Done.rank()
            ==> wizard.rendered is Some,
{
}

/// A failure ends every flow that is not over. Where it comes before the
/// manifest was rendered there is no manifest text afterwards; where it comes
/// later the text is kept. Nothing is left for the driver to do.
pub proof fn lemma_failure_aborts(wizard: WizardView)
    requires
        wizard.wf(),
        !wizard.stage.terminal(),
    ensures
        wizard.after(EventView::Failed).stage == Stage::Aborted,
        wizard.after(EventView::Failed).rendered == wizard.rendered,
        wizard.stage.rank() < Stage::Rendered.rank() ==> wizard.after(EventView::Failed).rendered
            is None,
        wizard.reply(EventView::Failed) == ActionView::Stop,
{
}

/// An answer to a text question is taken if and only if it is short enough.
/// If it is, it becomes the text of the field that was asked for and the
/// flow moves on. If it is not, the wizard stays as it is and the same
/// question is asked again, with the complaint that the answer is too long.
pub proof fn lemma_answer_taken_or_asked_again(wizard: WizardView, answer: Seq<char>)
    requires
        wizard.stage.pending_field() is Some,
    ensures
        ({
            let field = wizard.stage.pending_field()->0;
            let event = EventView::Answered(answer);
            if fits(answer) {
                &&& wizard.after(event).stage == wizard.stage.successor()
                &&& wizard.after(event).draft == wizard.draft.with_text(field, answer)
                &&& wizard.after(event).draft.text(field) == Some(answer)
            } else {
                &&& wizard.after(event) == wizard
                &&& wizard.reply(event) == ActionView::AskText {
                    field,
                    complaint: Some(too_long_message()),
                }
            }
        }),
{
}

/// A flow in which every action succeeds and every answer is short enough
/// ends in `Done` after eight events: four answers, the selection, and the
/// completion of rendering, of reporting and of leaving. When rendering is
/// complete the driver is asked to report, to the place that the wizard was
/// made with, the manifest text of the four answers and the selected flags.
pub proof fn lemma_flow_reaches_done(
    output_path: Seq<char>,
    container_name: Seq<char>,
    base_image: Seq<char>,
    init_command: Seq<char>,
    home_directory: Seq<char>,
    flags: Seq<Flag>,
)
    requires
        fits(container_name),
        fits(base_image),
        fits(init_command),
        fits(home_directory),
    ensures
        ({
            let collected = WizardView::initial(output_path).after(
                EventView::Answered(container_name),
            ).after(EventView::Answered(base_image)).after(EventView::Answered(init_command)).after(
                EventView::Answered(home_directory),
            ).after(EventView::Selected(flags));
            let text = manifest_text(
                container_name,
                base_image,
                init_command,
                home_directory,
                flags,
            );
            &&& collected.stage == Stage::FlagsCollected
            &&& collected.rendered is None
            &&& collected.reply(EventView::Completed) == ActionView::Report {
                path: output_path,
                text,
            }
            &&& collected.after(EventView::Completed).stage == Stage::Rendered
            &&& collected.after(EventView::Completed).rendered == Some(text)
            &&& collected.after(EventView::Completed).after(EventView::Completed).stage
                == Stage::Reported
            &&& collected.after(EventView::Completed).after(EventView::Completed).after(
                EventView::Completed,
            ).stage == Stage::Done
        }),
{
}

/// The wizard: a draft in the making, and how far the flow has come.
#[derive(Debug, PartialEq, Eq)]
pub struct Wizard {
    stage: Stage,
    draft: ManifestDraft,
    output_path: String,
    rendered: Option<String>,
}

impl View for Wizard {
    type V = WizardView;

    closed spec fn view(&self) -> WizardView {
        WizardView {
            stage: self.stage,
            draft: self.draft@,
            output_path: self.output_path@,
            rendered: text_view(self.rendered),
        }
    }
}

impl Wizard {
    /// What every wizard keeps to.
    #[verifier::type_invariant]
    pub open spec fn valid(&self) -> bool {
        self@.wf()
    }

    /// Returns a wizard before its first question, which will have the
    /// manifest written to `output_path`.
    pub fn new(output_path: String) -> (wizard: Wizard)
        ensures
            wizard@ == WizardView::initial(output_path@),
    {
        Wizard { stage: Stage::Start, draft: ManifestDraft::new(), output_path, rendered: None }
    }

    /// Returns how far the flow has come.
    pub fn stage(&self) -> (stage: Stage)
        ensures
            stage == self@.stage,
            self@.wf(),
    {
        proof {
            use_type_invariant(self);
        }
        self.stage
    }

    /// Returns the draft as it stands.
    pub fn draft(&self) -> (draft: &ManifestDraft)
        ensures
            draft@ == self@.draft,
    {
        &self.draft
    }

    /// Returns the place that the manifest is to be written to.
    pub fn output_path(&self) -> (path: &String)
        ensures
            path@ == self@.output_path,
    {
        &self.output_path
    }

    /// Returns the manifest text, which exists once the flow has reached
    /// `Rendered`. A flow that was aborted after that still has it.
    pub fn rendered(&self) -> (text: Option<&String>)
        ensures
            match text {
                Some(text) => self@.rendered == Some(text@),
                None => self@.rendered is None,
            },
    {
        self.rendered.as_ref()
    }

    /// Returns what the driver is to do next.
    pub fn pending(&self) -> (action: Action)
        ensures
            action@ == self@.pending(),
    {
        match self.stage.field() {
            Some(field) => Action::AskText { field, complaint: None },
            None => match self.stage {
                Stage::HomeCollected => Action::AskFlags,
                Stage::FlagsCollected | Stage::Reported => Action::Proceed,
                Stage::Rendered => match &self.rendered {
                    Some(text) => Action::Report {
                        path: self.output_path.clone(),
                        text: text.clone(),
                    },
                    None => Action::Stop,
                },
                _ => Action::Stop,
            },
        }
    }

    /// Takes what came of the last action, and returns the wizard after it
    /// together with what the driver is to do next.
    pub fn step(self, event: Event) -> (next: (Wizard, Action))
        ensures
            next.0@ == self@.after(event@),
            next.1@ == self@.reply(event@),
            next.0@.wf(),
    {
        proof {
            use_type_invariant(&self);
        }
        let Wizard { stage, draft, output_path, rendered } = self;
        let mut draft = draft;
        let mut complaint: Option<String> = None;
        let wizard = if stage.is_terminal() {
            Wizard { stage, draft, output_path, rendered }
        } else {
            match event {
                Event::Failed => Wizard { stage: Stage::Aborted, draft, output_path, rendered },
                Event::Answered(text) => match stage.field() {
                    Some(field) => match draft.set_text(field, text) {
                        Validation::Valid => Wizard {
                            stage: stage.next(),
                            draft,
                            output_path,
                            rendered,
                        },
                        Validation::Invalid(message) => {
                            complaint = Some(message);
                            Wizard { stage, draft, output_path, rendered }
                        },
                    },
                    None => Wizard { stage, draft, output_path, rendered },
                },
                Event::Selected(flags) => {
                    if stage == Stage::HomeCollected {
                        draft.set_flags(flags);
                        Wizard { stage: Stage::FlagsCollected, draft, output_path, rendered }
                    } else {
                        Wizard { stage, draft, output_path, rendered }
                    }
                },
                Event::Completed => match stage {
                    Stage::FlagsCollected => {
                        let text = draft.render();
                        Wizard { stage: Stage::Rendered, draft, output_path, rendered: text }
                    },
                    Stage::Rendered | Stage::Reported => Wizard {
                        stage: stage.next(),
                        draft,
                        output_path,
                        rendered,
                    },
                    _ => Wizard { stage, draft, output_path, rendered },
                },
            }
        };
        let action = match complaint {
            Some(message) => match wizard.pending() {
                Action::AskText { field, complaint: _ } => Action::AskText {
                    field,
                    complaint: Some(message),
                },
                other => other,
            },
            None => wizard.pending(),
        };
        (wizard, action)
    }
}

} // verus!
