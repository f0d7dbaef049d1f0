use distro_manifesto::flag::Flag;
use distro_manifesto::manifest::TextField;
use distro_manifesto::selection::FlagSelection;
use distro_manifesto::wizard::{Action, Event, Stage, Wizard};

const WEB_MANIFEST: &str =
    "[web]\nimage=\"ubuntu:22.04\"\ninit=\"/bin/sh\"\nhome=\"/home/user\"\nroot=true\npull=true\n";

fn ask(field: TextField) -> Action {
    Action::AskText { field, complaint: None }
}

fn answered(text: &str) -> Event {
    Event::Answered(text.to_string())
}

fn root_and_pull() -> FlagSelection {
    let mut selection = FlagSelection::new();
    selection.toggle(Flag::Root);
    selection.toggle(Flag::Pull);
    selection
}

fn collected(path: &str) -> Wizard {
    let wizard = Wizard::new(path.to_string());
    let (wizard, _) = wizard.step(answered("web"));
    let (wizard, _) = wizard.step(answered("ubuntu:22.04"));
    let (wizard, _) = wizard.step(answered("/bin/sh"));
    let (wizard, _) = wizard.step(answered("/home/user"));
    let (wizard, _) = wizard.step(Event::Selected(root_and_pull()));
    wizard
}

#[test]
fn new_wizard_asks_for_the_container_name() {
    let wizard = Wizard::new("./".to_string());
    assert_eq!(wizard.stage(), Stage::Start);
    assert_eq!(wizard.pending(), ask(TextField::ContainerName));
    assert_eq!(wizard.output_path(), "./");
    assert_eq!(wizard.rendered(), None);
    assert!(!wizard.draft().is_complete());
}

#[test]
fn wizard_with_valid_answers_reports_to_the_given_path() {
    let wizard = Wizard::new("/tmp/out.ini".to_string());

    let (wizard, action) = wizard.step(answered("web"));
    assert_eq!(wizard.stage(), Stage::NameCollected);
    assert_eq!(action, ask(TextField::BaseImage));

    let (wizard, action) = wizard.step(answered("ubuntu:22.04"));
    assert_eq!(wizard.stage(), Stage::ImageCollected);
    assert_eq!(action, ask(TextField::InitCommand));

    let (wizard, action) = wizard.step(answered("/bin/sh"));
    assert_eq!(wizard.stage(), Stage::InitCollected);
    assert_eq!(action, ask(TextField::HomeDirectory));

    let (wizard, action) = wizard.step(answered("/home/user"));
    assert_eq!(wizard.stage(), Stage::HomeCollected);
    assert_eq!(action, Action::AskFlags);

    let (wizard, action) = wizard.step(Event::Selected(root_and_pull()));
    assert_eq!(wizard.stage(), Stage::FlagsCollected);
    assert_eq!(action, Action::Proceed);
    assert_eq!(wizard.rendered(), None);

    let (wizard, action) = wizard.step(Event::Completed);
    assert_eq!(wizard.stage(), Stage::Rendered);
    assert_eq!(
        action,
        Action::Report { path: "/tmp/out.ini".to_string(), text: WEB_MANIFEST.to_string() }
    );
    assert_eq!(wizard.rendered(), Some(&WEB_MANIFEST.to_string()));

    let (wizard, action) = wizard.step(Event::Completed);
    assert_eq!(wizard.stage(), Stage::Reported);
    assert_eq!(action, Action::Proceed);

    let (wizard, action) = wizard.step(Event::Completed);
    assert_eq!(wizard.stage(), Stage::Done);
    assert_eq!(action, Action::Stop);
    assert!(wizard.stage().is_terminal());
    assert_eq!(wizard.rendered(), Some(&WEB_MANIFEST.to_string()));
    assert_eq!(wizard.output_path(), "/tmp/out.ini");
}

#[test]
fn step_returns_the_pending_action_of_the_next_wizard() {
    let mut wizard = Wizard::new("out".to_string());
    let events = vec![
        answered("web"),
        answered("ubuntu:22.04"),
        answered("/bin/sh"),
        answered("/home/user"),
        Event::Selected(root_and_pull()),
        Event::Completed,
        Event::Completed,
        Event::Completed,
    ];
    for event in events {
        let (next, action) = wizard.step(event);
        assert_eq!(action, next.pending());
        wizard = next;
    }
    assert_eq!(wizard.stage(), Stage::Done);
}

#[test]
fn too_long_answer_is_asked_again_with_the_complaint() {
    let wizard = Wizard::new("./".to_string());
    let (wizard, action) = wizard.step(Event::Answered("n".repeat(141)));
    assert_eq!(wizard.stage(), Stage::Start);
    assert_eq!(
        action,
        Action::AskText {
            field: TextField::ContainerName,
            complaint: Some("You're only allowed 140 characters.".to_string()),
        }
    );
    assert_eq!(wizard.draft().text(TextField::ContainerName), None);
    assert_eq!(wizard.pending(), ask(TextField::ContainerName));

    let (wizard, action) = wizard.step(Event::Answered("n".repeat(140)));
    assert_eq!(wizard.stage(), Stage::NameCollected);
    assert_eq!(action, ask(TextField::BaseImage));
    assert_eq!(wizard.draft().text(TextField::ContainerName), Some(&"n".repeat(140)));
}

#[test]
fn too_long_answer_is_refused_at_every_text_question() {
    let fields = [
        TextField::ContainerName,
        TextField::BaseImage,
        TextField::InitCommand,
        TextField::HomeDirectory,
    ];
    let mut wizard = Wizard::new("./".to_string());
    for field in fields {
        let before = wizard.stage();
        let (same, action) = wizard.step(Event::Answered("y".repeat(200)));
        assert_eq!(same.stage(), before);
        assert_eq!(
            action,
            Action::AskText {
                field,
                complaint: Some("You're only allowed 140 characters.".to_string()),
            }
        );
        assert_eq!(same.draft().text(field), None);
        let (next, _) = same.step(answered("ok"));
        assert_ne!(next.stage(), before);
        wizard = next;
    }
    assert_eq!(wizard.stage(), Stage::HomeCollected);
}

#[test]
fn empty_answers_are_taken() {
    let wizard = Wizard::new("./".to_string());
    let (wizard, _) = wizard.step(answered(""));
    let (wizard, _) = wizard.step(answered(""));
    let (wizard, _) = wizard.step(answered(""));
    let (wizard, _) = wizard.step(answered(""));
    let (wizard, _) = wizard.step(Event::Selected(FlagSelection::new()));
    let (wizard, action) = wizard.step(Event::Completed);
    assert_eq!(wizard.stage(), Stage::Rendered);
    assert_eq!(
        action,
        Action::Report {
            path: "./".to_string(),
            text: "[]\nimage=\"\"\ninit=\"\"\nhome=\"\"\n".to_string(),
        }
    );
}

#[test]
fn failed_prompt_aborts_without_a_manifest() {
    let answers = ["web", "ubuntu:22.04", "/bin/sh", "/home/user"];
    for given in 0..=answers.len() {
        let mut wizard = Wizard::new("./".to_string());
        for answer in &answers[..given] {
            wizard = wizard.step(answered(answer)).0;
        }
        let (wizard, action) = wizard.step(Event::Failed);
        assert_eq!(wizard.stage(), Stage::Aborted);
        assert_eq!(action, Action::Stop);
        assert_eq!(wizard.rendered(), None);
        assert!(wizard.stage().is_terminal());
    }
}

#[test]
fn failed_report_aborts_and_keeps_the_manifest() {
    let wizard = collected("/no/such/dir/out.ini");
    let (wizard, _) = wizard.step(Event::Completed);
    assert_eq!(wizard.stage(), Stage::Rendered);
    let (wizard, action) = wizard.step(Event::Failed);
    assert_eq!(wizard.stage(), Stage::Aborted);
    assert_eq!(action, Action::Stop);
    assert_eq!(wizard.rendered(), Some(&WEB_MANIFEST.to_string()));
}

#[test]
fn failure_before_rendering_leaves_no_manifest() {
    let wizard = collected("./");
    assert_eq!(wizard.stage(), Stage::FlagsCollected);
    let (wizard, action) = wizard.step(Event::Failed);
    assert_eq!(wizard.stage(), Stage::Aborted);
    assert_eq!(action, Action::Stop);
    assert_eq!(wizard.rendered(), None);
}

#[test]
fn finished_flow_takes_no_more_events() {
    let wizard = collected("./");
    let (wizard, _) = wizard.step(Event::Completed);
    let (wizard, _) = wizard.step(Event::Completed);
    let (done, _) = wizard.step(Event::Completed);
    assert_eq!(done.stage(), Stage::Done);
    let (done, action) = done.step(Event::Failed);
    assert_eq!(done.stage(), Stage::Done);
    assert_eq!(action, Action::Stop);
    let (done, action) = done.step(answered("again"));
    assert_eq!(done.stage(), Stage::Done);
    assert_eq!(action, Action::Stop);
    assert_eq!(done.rendered(), Some(&WEB_MANIFEST.to_string()));
}

#[test]
fn aborted_flow_takes_no_more_events() {
    let wizard = Wizard::new("./".to_string());
    let (aborted, _) = wizard.step(Event::Failed);
    let (aborted, action) = aborted.step(answered("web"));
    assert_eq!(aborted.stage(), Stage::Aborted);
    assert_eq!(action, Action::Stop);
    let (aborted, action) = aborted.step(Event::Completed);
    assert_eq!(aborted.stage(), Stage::Aborted);
    assert_eq!(action, Action::Stop);
    assert_eq!(aborted.draft().text(TextField::ContainerName), None);
}

#[test]
fn event_that_the_stage_does_not_wait_for_changes_nothing() {
    let wizard = Wizard::new("./".to_string());
    let (wizard, action) = wizard.step(Event::Selected(root_and_pull()));
    assert_eq!(wizard.stage(), Stage::Start);
    assert_eq!(action, ask(TextField::ContainerName));
    let (wizard, action) = wizard.step(Event::Completed);
    assert_eq!(wizard.stage(), Stage::Start);
    assert_eq!(action, ask(TextField::ContainerName));
    assert_eq!(wizard.draft().flags().len(), 0);

    let wizard = collected("./");
    let (wizard, action) = wizard.step(answered("late"));
    assert_eq!(wizard.stage(), Stage::FlagsCollected);
    assert_eq!(action, Action::Proceed);
    let (wizard, action) = wizard.step(Event::Selected(FlagSelection::new()));
    assert_eq!(wizard.stage(), Stage::FlagsCollected);
    assert_eq!(action, Action::Proceed);
    assert_eq!(wizard.draft().flags().flags(), vec![Flag::Root, Flag::Pull]);
}

#[test]
fn answer_where_flags_are_asked_for_changes_nothing() {
    let wizard = Wizard::new("./".to_string());
    let (wizard, _) = wizard.step(answered("web"));
    let (wizard, _) = wizard.step(answered("ubuntu:22.04"));
    let (wizard, _) = wizard.step(answered("/bin/sh"));
    let (wizard, _) = wizard.step(answered("/home/user"));
    let (wizard, action) = wizard.step(Event::Answered("z".repeat(500)));
    assert_eq!(wizard.stage(), Stage::HomeCollected);
    assert_eq!(action, Action::AskFlags);
    assert_eq!(wizard.draft().text(TextField::HomeDirectory), Some(&"/home/user".to_string()));
}

#[test]
fn wizard_without_flags_reports_no_flag_line() {
    let wizard = Wizard::new("/tmp/out.ini".to_string());
    let (wizard, _) = wizard.step(answered("web"));
    let (wizard, _) = wizard.step(answered("ubuntu:22.04"));
    let (wizard, _) = wizard.step(answered("/bin/sh"));
    let (wizard, _) = wizard.step(answered("/home/user"));
    let (wizard, _) = wizard.step(Event::Selected(FlagSelection::new()));
    let (_, action) = wizard.step(Event::Completed);
    assert_eq!(
        action,
        Action::Report {
            path: "/tmp/out.ini".to_string(),
            text: "[web]\nimage=\"ubuntu:22.04\"\ninit=\"/bin/sh\"\nhome=\"/home/user\"\n"
                .to_string(),
        }
    );
}

#[test]
fn stages_follow_one_another_in_the_fixed_order() {
    let order = [
        Stage::Start,
        Stage::NameCollected,
        Stage::ImageCollected,
        Stage::InitCollected,
        Stage::HomeCollected,
        Stage::FlagsCollected,
        Stage::Rendered,
        Stage::Reported,
        Stage::Done,
    ];
    for pair in order.windows(2) {
        assert_eq!(pair[0].next(), pair[1]);
        assert!(!pair[0].is_terminal());
    }
    assert_eq!(Stage::Done.next(), Stage::Done);
    assert_eq!(Stage::Aborted.next(), Stage::Aborted);
    assert!(Stage::Done.is_terminal());
    assert!(Stage::Aborted.is_terminal());
}

#[test]
fn the_first_four_stages_ask_for_the_four_texts() {
    assert_eq!(Stage::Start.field(), Some(TextField::ContainerName));
    assert_eq!(Stage::NameCollected.field(), Some(TextField::BaseImage));
    assert_eq!(Stage::ImageCollected.field(), Some(TextField::InitCommand));
    assert_eq!(Stage::InitCollected.field(), Some(TextField::HomeDirectory));
    for stage in [
        Stage::HomeCollected,
        Stage::FlagsCollected,
        Stage::Rendered,
        Stage::Reported,
        Stage::Done,
        Stage::Aborted,
    ] {
        assert_eq!(stage.field(), None);
    }
}
