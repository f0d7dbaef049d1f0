use distro_manifesto::flag::{vocabulary, Flag, VOCABULARY_SIZE};
use distro_manifesto::selection::{selection_summary, FlagSelection, SelectionError};

fn names(list: &[&str]) -> Vec<String> {
    list.iter().map(|name| name.to_string()).collect()
}

#[test]
fn vocabulary_has_eleven_flags_in_fixed_order() {
    let shown: Vec<&str> = vocabulary().iter().map(|flag| flag.name()).collect();
    assert_eq!(
        shown,
        vec![
            "entry",
            "start_now",
            "init",
            "nvidia",
            "pull",
            "root",
            "unshare_ipc",
            "unshare_netns",
            "unshare_process",
            "unshare_devsys",
            "unshare_all",
        ]
    );
    assert_eq!(vocabulary().len(), VOCABULARY_SIZE);
    assert_eq!(VOCABULARY_SIZE, 11);
}

#[test]
fn every_flag_is_found_by_its_name() {
    for flag in vocabulary() {
        assert_eq!(Flag::from_name(flag.name()), Some(flag));
    }
}

#[test]
fn from_name_knows_no_other_name() {
    assert_eq!(Flag::from_name(""), None);
    assert_eq!(Flag::from_name("Root"), None);
    assert_eq!(Flag::from_name("root "), None);
    assert_eq!(Flag::from_name("unshare"), None);
    assert_eq!(Flag::from_name("unshare_all_"), None);
    assert_eq!(Flag::from_name("start-now"), None);
}

#[test]
fn new_selection_is_empty() {
    let selection = FlagSelection::new();
    assert_eq!(selection.len(), 0);
    assert!(selection.flags().is_empty());
    assert!(!selection.contains(Flag::Root));
}

#[test]
fn toggle_switches_a_flag_on_and_keeps_the_order() {
    let mut selection = FlagSelection::new();
    selection.toggle(Flag::Root);
    selection.toggle(Flag::Pull);
    selection.toggle(Flag::Entry);
    assert_eq!(selection.flags(), vec![Flag::Root, Flag::Pull, Flag::Entry]);
    assert_eq!(selection.len(), 3);
    assert!(selection.contains(Flag::Pull));
    assert!(!selection.contains(Flag::Nvidia));
}

#[test]
fn toggle_twice_switches_a_flag_off_again() {
    let mut selection = FlagSelection::new();
    selection.toggle(Flag::Root);
    selection.toggle(Flag::Pull);
    selection.toggle(Flag::Init);
    selection.toggle(Flag::Pull);
    assert_eq!(selection.flags(), vec![Flag::Root, Flag::Init]);
    assert!(!selection.contains(Flag::Pull));
    selection.toggle(Flag::Pull);
    assert_eq!(selection.flags(), vec![Flag::Root, Flag::Init, Flag::Pull]);
}

#[test]
fn a_selection_never_holds_a_flag_twice() {
    let mut selection = FlagSelection::new();
    let presses = [
        Flag::Root,
        Flag::Pull,
        Flag::Root,
        Flag::Root,
        Flag::UnshareAll,
        Flag::Pull,
        Flag::Pull,
        Flag::Entry,
        Flag::Root,
        Flag::UnshareAll,
        Flag::UnshareAll,
    ];
    for flag in presses {
        selection.toggle(flag);
        let held = selection.flags();
        for (i, a) in held.iter().enumerate() {
            assert!(vocabulary().contains(a));
            for b in held.iter().skip(i + 1) {
                assert_ne!(a, b);
            }
        }
        assert!(held.len() <= VOCABULARY_SIZE);
    }
    assert_eq!(selection.flags(), vec![Flag::Pull, Flag::Entry, Flag::UnshareAll]);
}

#[test]
fn selecting_the_whole_vocabulary_fills_the_selection() {
    let mut selection = FlagSelection::new();
    for flag in vocabulary() {
        selection.toggle(flag);
    }
    assert_eq!(selection.len(), 11);
    assert_eq!(selection.flags(), vocabulary());
}

#[test]
fn clone_of_a_selection_holds_the_same_flags() {
    let mut selection = FlagSelection::new();
    selection.toggle(Flag::Nvidia);
    selection.toggle(Flag::Init);
    let copy = selection.clone();
    assert_eq!(copy, selection);
    assert_eq!(copy.flags(), vec![Flag::Nvidia, Flag::Init]);
}

#[test]
fn from_names_keeps_the_order_of_the_list() {
    let selection = FlagSelection::from_names(&names(&["root", "pull", "unshare_ipc"])).unwrap();
    assert_eq!(selection.flags(), vec![Flag::Root, Flag::Pull, Flag::UnshareIpc]);
}

#[test]
fn from_names_of_nothing_is_the_empty_selection() {
    let selection = FlagSelection::from_names(&Vec::new()).unwrap();
    assert_eq!(selection, FlagSelection::new());
}

#[test]
fn from_names_reports_the_first_unknown_name() {
    assert_eq!(
        FlagSelection::from_names(&names(&["root", "rot", "pull", "nope"])),
        Err(SelectionError::UnknownName { position: 1 })
    );
    assert_eq!(
        FlagSelection::from_names(&names(&[""])),
        Err(SelectionError::UnknownName { position: 0 })
    );
}

#[test]
fn from_names_reports_the_first_repeated_name() {
    assert_eq!(
        FlagSelection::from_names(&names(&["root", "pull", "root", "pull"])),
        Err(SelectionError::RepeatedName { position: 2 })
    );
}

#[test]
fn from_names_reports_whichever_fault_comes_first() {
    assert_eq!(
        FlagSelection::from_names(&names(&["init", "init", "bogus"])),
        Err(SelectionError::RepeatedName { position: 1 })
    );
    assert_eq!(
        FlagSelection::from_names(&names(&["init", "bogus", "init"])),
        Err(SelectionError::UnknownName { position: 1 })
    );
}

#[test]
fn selection_summary_counts_the_flags() {
    assert_eq!(selection_summary(0), "0 different flags");
    assert_eq!(selection_summary(2), "2 different flags");
    assert_eq!(selection_summary(11), "11 different flags");
}
