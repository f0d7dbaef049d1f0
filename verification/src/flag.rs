//! The closed vocabulary of feature flags.

use vstd::prelude::*;

verus! {

/// A boolean feature toggle of a container. The vocabulary is closed: a
/// manifest can enable these flags and no others.
#[derive(Clone, Copy, Debug, PartialEq, Eq, Hash, Structural)]
pub enum Flag {
    Entry,
    StartNow,
    Init,
    Nvidia,
    Pull,
    Root,
    UnshareIpc,
    UnshareNetns,
    UnshareProcess,
    UnshareDevsys,
    UnshareAll,
}

/// How many flags the vocabulary holds.
pub const VOCABULARY_SIZE: usize = 11;

/// The vocabulary in the order in which it is shown to the user.
pub open spec fn vocabulary_spec() -> Seq<Flag> {
    seq![
        Flag::Entry,
        Flag::StartNow,
        Flag::Init,
        Flag::Nvidia,
        Flag::Pull,
        Flag::Root,
        Flag::UnshareIpc,
        Flag::UnshareNetns,
        Flag::UnshareProcess,
        Flag::UnshareDevsys,
        Flag::UnshareAll,
    ]
}

impl Flag {
    /// The name under which the flag is shown and written to a manifest.
    pub open spec fn name_spec(self) -> Seq<char> {
        match self {
            Flag::Entry => "entry"@,
            Flag::StartNow => "start_now"@,
            Flag::Init => "init"@,
            Flag::Nvidia => "nvidia"@,
            Flag::Pull => "pull"@,
            Flag::Root => "root"@,
            Flag::UnshareIpc => "unshare_ipc"@,
            Flag::UnshareNetns => "unshare_netns"@,
            Flag::UnshareProcess => "unshare_process"@,
            Flag::UnshareDevsys => "unshare_devsys"@,
            Flag::UnshareAll => "unshare_all"@,
        }
    }

    /// The place of the flag in the vocabulary, counted from zero.
    pub open spec fn position_spec(self) -> int {
        match self {
            Flag::Entry => 0,
            Flag::StartNow => 1,
            Flag::Init => 2,
            Flag::Nvidia => 3,
            Flag::Pull => 4,
            Flag::Root => 5,
            Flag::UnshareIpc => 6,
            Flag::UnshareNetns => 7,
            Flag::UnshareProcess => 8,
            Flag::UnshareDevsys => 9,
            Flag::UnshareAll => 10,
        }
    }

    /// Returns the name of the flag.
    pub fn name(&self) -> (r: &'static str)
        ensures
            r@ == self.name_spec(),
    {
        match self {
            Flag::Entry => "entry",
            Flag::StartNow => "start_now",
            Flag::Init => "init",
            Flag::Nvidia => "nvidia",
            Flag::Pull => "pull",
            Flag::Root => "root",
            Flag::UnshareIpc => "unshare_ipc",
            Flag::UnshareNetns => "unshare_netns",
            Flag::UnshareProcess => "unshare_process",
            Flag::UnshareDevsys => "unshare_devsys",
            Flag::UnshareAll => "unshare_all",
        }
    }

    /// Looks a flag up by its name. The answer is `None` exactly for a text
    /// that names no flag.
    pub fn from_name(name: &str) -> (r: Option<Flag>)
        ensures
            r == if is_flag_name(name@) {
                Some(flag_named(name@))
            } else {
                None
            },
    {
        let all = vocabulary();
        let wanted = String::from_str(name);
        let mut i: usize = 0;
        while i < all.len()
            invariant
                i <= all.len(),
                all@ == vocabulary_spec(),
                wanted@ == name@,
                forall|j: int| 0 <= j < i ==> all@[j].name_spec() != name@,
            decreases all.len() - i,
        {
            let candidate = String::from_str(all[i].name());
            if candidate == wanted {
                proof {
                    lemma_names_distinct(flag_named(name@), all@[i as int]);
                }
                return Some(all[i]);
            }
            i += 1;
        }
        proof {
            lemma_vocabulary_complete();
            assert forall|f: Flag| f.name_spec() != name@ by {
                assert(all@[f.position_spec()] == f);
            }
        }
        None
    }
}

/// Whether `name` is the name of a flag.
pub open spec fn is_flag_name(name: Seq<char>) -> bool {
    exists|f: Flag| f.name_spec() == name
}

/// The flag that `name` names, where `is_flag_name(name)` holds.
pub open spec fn flag_named(name: Seq<char>) -> Flag {
    choose|f: Flag| f.name_spec() == name
}

/// Every flag stands at its own place in the vocabulary, and the vocabulary
/// holds nothing else: it has one entry for each flag.
pub proof fn lemma_vocabulary_complete()
    ensures
        vocabulary_spec().len() == VOCABULARY_SIZE,
        vocabulary_spec().no_duplicates(),
        forall|f: Flag|
            0 <= #[trigger] f.position_spec() < vocabulary_spec().len()
                && vocabulary_spec()[f.position_spec()] == f,
        forall|f: Flag| #[trigger] vocabulary_spec().contains(f),
{
    assert forall|f: Flag| #[trigger] vocabulary_spec().contains(f) by {
        assert(vocabulary_spec()[f.position_spec()] == f);
    }
}

/// A length and two characters of a name, which together tell the names of
/// any two flags apart.
spec fn name_mark(name: Seq<char>) -> (nat, char, char) {
    (name.len(), name[0], if name.len() > 8 { name[8] } else { ' ' })
}

proof fn lemma_name_marks(f: Flag)
    ensures
        name_mark(f.name_spec()) == match f {
            Flag::Entry => (5nat, 'e', ' '),
            Flag::StartNow => (9nat, 's', 'w'),
            Flag::Init => (4nat, 'i', ' '),
            Flag::Nvidia => (6nat, 'n', ' '),
            Flag::Pull => (4nat, 'p', ' '),
            Flag::Root => (4nat, 'r', ' '),
            Flag::UnshareIpc => (11nat, 'u', 'i'),
            Flag::UnshareNetns => (13nat, 'u', 'n'),
            Flag::UnshareProcess => (15nat, 'u', 'p'),
            Flag::UnshareDevsys => (14nat, 'u', 'd'),
            Flag::UnshareAll => (11nat, 'u', 'a'),
        },
{
    reveal_strlit("entry");
    reveal_strlit("start_now");
    reveal_strlit("init");
    reveal_strlit("nvidia");
    reveal_strlit("pull");
    reveal_strlit("root");
    reveal_strlit("unshare_ipc");
    reveal_strlit("unshare_netns");
    reveal_strlit("unshare_process");
    reveal_strlit("unshare_devsys");
    reveal_strlit("unshare_all");
}

/// No two flags share a name.
pub proof fn lemma_names_distinct(f: Flag, g: Flag)
    requires
        f.name_spec() == g.name_spec(),
    ensures
        f == g,
{
    lemma_name_marks(f);
    lemma_name_marks(g);
}

/// A name names the flag that bears it: looking a flag up by its own name
/// gives the flag back.
pub proof fn lemma_flag_named_own_name(f: Flag)
    ensures
        is_flag_name(f.name_spec()),
        flag_named(f.name_spec()) == f,
{
    lemma_names_distinct(flag_named(f.name_spec()), f);
}

/// Returns the vocabulary in the order in which it is shown to the user.
pub fn vocabulary() -> (v: Vec<Flag>)
    ensures
        v@ == vocabulary_spec(),
{
    let mut v: Vec<Flag> = Vec::new();
    v.push(Flag::Entry);
    v.push(Flag::StartNow);
    v.push(Flag::Init);
    v.push(Flag::Nvidia);
    v.push(Flag::Pull);
    v.push(Flag::Root);
    v.push(Flag::UnshareIpc);
    v.push(Flag::UnshareNetns);
    v.push(Flag::UnshareProcess);
    v.push(Flag::UnshareDevsys);
    v.push(Flag::UnshareAll);
    assert(v@ =~= vocabulary_spec());
    v
}

} // verus!
