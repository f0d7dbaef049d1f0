//! The flags that a user has switched on.

use crate::text::{decimal, decimal_digits};
use crate::flag::{
    flag_named, is_flag_name, lemma_vocabulary_complete, vocabulary_spec, Flag, VOCABULARY_SIZE,
};
use vstd::prelude::*;
use vstd::string::StringExecFns;

verus! {

/// The flags that are switched on, in the order in which they were switched
/// on. No flag occurs twice.
#[derive(Debug, PartialEq, Eq)]
pub struct FlagSelection {
    chosen: Vec<Flag>,
}

impl View for FlagSelection {
    type V = Seq<Flag>;

    closed spec fn view(&self) -> Seq<Flag> {
        self.chosen@
    }
}

impl Clone for FlagSelection {
    fn clone(&self) -> (copy: Self)
        ensures
            copy@ == self@,
    {
        proof {
            use_type_invariant(self);
        }
        FlagSelection { chosen: self.chosen.clone() }
    }
}

/// Why a list of names is no selection.
#[derive(Clone, Copy, Debug, PartialEq, Eq, Structural)]
pub enum SelectionError {
    /// The name at `position` names no flag.
    UnknownName { position: usize },
    /// The name at `position` stands earlier in the list too.
    RepeatedName { position: usize },
}

/// A selection after the user has pressed `flag`: a flag that was off is
/// switched on and comes last, a flag that was on is switched off.
pub open spec fn toggled(chosen: Seq<Flag>, flag: Flag) -> Seq<Flag> {
    if chosen.contains(flag) {
        chosen.remove(chosen.index_of(flag))
    } else {
        chosen.push(flag)
    }
}

/// Whether every name in the list names a flag and none stands there twice.
pub open spec fn clean_names(names: Seq<Seq<char>>) -> bool {
    &&& forall|i: int| 0 <= i < names.len() ==> is_flag_name(#[trigger] names[i])
    &&& names.no_duplicates()
}

/// The flags that the names of a list name, one for one.
pub open spec fn flags_named(names: Seq<Seq<char>>) -> Seq<Flag> {
    Seq::new(names.len(), |i: int| flag_named(names[i]))
}

/// How a selection of `count` flags is summed up once the user has made it.
pub open spec fn selection_summary_spec(count: nat) -> Seq<char> {
    decimal_digits(count) + " different flags"@
}

/// Sums up a selection of `count` flags for the user.
pub fn selection_summary(count: usize) -> (summary: String)
    ensures
        summary@ == selection_summary_spec(count as nat),
{
    let mut summary = decimal(count);
    summary.append(" different flags");
    summary
}

/// A sequence of flags in which none occurs twice has no more entries than
/// the vocabulary has flags.
pub proof fn lemma_distinct_flags_fit_vocabulary(chosen: Seq<Flag>)
    requires
        chosen.no_duplicates(),
    ensures
        chosen.len() <= VOCABULARY_SIZE,
        forall|i: int| 0 <= i < chosen.len() ==> vocabulary_spec().contains(#[trigger] chosen[i]),
{
    lemma_vocabulary_complete();
    chosen.unique_seq_to_set();
    vocabulary_spec().unique_seq_to_set();
    assert(chosen.to_set().subset_of(vocabulary_spec().to_set())) by {
        assert forall|f: Flag| chosen.to_set().contains(f) implies vocabulary_spec().to_set()
            .contains(f) by {
            assert(vocabulary_spec().contains(f));
        }
    }
    vstd::set_lib::lemma_len_subset(chosen.to_set(), vocabulary_spec().to_set());
}

/// Pressing a flag keeps a selection free of repetitions.
pub proof fn lemma_toggled_distinct(chosen: Seq<Flag>, flag: Flag)
    requires
        chosen.no_duplicates(),
    ensures
        toggled(chosen, flag).no_duplicates(),
        toggled(chosen, flag).contains(flag) == !chosen.contains(flag),
        forall|other: Flag|
            other != flag ==> toggled(chosen, flag).contains(other) == chosen.contains(other),
{
    let after = toggled(chosen, flag);
    if chosen.contains(flag) {
        let at = chosen.index_of(flag);
        assert forall|i: int, j: int|
            0 <= i < after.len() && 0 <= j < after.len() && i != j implies after[i] != after[j] by {
            let oi = if i < at { i } else { i + 1 };
            let oj = if j < at { j } else { j + 1 };
            assert(after[i] == chosen[oi]);
            assert(after[j] == chosen[oj]);
        }
        assert(!after.contains(flag)) by {
            if after.contains(flag) {
                let i = after.index_of(flag);
                let oi = if i < at { i } else { i + 1 };
                assert(after[i] == chosen[oi]);
            }
        }
        assert forall|other: Flag| other != flag implies after.contains(other) == chosen.contains(
            other,
        ) by {
            if chosen.contains(other) {
                let o = chosen.index_of(other);
                let n = if o < at { o } else { o - 1 };
                assert(after[n] == other);
            }
            if after.contains(other) {
                let i = after.index_of(other);
                let oi = if i < at { i } else { i + 1 };
                assert(chosen[oi] == other);
            }
        }
    } else {
        assert(after[after.len() - 1] == flag);
        assert forall|other: Flag| other != flag implies after.contains(other) == chosen.contains(
            other,
        ) by {
            if chosen.contains(other) {
                let o = chosen.index_of(other);
                assert(after[o] == other);
            }
            if after.contains(other) {
                let i = after.index_of(other);
                assert(chosen[i] == other);
            }
        }
    }
}

/// Two names of flags that name the same flag are the same name.
proof fn lemma_named_alike(a: Seq<char>, b: Seq<char>)
    requires
        is_flag_name(a),
        is_flag_name(b),
        flag_named(a) == flag_named(b),
    ensures
        a == b,
{
}

/// The first place at which `flag` stands in `flags`.
fn place_of(flags: &Vec<Flag>, flag: Flag) -> (r: Option<usize>)
    ensures
        r is Some <==> flags@.contains(flag),
        r matches Some(at) ==> at < flags@.len() && flags@[at as int] == flag,
{
    let mut i: usize = 0;
    while i < flags.len()
        invariant
            i <= flags.len(),
            forall|j: int| 0 <= j < i ==> flags@[j] != flag,
        decreases flags.len() - i,
    {
        if flags[i] == flag {
            return Some(i);
        }
        i += 1;
    }
    None
}

impl FlagSelection {
    /// What every selection keeps to: no flag is switched on twice.
    #[verifier::type_invariant]
    pub open spec fn valid(&self) -> bool {
        self@.no_duplicates()
    }

    /// Returns the selection in which no flag is switched on.
    pub fn new() -> (s: Self)
        ensures
            s@ == Seq::<Flag>::empty(),
    {
        FlagSelection { chosen: Vec::new() }
    }

    /// Returns the number of flags that are switched on.
    pub fn len(&self) -> (n: usize)
        ensures
            n == self@.len(),
            n <= VOCABULARY_SIZE,
    {
        proof {
            use_type_invariant(self);
            lemma_distinct_flags_fit_vocabulary(self@);
        }
        self.chosen.len()
    }

    /// Returns the flags that are switched on, in the order in which they
    /// were switched on. None occurs twice, and each is a flag of the
    /// vocabulary.
    pub fn flags(&self) -> (v: Vec<Flag>)
        ensures
            v@ == self@,
            v@.no_duplicates(),
            v@.len() <= VOCABULARY_SIZE,
            forall|i: int| 0 <= i < v@.len() ==> vocabulary_spec().contains(#[trigger] v@[i]),
    {
        proof {
            use_type_invariant(self);
            lemma_distinct_flags_fit_vocabulary(self@);
        }
        self.chosen.clone()
    }

    /// Whether `flag` is switched on.
    pub fn contains(&self, flag: Flag) -> (b: bool)
        ensures
            b == self@.contains(flag),
    {
        place_of(&self.chosen, flag).is_some()
    }

    /// Makes a selection of the flags that `names` names, in the order of
    /// the list. The list is gone through from its start, and the first name
    /// that names no flag or repeats an earlier one is reported.
    pub fn from_names(names: &Vec<String>) -> (r: Result<FlagSelection, SelectionError>)
        ensures
            match r {
                Ok(selection) => clean_names(names.deep_view()) && selection@ == flags_named(
                    names.deep_view(),
                ),
                Err(SelectionError::UnknownName { position }) => {
                    &&& position < names.len()
                    &&& clean_names(names.deep_view().take(position as int))
                    &&& !is_flag_name(names.deep_view()[position as int])
                },
                Err(SelectionError::RepeatedName { position }) => {
                    &&& position < names.len()
                    &&& clean_names(names.deep_view().take(position as int))
                    &&& names.deep_view().take(position as int).contains(
                        names.deep_view()[position as int],
                    )
                },
            },
    {
        let ghost all = names.deep_view();
        let mut chosen: Vec<Flag> = Vec::new();
        let mut i: usize = 0;
        while i < names.len()
            invariant
                i <= names.len(),
                all == names.deep_view(),
                all.len() == names.len(),
                clean_names(all.take(i as int)),
                chosen@ == flags_named(all.take(i as int)),
                chosen@.no_duplicates(),
            decreases names.len() - i,
        {
            let ghost before = all.take(i as int);
            assert(all[i as int] == names[i as int]@);
            match Flag::from_name(names[i].as_str()) {
                None => {
                    return Err(SelectionError::UnknownName { position: i });
                },
                Some(flag) => {
                    if let Some(earlier) = place_of(&chosen, flag) {
                        proof {
                            assert(before[earlier as int] == all[earlier as int]);
                            lemma_named_alike(before[earlier as int], all[i as int]);
                        }
                        return Err(SelectionError::RepeatedName { position: i });
                    }
                    chosen.push(flag);
                    proof {
                        let after = all.take(i + 1);
                        assert(after =~= before.push(all[i as int]));
                        assert(chosen@ =~= flags_named(after));
                        assert forall|k: int| 0 <= k < before.len() implies before[k]
                            != all[i as int] by {
                            assert(chosen@[k] == flag_named(before[k]));
                        }
                    }
                },
            }
            i += 1;
        }
        assert(all.take(i as int) =~= all);
        Ok(FlagSelection { chosen })
    }

    /// Presses `flag`: switches it on if it was off, and off if it was on.
    pub fn toggle(&mut self, flag: Flag)
        ensures
            final(self)@ == toggled(old(self)@, flag),
            final(self)@.no_duplicates(),
    {
        proof {
            use_type_invariant(&*self);
            lemma_toggled_distinct(self@, flag);
        }
        let mut chosen = self.chosen.clone();
        match place_of(&self.chosen, flag) {
            Some(at) => {
                chosen.remove(at);
            },
            None => {
                chosen.push(flag);
            },
        }
        self.chosen = chosen;
    }
}

} // verus!
