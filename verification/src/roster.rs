//! The roster: who is connected, as far as the log has told.

use crate::classifier::RosterAction;
use crate::text::clone_texts;
use vstd::prelude::*;

verus! {

/// No name stands twice.
pub open spec fn distinct(names: Seq<Seq<char>>) -> bool {
    forall|i: int, j: int| 0 <= i < j < names.len() ==> names[i] != names[j]
}

/// A roster after `name` has joined: a name already on it joins to no effect.
pub open spec fn joined(names: Seq<Seq<char>>, name: Seq<char>) -> Seq<Seq<char>> {
    if names.contains(name) {
        names
    } else {
        names.push(name)
    }
}

/// A roster after `name` has left: the last entry takes the place of the one
/// that goes. A name not on it leaves to no effect.
pub open spec fn left(names: Seq<Seq<char>>, name: Seq<char>) -> Seq<Seq<char>> {
    if names.contains(name) {
        names.update(names.index_of(name), names.last()).drop_last()
    } else {
        names
    }
}

/// A roster after one event.
pub open spec fn roster_after(names: Seq<Seq<char>>, name: Seq<char>, action: RosterAction) -> Seq<
    Seq<char>,
> {
    match action {
        RosterAction::Joined => joined(names, name),
        RosterAction::Left => left(names, name),
    }
}

/// Whether an event changes a roster, and is therefore worth a notice.
pub open spec fn takes_effect(names: Seq<Seq<char>>, name: Seq<char>, action: RosterAction) -> bool {
    match action {
        RosterAction::Joined => !names.contains(name),
        RosterAction::Left => names.contains(name),
    }
}

/// The notice that an event is worth: its text, where it takes effect.
pub open spec fn notice_for(
    names: Seq<Seq<char>>,
    name: Seq<char>,
    action: RosterAction,
    text: Seq<char>,
) -> Option<Seq<char>> {
    if takes_effect(names, name, action) {
        Some(text)
    } else {
        None
    }
}

/// Joining twice is joining once.
pub proof fn lemma_join_idempotent(names: Seq<Seq<char>>, name: Seq<char>)
    ensures
        joined(joined(names, name), name) == joined(names, name),
        roster_after(
            roster_after(names, name, RosterAction::Joined),
            name,
            RosterAction::Joined,
        ) == roster_after(names, name, RosterAction::Joined),
        !takes_effect(joined(names, name), name, RosterAction::Joined),
{
    if !names.contains(name) {
        assert(names.push(name)[names.len() as int] == name);
    }
}

/// The leaving of someone who is not there changes nothing.
pub proof fn lemma_leave_absent(names: Seq<Seq<char>>, name: Seq<char>)
    requires
        !names.contains(name),
    ensures
        left(names, name) == names,
        roster_after(names, name, RosterAction::Left) == names,
        !takes_effect(names, name, RosterAction::Left),
{
}

/// No event puts a name on a roster twice, and after the event the name is
/// on the roster exactly if it joined.
pub proof fn lemma_roster_after_distinct(names: Seq<Seq<char>>, name: Seq<char>, action: RosterAction)
    requires
        distinct(names),
    ensures
        distinct(roster_after(names, name, action)),
        roster_after(names, name, action).contains(name) <==> action == RosterAction::Joined,
        forall|other: Seq<char>|
            other != name ==> (#[trigger] roster_after(names, name, action).contains(other)
                <==> names.contains(other)),
{
    let after = roster_after(names, name, action);
    match action {
        RosterAction::Joined => {
            if !names.contains(name) {
                assert(after[names.len() as int] == name);
                assert forall|other: Seq<char>| other != name implies (after.contains(other)
                    <==> names.contains(other)) by {
                    if names.contains(other) {
                        let k = choose|k: int| 0 <= k < names.len() && names[k] == other;
                        assert(after[k] == other);
                    }
                }
            }
        },
        RosterAction::Left => {
            if names.contains(name) {
                let at = names.index_of(name);
                let last = names.len() - 1;
                assert forall|k: int| 0 <= k < after.len() implies after[k] != name by {
                    if k == at {
                        assert(after[k] == names[last]);
                    } else {
                        assert(after[k] == names[k]);
                    }
                }
                assert forall|other: Seq<char>| other != name implies (after.contains(other)
                    <==> names.contains(other)) by {
                    if names.contains(other) {
                        let k = choose|k: int| 0 <= k < names.len() && names[k] == other;
                        if k == last {
                            assert(after[at] == other);
                        } else {
                            assert(after[k] == other);
                        }
                    }
                    if after.contains(other) {
                        let k = choose|k: int| 0 <= k < after.len() && after[k] == other;
                        if k == at {
                            assert(names[last] == other);
                        } else {
                            assert(names[k] == other);
                        }
                    }
                }
            }
        },
    }
}

/// The participants that are connected. No name is held twice.
pub struct Roster {
    names: Vec<String>,
}

impl View for Roster {
    type V = Seq<Seq<char>>;

    /// The names, in the order in which the roster holds them.
    closed spec fn view(&self) -> Seq<Seq<char>> {
        self.names.deep_view()
    }
}

impl Roster {
    /// What holds of every roster: no name stands twice.
    #[verifier::type_invariant]
    pub open spec fn well_formed(self) -> bool {
        distinct(self@)
    }

    /// A roster with nobody on it.
    pub fn new() -> (r: Roster)
        ensures
            r@ == Seq::<Seq<char>>::empty(),
    {
        Roster { names: Vec::new() }
    }

    fn position(&self, name: &str) -> (r: Option<usize>)
        ensures
            distinct(self@),
            match r {
                Some(at) => at < self@.len() && self@[at as int] == name@ && self@.index_of(name@)
                    == at,
                None => !self@.contains(name@),
            },
    {
        proof {
            use_type_invariant(self);
        }
        let wanted = name.to_owned();
        let mut at: usize = 0;
        while at < self.names.len()
            invariant
                at <= self.names.len(),
                wanted@ == name@,
                distinct(self@),
                forall|k: int| 0 <= k < at ==> self.names.deep_view()[k] != name@,
            decreases self.names.len() - at,
        {
            if self.names[at] == wanted {
                assert(self@[at as int] == name@);
                assert(self@.index_of(name@) == at);
                return Some(at);
            }
            at += 1;
        }
        None
    }

    /// Whether `name` is connected.
    pub fn contains(&self, name: &str) -> (r: bool)
        ensures
            r == self@.contains(name@),
    {
        self.position(name).is_some()
    }

    /// How many are connected.
    pub fn len(&self) -> (r: usize)
        ensures
            r == self@.len(),
    {
        self.names.len()
    }

    /// The names of those connected. None stands twice.
    pub fn names(&self) -> (r: Vec<String>)
        ensures
            r.deep_view() == self@,
            distinct(self@),
    {
        proof {
            use_type_invariant(self);
        }
        clone_texts(&self.names)
    }

    /// Takes one event in and returns the notice to show for it: `text`, where
    /// the event changed the roster. A second join of the same name and the
    /// leaving of an absent one change nothing and are passed over in silence.
    pub fn apply(&mut self, name: &str, action: RosterAction, text: &str) -> (notice: Option<String>)
        ensures
            final(self)@ == roster_after(old(self)@, name@, action),
            notice.deep_view() == notice_for(old(self)@, name@, action, text@),
            distinct(final(self)@),
    {
        proof {
            use_type_invariant(&*self);
            lemma_roster_after_distinct(self@, name@, action);
        }
        let found = self.position(name);
        let ghost before = self@;
        let mut names: Vec<String> = Vec::new();
        std::mem::swap(&mut self.names, &mut names);
        let changed = match action {
            RosterAction::Joined => {
                match found {
                    Some(_) => false,
                    None => {
                        let entry = name.to_owned();
                        names.push(entry);
                        assert(names.deep_view() =~= before.push(name@));
                        true
                    },
                }
            },
            RosterAction::Left => {
                match found {
                    Some(at) => {
                        names.swap_remove(at);
                        assert(names.deep_view() =~= before.update(at as int, before.last()).drop_last());
                        true
                    },
                    None => false,
                }
            },
        };
        self.names = names;
        if changed {
            Some(text.to_owned())
        } else {
            None
        }
    }
}

} // verus!
