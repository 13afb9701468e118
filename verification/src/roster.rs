//! Sets of identities that hold a role.

use vstd::prelude::*;
use crate::identity::Identity;

verus! {

/// The identities that hold a role, such as the authorized allocators of a
/// ledger. Its view is the set of its members.
pub struct Roster {
    members: Vec<Identity>,
}

impl View for Roster {
    type V = Set<Identity>;

    closed spec fn view(&self) -> Set<Identity> {
        self.members@.to_set()
    }
}

impl Roster {
    /// The roster without members.
    pub fn new() -> (roster: Roster)
        ensures
            roster@ == Set::<Identity>::empty(),
    {
        let roster = Roster { members: Vec::new() };
        assert(roster@ =~= Set::<Identity>::empty());
        roster
    }

    /// The roster whose members are the entries of `members`; an identity that
    /// occurs several times is a member once.
    pub fn from_members(members: Vec<Identity>) -> (roster: Roster)
        ensures
            roster@ == members@.to_set(),
    {
        Roster { members }
    }

    /// The members, each once, in the order in which they joined.
    pub fn members(&self) -> (list: Vec<Identity>)
        ensures
            list@.to_set() == self@,
            list@.no_duplicates(),
    {
        let mut list: Vec<Identity> = Vec::new();
        let mut i: usize = 0;
        while i < self.members.len()
            invariant
                i <= self.members.len(),
                list@.no_duplicates(),
                forall|k: int| 0 <= k < list@.len() ==> self.members@.contains(#[trigger] list@[k]),
                forall|j: int| 0 <= j < i ==> list@.contains(#[trigger] self.members@[j]),
            decreases self.members.len() - i,
        {
            let who = self.members[i];
            if !contains_identity(&list, &who) {
                let ghost before = list@;
                list.push(who);
                assert(list@[before.len() as int] == who);
                assert forall|j: int| 0 <= j < i + 1 implies list@.contains(
                    #[trigger] self.members@[j],
                ) by {
                    if j < i {
                        let k = choose|k: int| 0 <= k < before.len() && before[k] == self.members@[j];
                        assert(list@[k] == self.members@[j]);
                    }
                }
            }
            i += 1;
        }
        assert(list@.to_set() =~= self@);
        list
    }

    /// Whether `who` is a member.
    pub fn contains(&self, who: &Identity) -> (found: bool)
        ensures
            found == self@.contains(*who),
    {
        contains_identity(&self.members, who)
    }

    /// Makes `who` a member.
    pub fn insert(&mut self, who: Identity)
        ensures
            final(self)@ == old(self)@.insert(who),
    {
        if !contains_identity(&self.members, &who) {
            let ghost before = self.members@;
            self.members.push(who);
            assert(self.members@[before.len() as int] == who);
            assert forall|y: Identity| self.members@.contains(y) <==> (before.contains(y) || y == who) by {
                if before.contains(y) {
                    let k = choose|k: int| 0 <= k < before.len() && before[k] == y;
                    assert(self.members@[k] == y);
                }
            }
        }
        assert(self@ =~= old(self)@.insert(who));
    }

    /// Ends the membership of `who`.
    pub fn remove(&mut self, who: Identity)
        ensures
            final(self)@ == old(self)@.remove(who),
    {
        let mut kept: Vec<Identity> = Vec::new();
        let mut i: usize = 0;
        while i < self.members.len()
            invariant
                i <= self.members.len(),
                self.members@ == old(self).members@,
                forall|k: int|
                    0 <= k < kept@.len() ==> #[trigger] kept@[k] != who && self.members@.contains(
                        kept@[k],
                    ),
                forall|j: int|
                    0 <= j < i && self.members@[j] != who ==> kept@.contains(
                        #[trigger] self.members@[j],
                    ),
            decreases self.members.len() - i,
        {
            let member = self.members[i];
            if member != who {
                let ghost before = kept@;
                kept.push(member);
                assert(kept@[before.len() as int] == member);
                assert forall|j: int|
                    0 <= j < i + 1 && self.members@[j] != who implies kept@.contains(
                    #[trigger] self.members@[j],
                ) by {
                    if j < i {
                        let k = choose|k: int| 0 <= k < before.len() && before[k] == self.members@[j];
                        assert(kept@[k] == self.members@[j]);
                    }
                }
            }
            i += 1;
        }
        self.members = kept;
        assert(self@ =~= old(self)@.remove(who));
    }
}

/// Whether `who` occurs in `list`.
fn contains_identity(list: &Vec<Identity>, who: &Identity) -> (found: bool)
    ensures
        found == list@.contains(*who),
{
    let mut i: usize = 0;
    while i < list.len()
        invariant
            i <= list.len(),
            forall|j: int| 0 <= j < i ==> list@[j] != *who,
        decreases list.len() - i,
    {
        if list[i] == *who {
            return true;
        }
        i += 1;
    }
    false
}

} // verus!
