//! The privilege-set value type: an unordered collection of named
//! privileges with exact set semantics, viewed as a membership vector
//! indexed by `Privilege::idx`.

use vstd::prelude::*;

use crate::errors::PrivError;
use crate::privileges::lemma_idx_range;
use crate::privileges::lemma_priv_at_idx;
use crate::privileges::priv_at;
use crate::privileges::Privilege;
use crate::privileges::BASIC_COUNT;
use crate::privileges::PRIV_COUNT;

verus! {

broadcast use lemma_idx_range;

/// The membership view of a set holding no privilege at all.
pub open spec fn empty_view() -> Seq<bool> {
    Seq::new(PRIV_COUNT as nat, |i: int| false)
}

/// The membership view of the platform's "basic" default set: exactly the
/// privileges whose index lies below `BASIC_COUNT`.
pub open spec fn basic_view() -> Seq<bool> {
    Seq::new(PRIV_COUNT as nat, |i: int| i < BASIC_COUNT as int)
}

/// A set of named privileges. Membership is exact value state: queries
/// reflect every prior mutation, with no installation step in between.
pub struct PrivSet {
    members: Vec<bool>,
}

/// Builds the membership vector of a set holding no privilege.
fn all_false_vec() -> (v: Vec<bool>)
    ensures
        v@ == empty_view(),
{
    let mut v: Vec<bool> = Vec::new();
    let mut i: usize = 0;
    while i < PRIV_COUNT
        invariant
            i <= PRIV_COUNT,
            v@.len() == i as int,
            forall|j: int| 0 <= j < i as int ==> !v@[j],
        decreases PRIV_COUNT - i,
    {
        v.push(false);
        i = i + 1;
    }
    proof {
        assert(v@ =~= empty_view());
    }
    v
}

/// Builds the membership vector of the platform's "basic" default set.
fn basic_vec() -> (v: Vec<bool>)
    ensures
        v@ == basic_view(),
{
    let mut v: Vec<bool> = Vec::new();
    let mut i: usize = 0;
    while i < PRIV_COUNT
        invariant
            i <= PRIV_COUNT,
            v@.len() == i as int,
            forall|j: int| 0 <= j < i as int ==> v@[j] == (j < BASIC_COUNT as int),
        decreases PRIV_COUNT - i,
    {
        v.push(i < BASIC_COUNT);
        i = i + 1;
    }
    proof {
        assert(v@ =~= basic_view());
    }
    v
}

impl PrivSet {
    /// Every well-formed set tracks membership for exactly the privileges
    /// the library models.
    #[verifier::type_invariant]
    spec fn inv(self) -> bool {
        self.members@.len() == PRIV_COUNT as int
    }

    /// Whether the named privilege is in the set.
    pub open spec fn has(self, p: Privilege) -> bool {
        self@[p.idx()]
    }

    /// Allocates a new `PrivSet` holding no privilege.
    pub fn new_empty() -> (r: Result<PrivSet, PrivError>)
        ensures
            r matches Ok(s) && s@ == empty_view(),
    {
        Ok(PrivSet { members: all_false_vec() })
    }

    /// Allocates a new `PrivSet` with "basic" privileges: the privileges
    /// unprivileged processes are accustomed to having.
    pub fn new_basic() -> (r: Result<PrivSet, PrivError>)
        ensures
            r matches Ok(s) && s@ == basic_view(),
    {
        Ok(PrivSet { members: basic_vec() })
    }

    /// Overwrites the set with the "basic" default contents, whatever it
    /// held before.
    pub fn basic(&mut self)
        ensures
            final(self)@ == basic_view(),
    {
        self.members = basic_vec();
    }

    /// Empties the set so that it contains no privilege, whatever it held
    /// before.
    pub fn empty(&mut self)
        ensures
            final(self)@ == empty_view(),
    {
        self.members = all_false_vec();
    }

    /// Adds the named privilege to the set. Every privilege of the closed
    /// enumeration is a recognized name, so the call always succeeds.
    pub fn addset(&mut self, p: Privilege) -> (r: Result<(), PrivError>)
        ensures
            r is Ok,
            final(self)@ == old(self)@.update(p.idx(), true),
    {
        proof {
            use_type_invariant(&*self);
        }
        let i = p.index();
        self.members[i] = true;
        Ok(())
    }

    /// Removes the named privilege from the set. Every privilege of the
    /// closed enumeration is a recognized name, so the call always
    /// succeeds.
    pub fn delset(&mut self, p: Privilege) -> (r: Result<(), PrivError>)
        ensures
            r is Ok,
            final(self)@ == old(self)@.update(p.idx(), false),
    {
        proof {
            use_type_invariant(&*self);
        }
        let i = p.index();
        self.members[i] = false;
        Ok(())
    }

    /// Determines whether the set holds no privilege at all.
    pub fn is_empty(&self) -> (r: bool)
        ensures
            r == (self@ =~= empty_view()),
    {
        proof {
            use_type_invariant(self);
        }
        let mut i: usize = 0;
        while i < PRIV_COUNT
            invariant
                i <= PRIV_COUNT,
                self.members@.len() == PRIV_COUNT as int,
                forall|j: int| 0 <= j < i as int ==> !self@[j],
            decreases PRIV_COUNT - i,
        {
            if self.members[i] {
                return false;
            }
            i = i + 1;
        }
        proof {
            assert(self@ =~= empty_view());
        }
        true
    }

    /// Determines whether the named privilege is a member of the set.
    pub fn is_member(&self, p: Privilege) -> (r: bool)
        ensures
            r == self.has(p),
    {
        proof {
            use_type_invariant(self);
        }
        let i = p.index();
        self.members[i]
    }

    /// Determines whether this set and `dst` hold exactly the same
    /// privileges: value equality, not identity.
    pub fn is_equal(&self, dst: &PrivSet) -> (r: bool)
        ensures
            r == (self@ =~= dst@),
    {
        proof {
            use_type_invariant(self);
            use_type_invariant(dst);
        }
        let mut i: usize = 0;
        while i < PRIV_COUNT
            invariant
                i <= PRIV_COUNT,
                self.members@.len() == PRIV_COUNT as int,
                dst.members@.len() == PRIV_COUNT as int,
                forall|j: int| 0 <= j < i as int ==> self@[j] == dst@[j],
            decreases PRIV_COUNT - i,
        {
            if self.members[i] != dst.members[i] {
                return false;
            }
            i = i + 1;
        }
        proof {
            assert(self@ =~= dst@);
        }
        true
    }

    /// Turns on, in place, every privilege that `other` holds.
    pub(crate) fn union_with(&mut self, other: &PrivSet)
        ensures
            final(self)@ == Seq::new(old(self)@.len(), |i: int| old(self)@[i] || other@[i]),
    {
        proof {
            use_type_invariant(&*self);
            use_type_invariant(other);
        }
        let mut v: Vec<bool> = Vec::new();
        let mut i: usize = 0;
        while i < PRIV_COUNT
            invariant
                i <= PRIV_COUNT,
                self.members@.len() == PRIV_COUNT as int,
                other.members@.len() == PRIV_COUNT as int,
                v@.len() == i as int,
                forall|j: int| 0 <= j < i as int ==> v@[j] == (self@[j] || other@[j]),
            decreases PRIV_COUNT - i,
        {
            v.push(self.members[i] || other.members[i]);
            i = i + 1;
        }
        proof {
            assert(v@ =~= Seq::new(self@.len(), |j: int| self@[j] || other@[j]));
        }
        self.members = v;
    }

    /// Turns off, in place, every privilege that `other` holds.
    pub(crate) fn subtract(&mut self, other: &PrivSet)
        ensures
            final(self)@ == Seq::new(old(self)@.len(), |i: int| old(self)@[i] && !other@[i]),
    {
        proof {
            use_type_invariant(&*self);
            use_type_invariant(other);
        }
        let mut v: Vec<bool> = Vec::new();
        let mut i: usize = 0;
        while i < PRIV_COUNT
            invariant
                i <= PRIV_COUNT,
                self.members@.len() == PRIV_COUNT as int,
                other.members@.len() == PRIV_COUNT as int,
                v@.len() == i as int,
                forall|j: int| 0 <= j < i as int ==> v@[j] == (self@[j] && !other@[j]),
            decreases PRIV_COUNT - i,
        {
            v.push(self.members[i] && !other.members[i]);
            i = i + 1;
        }
        proof {
            assert(v@ =~= Seq::new(self@.len(), |j: int| self@[j] && !other@[j]));
        }
        self.members = v;
    }

    /// An owned set with the same membership.
    pub(crate) fn duplicate(&self) -> (r: PrivSet)
        ensures
            r@ == self@,
            r@.len() == PRIV_COUNT as int,
    {
        proof {
            use_type_invariant(self);
        }
        let mut v: Vec<bool> = Vec::new();
        let mut i: usize = 0;
        while i < PRIV_COUNT
            invariant
                i <= PRIV_COUNT,
                self.members@.len() == PRIV_COUNT as int,
                v@.len() == i as int,
                forall|j: int| 0 <= j < i as int ==> v@[j] == self@[j],
            decreases PRIV_COUNT - i,
        {
            v.push(self.members[i]);
            i = i + 1;
        }
        proof {
            assert(v@ =~= self@);
        }
        PrivSet { members: v }
    }
}

impl View for PrivSet {
    type V = Seq<bool>;

    /// The membership vector: entry `i` says whether the privilege of
    /// index `i` is in the set.
    closed spec fn view(&self) -> Seq<bool> {
        self.members@
    }
}

impl vstd::std_specs::cmp::PartialEqSpecImpl for PrivSet {
    open spec fn obeys_eq_spec() -> bool {
        true
    }

    open spec fn eq_spec(&self, other: &PrivSet) -> bool {
        self@ == other@
    }
}

impl PartialEq for PrivSet {
    /// Value equality: the two sets hold exactly the same privileges.
    fn eq(&self, other: &PrivSet) -> (r: bool) {
        let r = self.is_equal(other);
        proof {
            if self@ =~= other@ {
                assert(self@ == other@);
            }
        }
        r
    }
}

/// A set whose view is the empty view passes the emptiness test and holds
/// no privilege: for a freshly constructed empty set, and equally for any
/// set that was just cleared — whatever it held before — `is_empty` reports
/// true and membership is false for every privilege.
pub proof fn lemma_empty_has_no_privileges(s: PrivSet)
    requires
        s@ == empty_view(),
    ensures
        s@ =~= empty_view(),
        forall|p: Privilege| !(#[trigger] s.has(p)),
{
}

/// A set with the "basic" default contents is not empty, and holds every
/// privilege of the basic set.
pub proof fn lemma_basic_contains_basics(s: PrivSet)
    requires
        s@ == basic_view(),
    ensures
        forall|p: Privilege| p.is_basic() ==> #[trigger] s.has(p),
        !(s@ =~= empty_view()),
{
    assert(s@[0] == true);
    assert(empty_view()[0] == false);
}

/// Round trip: after adding a privilege the set contains it, and removing
/// it again makes membership false.
pub proof fn lemma_add_remove_round_trip(s0: PrivSet, s1: PrivSet, s2: PrivSet, p: Privilege)
    requires
        s0@.len() == PRIV_COUNT as int,
        s1@ == s0@.update(p.idx(), true),
        s2@ == s1@.update(p.idx(), false),
    ensures
        s1.has(p),
        !s2.has(p),
{
}

/// Membership determines equality: two sets that agree on every privilege
/// have equal views, so `is_equal` reports them equal, however each of
/// them was built.
pub proof fn lemma_same_membership_equal(a: PrivSet, b: PrivSet)
    requires
        a@.len() == PRIV_COUNT as int,
        b@.len() == PRIV_COUNT as int,
        forall|p: Privilege| #[trigger] a.has(p) == b.has(p),
    ensures
        a@ =~= b@,
{
    assert forall|i: int| 0 <= i < PRIV_COUNT as int implies a@[i] == b@[i] by {
        lemma_priv_at_idx(i);
        let p = priv_at(i);
        assert(a.has(p) == b.has(p));
    }
}

} // verus!
