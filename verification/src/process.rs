//! A model of the process-wide privilege state the kernel tracks: one
//! privilege set per category, and the transition semantics of installing
//! a set into a category under a given operation.

use vstd::prelude::*;

use crate::errors::PrivError;
use crate::privset::PrivSet;
use crate::PrivOp;
use crate::PrivPtype;

verus! {

/// The membership view a category holds after installing `src` into a
/// category holding `cur`, under the given operation: turning privileges
/// on adds them, turning them off removes them, replacing discards the
/// prior contents wholesale.
pub open spec fn apply_op(op: PrivOp, cur: Seq<bool>, src: Seq<bool>) -> Seq<bool> {
    Seq::new(
        cur.len(),
        |i: int| match op {
            PrivOp::Add => cur[i] || src[i],
            PrivOp::Remove => cur[i] && !src[i],
            PrivOp::Replace => src[i],
        },
    )
}

/// The four kernel-tracked privilege sets of one process. This value models
/// the process-wide state that the platform's install and fetch operations
/// exchange sets with.
pub struct ProcessPrivs {
    effective: PrivSet,
    inheritable: PrivSet,
    permitted: PrivSet,
    limit: PrivSet,
}

impl ProcessPrivs {
    /// The membership view of the given category.
    pub closed spec fn cat(self, ptype: PrivPtype) -> Seq<bool> {
        match ptype {
            PrivPtype::Effective => self.effective@,
            PrivPtype::Inheritable => self.inheritable@,
            PrivPtype::Permitted => self.permitted@,
            PrivPtype::Limit => self.limit@,
        }
    }

    /// A process state holding the four given category sets.
    pub fn new(
        effective: PrivSet,
        inheritable: PrivSet,
        permitted: PrivSet,
        limit: PrivSet,
    ) -> (r: ProcessPrivs)
        ensures
            r.cat(PrivPtype::Effective) == effective@,
            r.cat(PrivPtype::Inheritable) == inheritable@,
            r.cat(PrivPtype::Permitted) == permitted@,
            r.cat(PrivPtype::Limit) == limit@,
    {
        ProcessPrivs { effective, inheritable, permitted, limit }
    }

    /// Fetches the process privilege set of the given category into a
    /// freshly owned value.
    pub fn getppriv(&self, ptype: PrivPtype) -> (r: Result<PrivSet, PrivError>)
        ensures
            r matches Ok(s) && s@ == self.cat(ptype),
    {
        let s = match ptype {
            PrivPtype::Effective => self.effective.duplicate(),
            PrivPtype::Inheritable => self.inheritable.duplicate(),
            PrivPtype::Permitted => self.permitted.duplicate(),
            PrivPtype::Limit => self.limit.duplicate(),
        };
        Ok(s)
    }

    /// Installs `sp` into the given category under the given operation.
    /// The chosen category takes the contents `apply_op` describes; every
    /// other category is untouched.
    pub fn setppriv(&mut self, op: PrivOp, ptype: PrivPtype, sp: &PrivSet) -> (r: Result<
        (),
        PrivError,
    >)
        ensures
            r is Ok,
            final(self).cat(ptype) == apply_op(op, old(self).cat(ptype), sp@),
            forall|t: PrivPtype|
                t != ptype ==> #[trigger] final(self).cat(t) == old(self).cat(t),
    {
        match ptype {
            PrivPtype::Effective => {
                self.effective = apply(op, &self.effective, sp);
            },
            PrivPtype::Inheritable => {
                self.inheritable = apply(op, &self.inheritable, sp);
            },
            PrivPtype::Permitted => {
                self.permitted = apply(op, &self.permitted, sp);
            },
            PrivPtype::Limit => {
                self.limit = apply(op, &self.limit, sp);
            },
        }
        Ok(())
    }
}

/// Computes the set a category holds after an install, as `apply_op`
/// describes it.
fn apply(op: PrivOp, cur: &PrivSet, src: &PrivSet) -> (r: PrivSet)
    ensures
        r@ == apply_op(op, cur@, src@),
{
    let mut out = cur.duplicate();
    match op {
        PrivOp::Add => {
            out.union_with(src);
        },
        PrivOp::Remove => {
            out.subtract(src);
        },
        PrivOp::Replace => {
            out = src.duplicate();
        },
    }
    proof {
        assert(out@ =~= apply_op(op, cur@, src@));
    }
    out
}

/// Fetching a category and immediately installing the fetched value back
/// under the replace operation leaves the category exactly as it was: the
/// round trip through the process state changes nothing.
pub proof fn lemma_fetch_install_round_trip(
    pre: ProcessPrivs,
    post: ProcessPrivs,
    fetched: PrivSet,
    ptype: PrivPtype,
)
    requires
        fetched@ == pre.cat(ptype),
        post.cat(ptype) == apply_op(PrivOp::Replace, pre.cat(ptype), fetched@),
    ensures
        post.cat(ptype) == pre.cat(ptype),
        post.cat(ptype) == fetched@,
{
    assert(post.cat(ptype) =~= pre.cat(ptype));
}

} // verus!
