//! A safe, verified model of a fine-grained process privilege interface.
//!
//! The platform tracks, per process, four categories of named privileges
//! (effective, inheritable, permitted, limit). This library models a
//! privilege set as a value type with exact set semantics, translates the
//! platform's sentinel return conventions into structured results, and
//! models the transition semantics of installing a set into a category.
//! The raw platform calls themselves live outside the library; everything
//! here is ordinary verified code on plain values.

use vstd::prelude::*;

pub mod errors;
pub mod privileges;
pub mod privset;
pub mod process;

pub use errors::ptr_or_err;
pub use errors::ret_or_err;
pub use errors::PrivError;
pub use privileges::Privilege;
pub use privset::PrivSet;
pub use process::ProcessPrivs;

verus! {

/// One of the four kernel-tracked privilege categories of a process.
#[derive(Clone, Copy, Debug)]
pub enum PrivPtype {
    /// The set of privileges currently in effect.
    Effective,
    /// The set of privileges that comes into effect on exec.
    Inheritable,
    /// The set of privileges that can be put into the effective set without
    /// restriction.
    Permitted,
    /// The absolute upper bound of privileges this process and its
    /// off-spring can obtain.
    Limit,
}

impl PrivPtype {
    /// The exact, nul-terminated token for this category, as the platform
    /// expects it.
    pub open spec fn as_str_spec(self) -> Seq<char> {
        match self {
            PrivPtype::Effective => "Effective\0"@,
            PrivPtype::Inheritable => "Inheritable\0"@,
            PrivPtype::Permitted => "Permitted\0"@,
            PrivPtype::Limit => "Limit\0"@,
        }
    }

    /// The nul-terminated name of this category.
    pub fn as_str(&self) -> (r: &'static str)
        ensures
            r@ == self.as_str_spec(),
    {
        match self {
            PrivPtype::Effective => "Effective\0",
            PrivPtype::Inheritable => "Inheritable\0",
            PrivPtype::Permitted => "Permitted\0",
            PrivPtype::Limit => "Limit\0",
        }
    }
}

/// Every category token is nul-terminated and holds no interior nul:
/// exactly the shape the platform's string boundary expects, bit for bit.
pub proof fn lemma_category_token_nul_terminated(t: PrivPtype)
    ensures
        t.as_str_spec().len() >= 1,
        t.as_str_spec().last() == '\0',
        forall|j: int| 0 <= j < t.as_str_spec().len() - 1 ==> #[trigger] t.as_str_spec()[j] != '\0',
{
    reveal_strlit("Effective\0");
    reveal_strlit("Inheritable\0");
    reveal_strlit("Permitted\0");
    reveal_strlit("Limit\0");
}

/// The semantics applied when installing a privilege set into a category:
/// turn the given privileges on, turn them off, or replace the category's
/// contents wholesale.
#[derive(Clone, Copy, Debug)]
pub enum PrivOp {
    /// Turns on the privileges in a `PrivSet`.
    Add,
    /// Turns off the privileges in a `PrivSet`.
    Remove,
    /// Replaces the privileges in a `PrivSet`.
    Replace,
}

impl PrivOp {
    /// The integer code the platform assigns to this operation.
    pub open spec fn code_spec(self) -> int {
        match self {
            PrivOp::Add => 0,
            PrivOp::Remove => 1,
            PrivOp::Replace => 2,
        }
    }

    /// The integer code the platform assigns to this operation.
    pub fn code(&self) -> (c: i32)
        ensures
            c == self.code_spec(),
    {
        match self {
            PrivOp::Add => 0,
            PrivOp::Remove => 1,
            PrivOp::Replace => 2,
        }
    }
}

/// Collapses the platform's tri-state boolean convention to a `bool`:
/// only the value 1 means true, and every other value — including
/// implementation-defined nonzero codes — means false.
pub fn true_or_false(ret: i32) -> (r: bool)
    ensures
        r == (ret == 1),
{
    ret == 1
}

} // verus!
