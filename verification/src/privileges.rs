//! The closed enumeration of named privileges this library knows about,
//! together with their fixed, nul-terminated wire-format names and their
//! positions in the library's membership model.

use vstd::prelude::*;

verus! {

/// How many named privileges the library models. Each privilege owns one
/// index below this bound in a set's membership view.
pub const PRIV_COUNT: usize = 16;

/// How many of the modeled privileges belong to the platform's "basic"
/// default set. The basic privileges occupy the low indices, so a privilege
/// is basic exactly when its index is below this bound.
pub const BASIC_COUNT: usize = 8;

/// A named, fine-grained capability a process may or may not hold. Values
/// are plain data: a privilege has no lifecycle of its own. Each variant
/// maps to one fixed wire-format token recognized by the platform.
#[derive(Clone, Copy, Debug)]
pub enum Privilege {
    /// Link to and unlink from files owned by others.
    FileLinkAny,
    /// Read files and directories the file mode bits allow.
    FileRead,
    /// Write files and directories the file mode bits allow.
    FileWrite,
    /// Open network endpoints.
    NetAccess,
    /// Execute files the file mode bits allow.
    ProcExec,
    /// Create child processes.
    ProcFork,
    /// Examine the status of other processes.
    ProcInfo,
    /// Create and manage session objects.
    ProcSession,
    /// Change ownership of files.
    FileChown,
    /// Read files regardless of the file mode bits.
    FileDacRead,
    /// Write files regardless of the file mode bits.
    FileDacWrite,
    /// Set the set-id bits on files.
    FileSetid,
    /// Bind to privileged network ports.
    NetPrivaddr,
    /// Act as the owner of other processes.
    ProcOwner,
    /// Change the process's user and group ids.
    ProcSetid,
    /// Manage task identifiers.
    ProcTaskid,
}

impl Privilege {
    /// The index this privilege occupies in a set's membership view.
    pub open spec fn idx(self) -> int {
        match self {
            Privilege::FileLinkAny => 0,
            Privilege::FileRead => 1,
            Privilege::FileWrite => 2,
            Privilege::NetAccess => 3,
            Privilege::ProcExec => 4,
            Privilege::ProcFork => 5,
            Privilege::ProcInfo => 6,
            Privilege::ProcSession => 7,
            Privilege::FileChown => 8,
            Privilege::FileDacRead => 9,
            Privilege::FileDacWrite => 10,
            Privilege::FileSetid => 11,
            Privilege::NetPrivaddr => 12,
            Privilege::ProcOwner => 13,
            Privilege::ProcSetid => 14,
            Privilege::ProcTaskid => 15,
        }
    }

    /// Whether this privilege belongs to the platform's "basic" default set.
    pub open spec fn is_basic(self) -> bool {
        self.idx() < BASIC_COUNT
    }

    /// The index this privilege occupies in a set's membership view.
    pub fn index(&self) -> (i: usize)
        ensures
            i == self.idx(),
    {
        match self {
            Privilege::FileLinkAny => 0,
            Privilege::FileRead => 1,
            Privilege::FileWrite => 2,
            Privilege::NetAccess => 3,
            Privilege::ProcExec => 4,
            Privilege::ProcFork => 5,
            Privilege::ProcInfo => 6,
            Privilege::ProcSession => 7,
            Privilege::FileChown => 8,
            Privilege::FileDacRead => 9,
            Privilege::FileDacWrite => 10,
            Privilege::FileSetid => 11,
            Privilege::NetPrivaddr => 12,
            Privilege::ProcOwner => 13,
            Privilege::ProcSetid => 14,
            Privilege::ProcTaskid => 15,
        }
    }

    /// The exact, nul-terminated wire-format token for this privilege, as
    /// the platform expects it.
    pub open spec fn wire_name_spec(self) -> Seq<char> {
        match self {
            Privilege::FileLinkAny => "file_link_any\0"@,
            Privilege::FileRead => "file_read\0"@,
            Privilege::FileWrite => "file_write\0"@,
            Privilege::NetAccess => "net_access\0"@,
            Privilege::ProcExec => "proc_exec\0"@,
            Privilege::ProcFork => "proc_fork\0"@,
            Privilege::ProcInfo => "proc_info\0"@,
            Privilege::ProcSession => "proc_session\0"@,
            Privilege::FileChown => "file_chown\0"@,
            Privilege::FileDacRead => "file_dac_read\0"@,
            Privilege::FileDacWrite => "file_dac_write\0"@,
            Privilege::FileSetid => "file_setid\0"@,
            Privilege::NetPrivaddr => "net_privaddr\0"@,
            Privilege::ProcOwner => "proc_owner\0"@,
            Privilege::ProcSetid => "proc_setid\0"@,
            Privilege::ProcTaskid => "proc_taskid\0"@,
        }
    }

    /// The nul-terminated wire-format name of this privilege.
    pub fn wire_name(&self) -> (r: &'static str)
        ensures
            r@ == self.wire_name_spec(),
    {
        match self {
            Privilege::FileLinkAny => "file_link_any\0",
            Privilege::FileRead => "file_read\0",
            Privilege::FileWrite => "file_write\0",
            Privilege::NetAccess => "net_access\0",
            Privilege::ProcExec => "proc_exec\0",
            Privilege::ProcFork => "proc_fork\0",
            Privilege::ProcInfo => "proc_info\0",
            Privilege::ProcSession => "proc_session\0",
            Privilege::FileChown => "file_chown\0",
            Privilege::FileDacRead => "file_dac_read\0",
            Privilege::FileDacWrite => "file_dac_write\0",
            Privilege::FileSetid => "file_setid\0",
            Privilege::NetPrivaddr => "net_privaddr\0",
            Privilege::ProcOwner => "proc_owner\0",
            Privilege::ProcSetid => "proc_setid\0",
            Privilege::ProcTaskid => "proc_taskid\0",
        }
    }
}

/// Every privilege's wire-format token is nul-terminated and holds no
/// interior nul: exactly the shape the platform's string boundary expects,
/// bit for bit.
pub proof fn lemma_wire_name_nul_terminated(p: Privilege)
    ensures
        p.wire_name_spec().len() >= 1,
        p.wire_name_spec().last() == '\0',
        forall|j: int|
            0 <= j < p.wire_name_spec().len() - 1 ==> #[trigger] p.wire_name_spec()[j] != '\0',
{
    reveal_strlit("file_link_any\0");
    reveal_strlit("file_read\0");
    reveal_strlit("file_write\0");
    reveal_strlit("net_access\0");
    reveal_strlit("proc_exec\0");
    reveal_strlit("proc_fork\0");
    reveal_strlit("proc_info\0");
    reveal_strlit("proc_session\0");
    reveal_strlit("file_chown\0");
    reveal_strlit("file_dac_read\0");
    reveal_strlit("file_dac_write\0");
    reveal_strlit("file_setid\0");
    reveal_strlit("net_privaddr\0");
    reveal_strlit("proc_owner\0");
    reveal_strlit("proc_setid\0");
    reveal_strlit("proc_taskid\0");
}

/// Every privilege's index lies below `PRIV_COUNT`.
pub broadcast proof fn lemma_idx_range(p: Privilege)
    ensures
        0 <= #[trigger] p.idx() < PRIV_COUNT as int,
{
}

/// The privilege occupying a given index of the membership view: the
/// inverse of `Privilege::idx`.
pub open spec fn priv_at(i: int) -> Privilege {
    if i == 0 {
        Privilege::FileLinkAny
    } else if i == 1 {
        Privilege::FileRead
    } else if i == 2 {
        Privilege::FileWrite
    } else if i == 3 {
        Privilege::NetAccess
    } else if i == 4 {
        Privilege::ProcExec
    } else if i == 5 {
        Privilege::ProcFork
    } else if i == 6 {
        Privilege::ProcInfo
    } else if i == 7 {
        Privilege::ProcSession
    } else if i == 8 {
        Privilege::FileChown
    } else if i == 9 {
        Privilege::FileDacRead
    } else if i == 10 {
        Privilege::FileDacWrite
    } else if i == 11 {
        Privilege::FileSetid
    } else if i == 12 {
        Privilege::NetPrivaddr
    } else if i == 13 {
        Privilege::ProcOwner
    } else if i == 14 {
        Privilege::ProcSetid
    } else {
        Privilege::ProcTaskid
    }
}

/// `priv_at` inverts `Privilege::idx` on every index of the membership view.
pub proof fn lemma_priv_at_idx(i: int)
    requires
        0 <= i < PRIV_COUNT as int,
    ensures
        priv_at(i).idx() == i,
{
}

} // verus!
