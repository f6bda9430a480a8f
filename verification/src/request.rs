//! The requests that the library hands to its caller: each names one thing
//! to do to the filesystem, with everything the system call needs.

use vstd::prelude::*;
use crate::mode::Permissions;

verus! {

/// How a path is opened for writing.
#[derive(Clone, Copy, Debug, PartialEq, Eq, Structural)]
pub struct OpenPolicy {
    /// Open with write access.
    pub write: bool,
    /// Create a regular file where the path names nothing.
    pub create: bool,
    /// Cut an existing file down to length zero.
    pub truncate: bool,
}

impl OpenPolicy {
    /// The one policy writers use: open what is there, and fail where nothing
    /// is. A writer never leaves a regular file behind in place of a FIFO
    /// that was removed.
    pub open spec fn existing_only() -> OpenPolicy {
        OpenPolicy { write: true, create: false, truncate: false }
    }

    /// The policy `existing_only`, as a value.
    pub fn for_writing() -> (policy: OpenPolicy)
        ensures
            policy == OpenPolicy::existing_only(),
    {
        OpenPolicy { write: true, create: false, truncate: false }
    }
}

/// The mathematical view of a creation request: the path and mode of the
/// FIFO to make.
pub struct FifoSpec {
    pub path: Seq<char>,
    pub mode: u32,
}

/// Make a FIFO special file at `path` with the permissions `mode`.
#[derive(Debug, PartialEq, Eq)]
pub struct CreateFifo {
    pub path: String,
    pub mode: Permissions,
}

impl View for CreateFifo {
    type V = FifoSpec;

    open spec fn view(&self) -> FifoSpec {
        FifoSpec { path: self.path@, mode: self.mode@ }
    }
}

/// Remove the filesystem entry at `path`.
#[derive(Debug, PartialEq, Eq)]
pub struct Remove {
    pub path: String,
}

impl View for Remove {
    type V = Seq<char>;

    open spec fn view(&self) -> Seq<char> {
        self.path@
    }
}

/// The mathematical view of a write request.
pub struct WriteSpec {
    pub path: Seq<char>,
    pub policy: OpenPolicy,
    pub data: Seq<u8>,
}

/// Open `path` as `policy` says, write all of `data`, and close.
#[derive(Clone, Copy, Debug, PartialEq, Eq)]
pub struct WriteAll<'a> {
    pub path: &'a str,
    pub policy: OpenPolicy,
    pub data: &'a [u8],
}

impl<'a> View for WriteAll<'a> {
    type V = WriteSpec;

    open spec fn view(&self) -> WriteSpec {
        WriteSpec { path: self.path@, policy: self.policy, data: self.data@ }
    }
}

} // verus!
