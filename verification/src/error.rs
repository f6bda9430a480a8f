//! What can go wrong with a pipe, by kind.

use vstd::prelude::*;

verus! {

/// The error number that `nix` reports when a system call fails. Opaque here:
/// the library hands it on and never looks inside.
#[verifier::external_type_specification]
#[verifier::external_body]
pub struct ExErrno(nix::errno::Errno);

/// The error of a failed open, read, write or removal. Opaque here: the
/// library hands it on and never looks inside.
#[verifier::external_type_specification]
#[verifier::external_body]
pub struct ExIoError(std::io::Error);

/// A failure of a pipe operation. Nothing is retried or swallowed: the
/// caller gets the error as the system reported it.
#[derive(Debug)]
pub enum PipeError {
    /// The FIFO could not be created.
    Creation(nix::errno::Errno),
    /// Opening, reading, writing or removing failed.
    Io(std::io::Error),
    /// The bytes read from the pipe are not valid UTF-8 text.
    Decoding,
}

} // verus!
