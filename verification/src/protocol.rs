//! The rules of the pipe lifecycle, as mathematics.
//!
//! Each operation on a pipe has two halves. The plan says what to ask of the
//! filesystem, given what was observed of it. The result says what the
//! operation answers, given what the filesystem said to the request. The
//! executable functions of this crate are specified by the functions here.

use vstd::prelude::*;
use vstd::utf8::*;
use nix::errno::Errno;
use crate::error::PipeError;
use crate::mode::DEFAULT_FIFO_MODE;
use crate::request::{FifoSpec, OpenPolicy, WriteSpec};
use crate::text::text_of;

verus! {

/// An optional value seen through its view.
pub open spec fn view_some<T: View>(value: Option<T>) -> Option<T::V> {
    match value {
        Some(v) => Some(v@),
        None => None,
    }
}

/// A result seen through the view of its success value.
pub open spec fn view_ok<T: View, E>(value: Result<T, E>) -> Result<T::V, E> {
    match value {
        Ok(v) => Ok(v@),
        Err(e) => Err(e),
    }
}

/// What making sure that `path` exists asks of the filesystem: nothing where
/// an entry is present, whatever its kind, and else a FIFO with the default
/// mode.
pub open spec fn ensure_plan(path: Seq<char>, present: bool) -> Option<FifoSpec> {
    if present {
        None
    } else {
        Some(FifoSpec { path, mode: DEFAULT_FIFO_MODE })
    }
}

/// What deleting `path` asks of the filesystem: nothing where no entry is
/// present, and else the removal of the entry.
pub open spec fn delete_plan(path: Seq<char>, present: bool) -> Option<Seq<char>> {
    if present {
        Some(path)
    } else {
        None
    }
}

/// What writing `data` to `path` asks of the filesystem: open what is there
/// without creating anything, and write exactly `data`.
pub open spec fn write_plan(path: Seq<char>, data: Seq<u8>) -> WriteSpec {
    WriteSpec { path, policy: OpenPolicy::existing_only(), data }
}

/// What writing `text` to `path` asks of the filesystem: the write of its
/// UTF-8 encoding.
pub open spec fn write_text_plan(path: Seq<char>, text: Seq<char>) -> WriteSpec {
    write_plan(path, encode_utf8(text))
}

/// The answer of an operation that may have asked for a FIFO. `outcome` is
/// `None` where nothing was asked, and else what the system said. Nothing
/// asked is success; a refusal is a creation error.
pub open spec fn creation_result(outcome: Option<Result<(), Errno>>) -> Result<(), PipeError> {
    match outcome {
        None => Ok(()),
        Some(Ok(_)) => Ok(()),
        Some(Err(e)) => Err(PipeError::Creation(e)),
    }
}

/// The answer of an operation that may have asked for a removal. `outcome`
/// is `None` where nothing was asked, and else what the system said. Nothing
/// asked is success; a refusal is an I/O error.
pub open spec fn removal_result(outcome: Option<Result<(), std::io::Error>>) -> Result<
    (),
    PipeError,
> {
    match outcome {
        None => Ok(()),
        Some(Ok(_)) => Ok(()),
        Some(Err(e)) => Err(PipeError::Io(e)),
    }
}

/// The answer of a write, given what the system said to it.
pub open spec fn write_result(outcome: Result<(), std::io::Error>) -> Result<(), PipeError> {
    match outcome {
        Ok(_) => Ok(()),
        Err(e) => Err(PipeError::Io(e)),
    }
}

/// The answer of a read of bytes, given what reading to the end of the
/// stream gave: the same bytes, or the same failure as an I/O error.
pub open spec fn read_result(outcome: Result<Seq<u8>, std::io::Error>) -> Result<
    Seq<u8>,
    PipeError,
> {
    match outcome {
        Ok(bytes) => Ok(bytes),
        Err(e) => Err(PipeError::Io(e)),
    }
}

/// The answer of a read of text, given what reading to the end of the stream
/// gave: the text that the bytes spell, a decoding error where they spell
/// none, or the same failure as an I/O error.
pub open spec fn text_result(outcome: Result<Seq<u8>, std::io::Error>) -> Result<
    Seq<char>,
    PipeError,
> {
    match outcome {
        Ok(bytes) => match text_of(bytes) {
            Some(text) => Ok(text),
            None => Err(PipeError::Decoding),
        },
        Err(e) => Err(PipeError::Io(e)),
    }
}

} // verus!
