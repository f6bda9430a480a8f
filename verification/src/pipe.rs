//! The pipe handle and the two views derived from it.
//!
//! A `Pipe` names where a FIFO lives. It does not claim that the FIFO is
//! there: whether an entry exists is a fact of the filesystem, observed by
//! the caller when it is needed and never cached. A `Reader` and a `Writer`
//! each own a copy of the path, so they stay valid when the handle they came
//! from is gone.

use vstd::prelude::*;
use nix::errno::Errno;
use crate::error::PipeError;
use crate::mode::{Permissions, DEFAULT_FIFO_MODE};
use crate::protocol::{
    creation_result, delete_plan, ensure_plan, read_result, removal_result, text_result, view_ok,
    view_some, write_plan, write_result, write_text_plan,
};
use crate::request::{CreateFifo, OpenPolicy, Remove, WriteAll};
use crate::text::{decode, encode};

verus! {

/// The request to make a FIFO at `path`, with `mode` or, where none is
/// given, the default `rw-rw----`.
pub fn create_pipe(path: &str, mode: Option<Permissions>) -> (request: CreateFifo)
    ensures
        request@.path == path@,
        request@.mode == (match mode {
            Some(m) => m@,
            None => DEFAULT_FIFO_MODE,
        }),
{
    let mode = match mode {
        Some(m) => m,
        None => Permissions::fifo_default(),
    };
    CreateFifo { path: path.to_owned(), mode }
}

/// The path of a Unix named pipe.
#[derive(Debug)]
pub struct Pipe {
    inner: String,
}

impl View for Pipe {
    type V = Seq<char>;

    closed spec fn view(&self) -> Seq<char> {
        self.inner@
    }
}

impl Clone for Pipe {
    fn clone(&self) -> (copy: Pipe)
        ensures
            copy@ == self@,
    {
        Pipe { inner: self.inner.clone() }
    }
}

impl Pipe {
    /// A handle for the pipe at `path`. Touches nothing on disk.
    pub fn new(path: &str) -> (pipe: Pipe)
        ensures
            pipe@ == path@,
    {
        Pipe { inner: path.to_owned() }
    }

    /// The path this handle names.
    pub fn path(&self) -> (path: &str)
        ensures
            path@ == self@,
    {
        self.inner.as_str()
    }

    /// Decides how to make sure the pipe exists. `present` says whether the
    /// caller found an entry at the path. Where one is there, nothing is to
    /// be done, FIFO or not; where none is, the answer is the request to
    /// create the FIFO with the default mode.
    pub fn ensure_exists(&self, present: bool) -> (step: Option<CreateFifo>)
        ensures
            view_some(step) == ensure_plan(self@, present),
    {
        if !present {
            Some(create_pipe(self.inner.as_str(), None))
        } else {
            None
        }
    }

    /// Decides how to delete the pipe, and uses the handle up. `present`
    /// says whether the caller found an entry at the path. Where none is
    /// there, nothing is to be done; where one is, the answer is the request
    /// to remove it.
    pub fn delete(self, present: bool) -> (step: Option<Remove>)
        ensures
            view_some(step) == delete_plan(self@, present),
    {
        if present {
            Some(Remove { path: self.inner })
        } else {
            None
        }
    }

    /// A reader for this pipe, with its own copy of the path.
    pub fn reader(&self) -> (reader: Reader)
        ensures
            reader@ == self@,
    {
        Reader::from_path(self)
    }

    /// A writer for this pipe, with its own copy of the path.
    pub fn writer(&self) -> (writer: Writer)
        ensures
            writer@ == self@,
    {
        Writer::from_path(self)
    }
}

/// The reading side of a named pipe. It holds no state but the path: every
/// read opens the pipe anew and runs to the end of the stream.
#[derive(Debug)]
pub struct Reader {
    path: Pipe,
}

impl View for Reader {
    type V = Seq<char>;

    closed spec fn view(&self) -> Seq<char> {
        self.path@
    }
}

impl Reader {
    /// A reader for the pipe that `source` names.
    pub fn from_path(source: &Pipe) -> (reader: Reader)
        ensures
            reader@ == source@,
    {
        Reader { path: source.clone() }
    }

    /// The path this reader opens.
    pub fn path(&self) -> (path: &str)
        ensures
            path@ == self@,
    {
        self.path.path()
    }

    /// The guard before a read: decides, as `Pipe::ensure_exists` does,
    /// whether the FIFO has to be created first.
    pub fn pipe_exists(&self, present: bool) -> (step: Option<CreateFifo>)
        ensures
            view_some(step) == ensure_plan(self@, present),
    {
        self.path.ensure_exists(present)
    }

    /// Completes a read of raw bytes. `outcome` is what opening the path and
    /// reading to the end of the stream gave. The bytes come back as they
    /// were read, and a failure comes back as the I/O error it was.
    pub fn read(&self, outcome: Result<Vec<u8>, std::io::Error>) -> (bytes: Result<
        Vec<u8>,
        PipeError,
    >)
        ensures
            view_ok(bytes) == read_result(view_ok(outcome)),
    {
        match outcome {
            Ok(read) => Ok(read),
            Err(e) => Err(PipeError::Io(e)),
        }
    }

    /// Completes a read of text. `outcome` is what opening the path and
    /// reading to the end of the stream gave. Bytes that are valid UTF-8
    /// come back as the text they spell; bytes that are not are refused with
    /// `PipeError::Decoding`; a failure comes back as the I/O error it was.
    pub fn string(&self, outcome: Result<Vec<u8>, std::io::Error>) -> (text: Result<
        String,
        PipeError,
    >)
        ensures
            view_ok(text) == text_result(view_ok(outcome)),
    {
        match outcome {
            Ok(read) => match decode(read) {
                Some(s) => Ok(s),
                None => Err(PipeError::Decoding),
            },
            Err(e) => Err(PipeError::Io(e)),
        }
    }
}

/// The writing side of a named pipe. It holds no state but the path: every
/// write opens the pipe anew, writes all its bytes and closes.
#[derive(Debug)]
pub struct Writer {
    path: Pipe,
}

impl View for Writer {
    type V = Seq<char>;

    closed spec fn view(&self) -> Seq<char> {
        self.path@
    }
}

impl Writer {
    /// A writer for the pipe that `source` names.
    pub fn from_path(source: &Pipe) -> (writer: Writer)
        ensures
            writer@ == source@,
    {
        Writer { path: source.clone() }
    }

    /// The path this writer opens.
    pub fn path(&self) -> (path: &str)
        ensures
            path@ == self@,
    {
        self.path.path()
    }

    /// The guard before a write: decides, as `Pipe::ensure_exists` does,
    /// whether the FIFO has to be created first.
    pub fn pipe_exists(&self, present: bool) -> (step: Option<CreateFifo>)
        ensures
            view_some(step) == ensure_plan(self@, present),
    {
        self.path.ensure_exists(present)
    }

    /// The request that writes `data` to the pipe: the very bytes given, to
    /// the path of this writer, opened without creating anything.
    pub fn write<'a>(&'a self, data: &'a [u8]) -> (request: WriteAll<'a>)
        ensures
            request@ == write_plan(self@, data@),
    {
        WriteAll { path: self.path.path(), policy: OpenPolicy::for_writing(), data }
    }

    /// The request that writes `data` to the pipe as text: its UTF-8 bytes,
    /// to the path of this writer, opened without creating anything.
    pub fn write_str<'a>(&'a self, data: &'a str) -> (request: WriteAll<'a>)
        ensures
            request@ == write_text_plan(self@, data@),
    {
        WriteAll { path: self.path.path(), policy: OpenPolicy::for_writing(), data: encode(data) }
    }
}

/// Completes an operation that may have asked for a FIFO: `Pipe::ensure_exists`
/// or a `pipe_exists` guard. `outcome` is `None` where the operation asked for
/// nothing, and else what the system said to the request.
pub fn created(outcome: Option<Result<(), Errno>>) -> (result: Result<(), PipeError>)
    ensures
        result == creation_result(outcome),
{
    match outcome {
        None => Ok(()),
        Some(Ok(_)) => Ok(()),
        Some(Err(e)) => Err(PipeError::Creation(e)),
    }
}

/// Completes `Pipe::delete`. `outcome` is `None` where the operation asked
/// for nothing, and else what the system said to the request.
pub fn removed(outcome: Option<Result<(), std::io::Error>>) -> (result: Result<(), PipeError>)
    ensures
        result == removal_result(outcome),
{
    match outcome {
        None => Ok(()),
        Some(Ok(_)) => Ok(()),
        Some(Err(e)) => Err(PipeError::Io(e)),
    }
}

/// Completes a write. `outcome` is what the system said to the request.
pub fn written(outcome: Result<(), std::io::Error>) -> (result: Result<(), PipeError>)
    ensures
        result == write_result(outcome),
{
    match outcome {
        Ok(_) => Ok(()),
        Err(e) => Err(PipeError::Io(e)),
    }
}

} // verus!
