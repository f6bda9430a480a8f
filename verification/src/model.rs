//! A model of the filesystem, and what the lifecycle does to it.
//!
//! The library never touches the disk, so what its operations achieve can
//! only be stated against a model of the world they are run in. The model
//! here is the least one that the lifecycle needs: which paths have an
//! entry, and whether that entry is a FIFO. A creation that the system
//! grants adds a FIFO at the path asked for; a removal that it grants takes
//! the entry away; a request that it refuses changes nothing. The laws below
//! hold of every filesystem that behaves so.

use vstd::prelude::*;
use vstd::utf8::*;
use nix::errno::Errno;
use crate::error::PipeError;
use crate::protocol::{
    creation_result, delete_plan, ensure_plan, read_result, removal_result, text_result,
    write_plan, write_text_plan,
};
use crate::request::FifoSpec;
use crate::text::lemma_text_round_trip;

verus! {

/// The kind of a filesystem entry, as far as a pipe cares.
pub enum EntryKind {
    /// A FIFO special file.
    Fifo,
    /// Anything else: a regular file, a directory, a link.
    Other,
}

/// The entries of a filesystem, by path.
pub struct Filesystem {
    pub entries: Map<Seq<char>, EntryKind>,
}

impl Filesystem {
    /// Whether anything exists at `path`.
    pub open spec fn present(self, path: Seq<char>) -> bool {
        self.entries.dom().contains(path)
    }

    /// Whether a FIFO exists at `path`.
    pub open spec fn has_fifo(self, path: Seq<char>) -> bool {
        self.present(path) && self.entries[path] == EntryKind::Fifo
    }

    /// This filesystem after a creation request was granted.
    pub open spec fn with_fifo(self, request: FifoSpec) -> Filesystem {
        Filesystem { entries: self.entries.insert(request.path, EntryKind::Fifo) }
    }

    /// This filesystem after the removal of `path` was granted.
    pub open spec fn without(self, path: Seq<char>) -> Filesystem {
        Filesystem { entries: self.entries.remove(path) }
    }

    /// Making sure that `path` exists, run on this filesystem: the
    /// filesystem afterwards, and the answer of the operation. `answer` is
    /// what the system says to the creation request, should one be made.
    pub open spec fn ensure_exists(self, path: Seq<char>, answer: Result<(), Errno>) -> (
        Filesystem,
        Result<(), PipeError>,
    ) {
        match ensure_plan(path, self.present(path)) {
            None => (self, creation_result(None)),
            Some(request) => (
                if answer is Ok {
                    self.with_fifo(request)
                } else {
                    self
                },
                creation_result(Some(answer)),
            ),
        }
    }

    /// Deleting `path`, run on this filesystem: the filesystem afterwards,
    /// and the answer of the operation. `answer` is what the system says to
    /// the removal request, should one be made.
    pub open spec fn delete(self, path: Seq<char>, answer: Result<(), std::io::Error>) -> (
        Filesystem,
        Result<(), PipeError>,
    ) {
        match delete_plan(path, self.present(path)) {
            None => (self, removal_result(None)),
            Some(target) => (
                if answer is Ok {
                    self.without(target)
                } else {
                    self
                },
                removal_result(Some(answer)),
            ),
        }
    }
}

/// Making sure that a pipe exists succeeds whenever an entry is already
/// there, whatever the system would have said to a creation request, and
/// leaves the filesystem as it was.
pub proof fn lemma_ensure_present_is_noop(fs: Filesystem, path: Seq<char>, answer: Result<(), Errno>)
    requires
        fs.present(path),
    ensures
        fs.ensure_exists(path, answer) == (fs, Ok::<(), PipeError>(())),
{
}

/// Making sure that a pipe exists is idempotent. Once a first call has
/// succeeded, a second call on the same path succeeds too, whatever the
/// system would say to a creation request, and changes nothing: the entry
/// keeps its kind. Where the first call found nothing, that kind is FIFO.
pub proof fn lemma_ensure_twice(
    fs: Filesystem,
    path: Seq<char>,
    first: Result<(), Errno>,
    second: Result<(), Errno>,
)
    requires
        fs.ensure_exists(path, first).1 is Ok,
    ensures
        ({
            let once = fs.ensure_exists(path, first).0;
            let twice = once.ensure_exists(path, second);
            &&& once.present(path)
            &&& twice.1 is Ok
            &&& twice.0 == once
            &&& fs.present(path) ==> once.entries[path] == fs.entries[path]
            &&& !fs.present(path) ==> once.has_fifo(path)
        }),
{
}

/// Deleting a path that has no entry succeeds, whatever the system would
/// have said to a removal request, and leaves the filesystem as it was.
pub proof fn lemma_delete_absent_is_noop(
    fs: Filesystem,
    path: Seq<char>,
    answer: Result<(), std::io::Error>,
)
    requires
        !fs.present(path),
    ensures
        fs.delete(path, answer) == (fs, Ok::<(), PipeError>(())),
{
}

/// After a delete that succeeded, nothing exists at the path.
pub proof fn lemma_delete_removes(
    fs: Filesystem,
    path: Seq<char>,
    answer: Result<(), std::io::Error>,
)
    requires
        fs.delete(path, answer).1 is Ok,
    ensures
        !fs.delete(path, answer).0.present(path),
{
}

/// What is missing gets created. On a path with no entry, making sure
/// that the pipe exists asks for a FIFO; once the system has granted it, a
/// FIFO exists at the path.
pub proof fn lemma_ensure_creates(fs: Filesystem, path: Seq<char>, answer: Result<(), Errno>)
    requires
        !fs.present(path),
        answer is Ok,
    ensures
        ensure_plan(path, fs.present(path)) is Some,
        fs.ensure_exists(path, answer).1 is Ok,
        fs.ensure_exists(path, answer).0.has_fifo(path),
{
}

/// Neither operation touches any path but its own.
pub proof fn lemma_other_paths_untouched(
    fs: Filesystem,
    path: Seq<char>,
    other: Seq<char>,
    created: Result<(), Errno>,
    removed: Result<(), std::io::Error>,
)
    requires
        other != path,
    ensures
        fs.ensure_exists(path, created).0.present(other) == fs.present(other),
        fs.delete(path, removed).0.present(other) == fs.present(other),
        fs.present(other) ==> fs.ensure_exists(path, created).0.entries[other]
            == fs.entries[other],
        fs.present(other) ==> fs.delete(path, removed).0.entries[other] == fs.entries[other],
{
}

/// The library adds nothing to the bytes in transit, drops none and alters
/// none. Where a reader reads to the end of stream what one write put into
/// the pipe, it answers with exactly the bytes that the writer was given.
pub proof fn lemma_bytes_round_trip(path: Seq<char>, data: Seq<u8>)
    ensures
        write_plan(path, data).path == path,
        read_result(Ok(write_plan(path, data).data)) == Ok::<Seq<u8>, PipeError>(data),
{
}

/// Text survives the pipe. Where a reader reads to the end of stream what
/// one text write put into the pipe, its text read answers with exactly the
/// text that the writer was given: the empty text, and text with characters
/// outside ASCII, included.
pub proof fn lemma_text_round_trip_through_pipe(path: Seq<char>, text: Seq<char>)
    ensures
        text_result(Ok(write_text_plan(path, text).data)) == Ok::<Seq<char>, PipeError>(text),
{
    lemma_text_round_trip(text);
}

/// Bytes that are not valid UTF-8 never come back as text. Where a reader
/// reads to the end of stream such bytes, its text read answers with a
/// decoding error, and with nothing else.
pub proof fn lemma_invalid_text_is_refused(path: Seq<char>, data: Seq<u8>)
    requires
        !valid_utf8(data),
    ensures
        text_result(Ok(write_plan(path, data).data)) == Err::<Seq<char>, PipeError>(
            PipeError::Decoding,
        ),
{
}

} // verus!
