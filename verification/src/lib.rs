//! A sans-I/O core for Unix named pipes (FIFOs).
//!
//! The crate decides; the caller acts. Every function here is a pure step of
//! the pipe lifecycle: it takes what the caller has observed of the
//! filesystem and answers with the request to carry out next, or takes the
//! raw outcome of a request and answers with the final result. The caller
//! may serve the requests with blocking system calls or with the suspending
//! calls of a task runtime: the decisions are the same.

pub mod error;
pub mod mode;
pub mod model;
pub mod pipe;
pub mod protocol;
pub mod request;
pub mod text;
