//! Capture of a remote service's diagnostic dump through a pipe.
//!
//! A dump call opens a pipe, lets a worker ask the remote object to write its
//! dump into the write end, and drains the read end until the stream ends.
//! The crate holds the decisions of that protocol: what a capture does with
//! each chunk that was read, when the reader stops, and what the call returns
//! once the worker has been joined. Pipe, worker and lookup of the service are
//! the caller's part; they hand over chunks, error numbers and status codes.

pub mod error;
pub mod protocol;
pub mod bytes;
pub mod text;

pub use crate::bytes::ByteCapture;
pub use crate::error::DumpError;
pub use crate::protocol::{Action, Phase, Progress};
pub use crate::text::TextCapture;
