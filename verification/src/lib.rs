//! Backend engine for an interactive fuzzy-finder front-end.
//!
//! The front-end sends newline-delimited JSON requests over a pipe; the
//! backend answers each with a length-framed response describing a directory
//! listing, a window of file content around a point of interest, or an error.
//! This crate holds the verified core of that backend: the dispatch and
//! provider-resolution rules, the write-once session configuration, the
//! listing and preview-window computations, and the response framing. The
//! surrounding process (stream I/O, JSON encoding, one thread per request)
//! hands these functions plain values and writes out what they return.

pub mod extract;
pub mod filer;
pub mod framing;
pub mod message;
pub mod on_init;
pub mod on_move;
pub mod on_typed;
pub mod response;
pub mod session;
pub mod text;
pub mod types;
