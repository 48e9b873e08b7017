//! The responses the backend emits. Each carries the id of the request it
//! answers; provider-scoped responses also carry the provider identifier and
//! an event tag, which here is implied by the variant. The surrounding
//! process serializes these onto the wire.

use vstd::prelude::*;

verus! {

/// One response, ready for serialization.
pub enum Response {
    /// `{error, id}` for a request whose method is unknown.
    MethodError { id: u64, message: String },
    /// `{error: {message, dir}, id, provider_id}` for a failed listing.
    ProviderError { id: u64, provider_id: String, message: String, dir: String },
    /// A directory listing: `{id, provider_id, result: {dir, total, entries,
    /// event: "on_init"}}`.
    FilerEntries { id: u64, provider_id: String, dir: String, total: usize, entries: Vec<String> },
    /// The line list a provider's source produced: `{id, provider_id,
    /// result: {event: "on_init", lines}}`.
    InitLines { id: u64, provider_id: String, lines: Vec<String> },
    /// A positioned preview window, event `"on_move"`, with the index of the
    /// highlighted line within `lines`.
    PreviewFileAt { id: u64, provider_id: String, lines: Vec<String>, fname: String, hi_lnum: usize },
    /// A whole-file preview window, event `"on_move"`.
    PreviewFile { id: u64, provider_id: String, lines: Vec<String>, fname: String },
    /// A directory preview, event `"on_move"`, `is_dir` true.
    PreviewDir { id: u64, provider_id: String, lines: Vec<String> },
}

/// The request id a response answers.
pub open spec fn resp_id(r: Response) -> u64 {
    match r {
        Response::MethodError { id, .. } => id,
        Response::ProviderError { id, .. } => id,
        Response::FilerEntries { id, .. } => id,
        Response::InitLines { id, .. } => id,
        Response::PreviewFileAt { id, .. } => id,
        Response::PreviewFile { id, .. } => id,
        Response::PreviewDir { id, .. } => id,
    }
}

impl Response {
    pub fn id(&self) -> (r: u64)
        ensures
            r == resp_id(*self),
    {
        match self {
            Response::MethodError { id, .. } => *id,
            Response::ProviderError { id, .. } => *id,
            Response::FilerEntries { id, .. } => *id,
            Response::InitLines { id, .. } => *id,
            Response::PreviewFileAt { id, .. } => *id,
            Response::PreviewFile { id, .. } => *id,
            Response::PreviewDir { id, .. } => *id,
        }
    }
}

} // verus!
