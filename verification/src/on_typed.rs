//! Handling a query-change request: only the filer provider re-lists its
//! directory on typing; any other provider here is answered with an error.

use vstd::prelude::*;
use crate::filer::{FsEntry, listing, read_dir_entries};
use crate::message::Message;
use crate::response::Response;
use crate::types::{ResolveError, msg_provider_id};

verus! {

/// One query-change request.
pub struct OnTypedHandler {
    pub msg_id: u64,
    pub provider_id: String,
    pub cwd: String,
    pub source_cmd: Option<String>,
}

/// What the surrounding process must do for a query-change request.
pub enum TypedAction {
    /// List the handler's working directory and answer with `handle_filer`.
    ListDir,
}

impl OnTypedHandler {
    pub fn from_message(msg: &Message) -> (r: Result<OnTypedHandler, ResolveError>)
        ensures
            match r {
                Ok(h) => {
                    &&& msg.params.cwd is Some
                    &&& h.msg_id == msg.id
                    &&& h.provider_id@ == msg_provider_id(*msg)
                    &&& h.cwd@ == msg.params.cwd->Some_0@
                    &&& match (h.source_cmd, msg.params.source_cmd) {
                        (Some(a), Some(b)) => a@ == b@,
                        (None, None) => true,
                        _ => false,
                    }
                },
                Err(e) => msg.params.cwd is None && match e {
                    ResolveError::MissingField { field } => field@ == "cwd"@,
                    _ => false,
                },
            },
    {
        let cwd = match &msg.params.cwd {
            Some(c) => c.clone(),
            None => {
                return Err(ResolveError::MissingField { field: String::from_str("cwd") });
            },
        };
        let source_cmd = match &msg.params.source_cmd {
            Some(c) => Some(c.clone()),
            None => None,
        };
        Ok(
            OnTypedHandler {
                msg_id: msg.get_message_id(),
                provider_id: msg.get_provider_id(),
                cwd,
                source_cmd,
            },
        )
    }

    /// Routes the request: a directory listing for the filer provider, an
    /// error naming the provider for everything else.
    pub fn handle(&self) -> (r: Result<TypedAction, ResolveError>)
        ensures
            self.provider_id@ == "filer"@ ==> r == Ok::<TypedAction, ResolveError>(
                TypedAction::ListDir,
            ),
            self.provider_id@ != "filer"@ ==> match r {
                Err(ResolveError::UnknownProvider { provider_id }) => provider_id@
                    == self.provider_id@,
                _ => false,
            },
    {
        if crate::text::str_eq(self.provider_id.as_str(), "filer") {
            Ok(TypedAction::ListDir)
        } else {
            Err(ResolveError::UnknownProvider { provider_id: self.provider_id.clone() })
        }
    }

    /// Turns the outcome of listing the working directory into the
    /// query-change response, keyed by this handler's own provider
    /// identifier.
    pub fn handle_filer(&self, dir_listing: Result<Vec<FsEntry>, String>, enable_icon: bool) -> (r:
        Response)
        ensures
            match dir_listing {
                Ok(entries) => match r {
                    Response::FilerEntries { id, provider_id, dir, total, entries: lines } => {
                        &&& id == self.msg_id
                        &&& provider_id@ == self.provider_id@
                        &&& dir@ == self.cwd@
                        &&& lines.deep_view() == listing(entries@, enable_icon, None::<usize>)
                        &&& total == lines@.len()
                    },
                    _ => false,
                },
                Err(m) => match r {
                    Response::ProviderError { id, provider_id, message, dir } => {
                        &&& id == self.msg_id
                        &&& provider_id@ == self.provider_id@
                        &&& message@ == m@
                        &&& dir@ == self.cwd@
                    },
                    _ => false,
                },
            },
    {
        match dir_listing {
            Ok(entries) => {
                let lines = read_dir_entries(entries, enable_icon, None);
                let total = lines.len();
                Response::FilerEntries {
                    id: self.msg_id,
                    provider_id: self.provider_id.clone(),
                    dir: self.cwd.clone(),
                    total,
                    entries: lines,
                }
            },
            Err(m) => Response::ProviderError {
                id: self.msg_id,
                provider_id: self.provider_id.clone(),
                message: m,
                dir: self.cwd.clone(),
            },
        }
    }
}

} // verus!
