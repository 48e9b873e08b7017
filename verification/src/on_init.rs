//! Handling a provider's first-load request: the filer provider lists its
//! working directory, the files provider runs a source command; every other
//! provider is a deliberate no-op here.

use vstd::prelude::*;
use crate::filer::{FsEntry, listing, read_dir_entries};
use crate::message::Message;
use crate::response::Response;
use crate::types::{ResolveError, is_known_provider, msg_provider_id};

verus! {

/// One first-load request.
pub struct OnInitHandler {
    pub msg_id: u64,
    pub provider_id: String,
    pub cwd: String,
    pub source_cmd: Option<String>,
}

/// What the surrounding process must do for a first-load request.
pub enum InitAction {
    /// List the handler's working directory and answer with `handle_filer`.
    ListDir,
    /// Run the source command in the working directory and answer its
    /// output lines with `handle_files`.
    RunSource { cmd: String },
    /// Nothing: the provider materializes its data elsewhere.
    Ignore,
}

impl OnInitHandler {
    pub fn from_message(msg: &Message) -> (r: Result<OnInitHandler, ResolveError>)
        ensures
            match r {
                Ok(h) => {
                    &&& msg.params.cwd is Some
                    &&& h.msg_id == msg.id
                    &&& h.provider_id@ == msg_provider_id(*msg)
                    &&& h.cwd@ == msg.params.cwd->Some_0@
                    &&& match (h.source_cmd, msg.params.source_cmd) {
                        (Some(a), Some(b)) => a@ == b@,
                        (None, None) => true,
                        _ => false,
                    }
                },
                Err(e) => msg.params.cwd is None && match e {
                    ResolveError::MissingField { field } => field@ == "cwd"@,
                    _ => false,
                },
            },
    {
        let cwd = match &msg.params.cwd {
            Some(c) => c.clone(),
            None => {
                return Err(ResolveError::MissingField { field: String::from_str("cwd") });
            },
        };
        let source_cmd = match &msg.params.source_cmd {
            Some(c) => Some(c.clone()),
            None => None,
        };
        Ok(
            OnInitHandler {
                msg_id: msg.get_message_id(),
                provider_id: msg.get_provider_id(),
                cwd,
                source_cmd,
            },
        )
    }

    /// Decides what this first-load request needs: a listing for the filer
    /// provider, the source command's output for the files provider
    /// (missing command is a reported failure, not a fault), nothing for the
    /// other known providers — they materialize their data elsewhere — and
    /// an error for a provider this backend does not know.
    pub fn handle(&self) -> (r: Result<InitAction, ResolveError>)
        ensures
            self.provider_id@ == "filer"@ ==> r == Ok::<InitAction, ResolveError>(
                InitAction::ListDir,
            ),
            self.provider_id@ == "files"@ ==> match (r, self.source_cmd) {
                (Ok(InitAction::RunSource { cmd }), Some(c)) => cmd@ == c@,
                (Err(ResolveError::MissingField { field }), None) => field@ == "source_cmd"@,
                _ => false,
            },
            self.provider_id@ != "filer"@ && self.provider_id@ != "files"@ ==> if is_known_provider(
                self.provider_id@,
            ) {
                r == Ok::<InitAction, ResolveError>(InitAction::Ignore)
            } else {
                match r {
                    Err(ResolveError::UnknownProvider { provider_id }) => provider_id@
                        == self.provider_id@,
                    _ => false,
                }
            },
    {
        proof {
            reveal_strlit("filer");
            reveal_strlit("files");
            assert("filer"@[4] == 'r');
            assert("files"@[4] == 's');
            assert("filer"@ != "files"@);
        }
        let pid = self.provider_id.as_str();
        if crate::text::str_eq(pid, "filer") {
            Ok(InitAction::ListDir)
        } else if crate::text::str_eq(pid, "files") {
            match &self.source_cmd {
                Some(c) => Ok(InitAction::RunSource { cmd: c.clone() }),
                None => Err(ResolveError::MissingField { field: String::from_str("source_cmd") }),
            }
        } else if crate::text::str_eq(pid, "blines") || crate::text::str_eq(pid, "tags")
            || crate::text::str_eq(pid, "proj_tags") || crate::text::str_eq(pid, "grep")
            || crate::text::str_eq(pid, "grep2") {
            Ok(InitAction::Ignore)
        } else {
            Err(ResolveError::UnknownProvider { provider_id: self.provider_id.clone() })
        }
    }

    /// Turns the outcome of listing the working directory into the filer
    /// provider's first-load response: the sorted entries with their count,
    /// or an error response naming the directory.
    pub fn handle_filer(&self, dir_listing: Result<Vec<FsEntry>, String>, enable_icon: bool) -> (r:
        Response)
        ensures
            match dir_listing {
                Ok(entries) => match r {
                    Response::FilerEntries { id, provider_id, dir, total, entries: lines } => {
                        &&& id == self.msg_id
                        &&& provider_id@ == "filer"@
                        &&& dir@ == self.cwd@
                        &&& lines.deep_view() == listing(entries@, enable_icon, None::<usize>)
                        &&& total == lines@.len()
                    },
                    _ => false,
                },
                Err(m) => match r {
                    Response::ProviderError { id, provider_id, message, dir } => {
                        &&& id == self.msg_id
                        &&& provider_id@ == "filer"@
                        &&& message@ == m@
                        &&& dir@ == self.cwd@
                    },
                    _ => false,
                },
            },
    {
        match dir_listing {
            Ok(entries) => {
                let lines = read_dir_entries(entries, enable_icon, None);
                let total = lines.len();
                Response::FilerEntries {
                    id: self.msg_id,
                    provider_id: String::from_str("filer"),
                    dir: self.cwd.clone(),
                    total,
                    entries: lines,
                }
            },
            Err(m) => Response::ProviderError {
                id: self.msg_id,
                provider_id: String::from_str("filer"),
                message: m,
                dir: self.cwd.clone(),
            },
        }
    }

    /// Wraps the source command's output lines (already decorated by the
    /// caller, where icons apply) into the files provider's first-load
    /// response.
    pub fn handle_files(&self, lines: Vec<String>) -> (r: Response)
        ensures
            match r {
                Response::InitLines { id, provider_id, lines: ls } => {
                    &&& id == self.msg_id
                    &&& provider_id@ == self.provider_id@
                    &&& ls == lines
                },
                _ => false,
            },
    {
        Response::InitLines { id: self.msg_id, provider_id: self.provider_id.clone(), lines }
    }
}

} // verus!
