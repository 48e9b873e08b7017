//! The decoded request message and the dispatch key.
//!
//! The surrounding process parses one JSON object per input line and hands
//! it over as a `Message`: the method name, the caller-assigned request id,
//! and the parameter fields the handlers read, already reduced to plain
//! values.

use vstd::prelude::*;
use crate::session::PreviewSize;
use crate::text::str_eq;

verus! {

/// The parameters a request may carry. Each handler decides for itself which
/// of these it requires and which it defaults.
pub struct Params {
    pub provider_id: Option<String>,
    pub cwd: Option<String>,
    pub curline: Option<String>,
    pub source_fpath: Option<String>,
    pub source_cmd: Option<String>,
    pub enable_icon: Option<bool>,
    pub is_nvim: Option<bool>,
    pub preview_size: Option<PreviewSize>,
}

/// One decoded request: `{method, params, id}`. The id is echoed verbatim in
/// whatever response the request produces.
pub struct Message {
    pub method: String,
    pub params: Params,
    pub id: u64,
}

impl Message {
    pub fn get_message_id(&self) -> (r: u64)
        ensures
            r == self.id,
    {
        self.id
    }

    /// The provider identifier, or a placeholder that matches no known
    /// provider when the field is absent.
    pub fn get_provider_id(&self) -> (r: String)
        ensures
            match self.params.provider_id {
                Some(p) => r@ == p@,
                None => r@ == "Unknown provider id"@,
            },
    {
        match &self.params.provider_id {
            Some(p) => p.clone(),
            None => String::from_str("Unknown provider id"),
        }
    }
}

/// The dispatch key of a top-level request.
#[derive(Clone, Copy, PartialEq, Eq, Structural, Debug)]
pub enum Method {
    InitializeGlobalEnv,
    ClientOnInit,
    ClientOnTyped,
    ClientOnMove,
    Unrecognized,
}

pub open spec fn method_of(s: Seq<char>) -> Method {
    if s == "initialize_global_env"@ {
        Method::InitializeGlobalEnv
    } else if s == "client.on_init"@ {
        Method::ClientOnInit
    } else if s == "client.on_typed"@ {
        Method::ClientOnTyped
    } else if s == "client.on_move"@ {
        Method::ClientOnMove
    } else {
        Method::Unrecognized
    }
}

/// Classifies a request's method name. Every name outside the four known
/// methods is `Unrecognized`, and the dispatcher answers such a request with
/// an error response.
pub fn classify_method(method: &str) -> (m: Method)
    ensures
        m == method_of(method@),
{
    if str_eq(method, "initialize_global_env") {
        Method::InitializeGlobalEnv
    } else if str_eq(method, "client.on_init") {
        Method::ClientOnInit
    } else if str_eq(method, "client.on_typed") {
        Method::ClientOnTyped
    } else if str_eq(method, "client.on_move") {
        Method::ClientOnMove
    } else {
        Method::Unrecognized
    }
}

/// A well-formed request whose method is not one this backend knows.
pub struct UnknownMethodError {
    pub method: String,
}

impl UnknownMethodError {
    pub fn message(&self) -> (r: String)
        ensures
            r@ == "unknown method: "@ + self.method@,
    {
        String::from_str("unknown method: ").concat(self.method.as_str())
    }
}

} // verus!
