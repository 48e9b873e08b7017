//! Process-wide session configuration: icon rendering on or off and
//! per-provider preview line counts, established once by the initialization
//! request. Later initialization attempts are ignored, and reads before the
//! first initialization fail loudly instead of inventing a default.

use vstd::prelude::*;
use crate::text::str_eq;

verus! {

/// Preview line count a configuration falls back to when neither the
/// provider itself nor the `"*"` wildcard is configured.
pub const DEFAULT_PREVIEW_SIZE: usize = 5;

/// One provider's configured preview line count.
pub struct SizeEntry {
    pub provider: String,
    pub size: usize,
}

/// The preview-size part of the configuration: one number for every
/// provider, or a table keyed by provider identifier with an optional `"*"`
/// wildcard entry.
pub enum PreviewSize {
    Number(usize),
    PerProvider(Vec<SizeEntry>),
}

/// The size the table assigns to `key`: the first entry whose provider
/// matches. (A table built from a JSON object has distinct keys, so "first"
/// is no restriction there.)
pub open spec fn lookup_size(entries: Seq<SizeEntry>, key: Seq<char>) -> Option<usize>
    decreases entries.len(),
{
    if entries.len() == 0 {
        None
    } else if entries[0].provider@ == key {
        Some(entries[0].size)
    } else {
        lookup_size(entries.drop_first(), key)
    }
}

fn lookup_size_exec(entries: &Vec<SizeEntry>, key: &str) -> (r: Option<usize>)
    ensures
        r == lookup_size(entries@, key@),
{
    let mut i: usize = 0;
    proof {
        assert(entries@.skip(0) =~= entries@);
    }
    while i < entries.len()
        invariant
            i <= entries@.len(),
            lookup_size(entries@, key@) == lookup_size(entries@.skip(i as int), key@),
        decreases entries@.len() - i,
    {
        proof {
            assert(entries@.skip(i as int)[0] == entries@[i as int]);
        }
        if str_eq(entries[i].provider.as_str(), key) {
            return Some(entries[i].size);
        }
        proof {
            assert(entries@.skip(i as int).drop_first() =~= entries@.skip(i + 1 as int));
        }
        i = i + 1;
    }
    None
}

/// The preview line count configuration `ps` assigns to `provider_id`: the
/// provider's own entry if present, else the `"*"` entry, else the default.
pub open spec fn preview_size_spec(ps: PreviewSize, provider_id: Seq<char>) -> usize {
    match ps {
        PreviewSize::Number(n) => n,
        PreviewSize::PerProvider(entries) => match lookup_size(entries@, provider_id) {
            Some(n) => n,
            None => match lookup_size(entries@, seq!['*']) {
                Some(n) => n,
                None => DEFAULT_PREVIEW_SIZE,
            },
        },
    }
}

/// The settings the initialization request installs.
pub struct GlobalEnv {
    pub is_nvim: bool,
    pub enable_icon: bool,
    pub preview_size: PreviewSize,
}

impl GlobalEnv {
    pub fn new(is_nvim: bool, enable_icon: bool, preview_size: PreviewSize) -> (r: GlobalEnv)
        ensures
            r.is_nvim == is_nvim,
            r.enable_icon == enable_icon,
            r.preview_size == preview_size,
    {
        GlobalEnv { is_nvim, enable_icon, preview_size }
    }

    /// The preview line count for `provider_id` under this configuration.
    pub fn preview_size_of(&self, provider_id: &str) -> (r: usize)
        ensures
            r == preview_size_spec(self.preview_size, provider_id@),
    {
        match &self.preview_size {
            PreviewSize::Number(n) => *n,
            PreviewSize::PerProvider(entries) => {
                match lookup_size_exec(entries, provider_id) {
                    Some(n) => n,
                    None => {
                        proof {
                            reveal_strlit("*");
                            assert("*"@ =~= seq!['*']);
                        }
                        match lookup_size_exec(entries, "*") {
                            Some(n) => n,
                            None => DEFAULT_PREVIEW_SIZE,
                        }
                    },
                }
            },
        }
    }
}

/// A read of the configuration before initialization.
pub enum ConfigError {
    Uninitialized,
}

impl ConfigError {
    pub fn message(&self) -> (r: String)
        ensures
            r@ == "global env is not initialized"@,
    {
        String::from_str("global env is not initialized")
    }
}

/// Holder of the write-once configuration. The surrounding process makes one
/// of these at startup and shares it with every request handler.
pub struct Session {
    env: Option<GlobalEnv>,
}

/// The session state an initialization request leaves behind: the first
/// writer installs its settings, every later writer changes nothing.
pub closed spec fn after_initialize(s: Session, env: GlobalEnv) -> Session {
    if s.initialized() {
        s
    } else {
        (Session { env: Some(env) })
    }
}

impl Session {
    pub closed spec fn initialized(&self) -> bool {
        self.env is Some
    }

    /// The installed configuration; meaningful only once `initialized()`.
    pub closed spec fn env_spec(&self) -> GlobalEnv
        recommends
            self.initialized(),
    {
        match self.env {
            Some(e) => e,
            None => (GlobalEnv {
                is_nvim: false,
                enable_icon: false,
                preview_size: PreviewSize::Number(0),
            }),
        }
    }

    pub fn new() -> (s: Session)
        ensures
            !s.initialized(),
    {
        Session { env: None }
    }

    /// Whether a configuration has been installed.
    pub fn is_initialized(&self) -> (r: bool)
        ensures
            r == self.initialized(),
    {
        self.env.is_some()
    }

    /// Installs `env` if no configuration was installed yet; otherwise the
    /// call is ignored.
    pub fn initialize_global_env(&mut self, env: GlobalEnv)
        ensures
            *final(self) == after_initialize(*old(self), env),
            final(self).initialized(),
    {
        if self.env.is_none() {
            self.env = Some(env);
        }
    }

    /// The installed configuration, or an error for a read before the first
    /// initialization.
    pub fn global(&self) -> (r: Result<&GlobalEnv, ConfigError>)
        ensures
            match r {
                Ok(e) => self.initialized() && *e == self.env_spec(),
                Err(_) => !self.initialized(),
            },
    {
        match &self.env {
            Some(e) => Ok(e),
            None => Err(ConfigError::Uninitialized),
        }
    }
}

/// What one initialization does: install `env` on an uninitialized session,
/// change nothing on an initialized one.
pub proof fn lemma_after_initialize(s: Session, env: GlobalEnv)
    ensures
        s.initialized() ==> after_initialize(s, env) == s,
        !s.initialized() ==> after_initialize(s, env).initialized() && after_initialize(
            s,
            env,
        ).env_spec() == env,
{
}

/// First-writer-wins: once a session is initialized with `e1`, initializing
/// it again with any `e2` leaves the state unchanged, and every preview-size
/// read still answers from `e1`.
pub proof fn lemma_first_initialize_wins(s: Session, e1: GlobalEnv, e2: GlobalEnv)
    requires
        !s.initialized(),
    ensures
        after_initialize(after_initialize(s, e1), e2) == after_initialize(s, e1),
        after_initialize(s, e1).env_spec() == e1,
        forall|provider: Seq<char>|
            preview_size_spec(
                after_initialize(after_initialize(s, e1), e2).env_spec().preview_size,
                provider,
            ) == preview_size_spec(e1.preview_size, provider),
{
}

} // verus!
