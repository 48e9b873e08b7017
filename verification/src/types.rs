//! The provider resolver: mapping a provider identifier and a raw display
//! line to a typed preview target.

use vstd::prelude::*;
use crate::extract::{blines_lnum_val, blines_match, extract_blines_lnum,
    extract_buf_tags_lnum, extract_grep_position, extract_proj_tags, grep_col_val, grep_lnum_val,
    grep_match, grep_path, join_path, join_spec, proj_lnum_val, proj_match, proj_path,
    strip_leading_icon, stripped2, tags_lnum_val, tags_match};
use crate::message::Message;
use crate::text::str_eq;

verus! {

/// The preview target a display line resolves to.
pub enum ProviderExtended {
    Files(String),
    Filer(String),
    Grep { path: String, lnum: usize },
    BLines { path: String, lnum: usize },
    ProjTags { path: String, lnum: usize },
    BufferTags { path: String, lnum: usize },
}

/// Why a resolution failed.
#[derive(Debug)]
pub enum ResolveError {
    UnknownProvider { provider_id: String },
    MissingField { field: String },
    ExtractFailure { provider_id: String, line: String },
}

impl ResolveError {
    pub fn message(&self) -> (r: String)
        ensures
            match self {
                ResolveError::UnknownProvider { provider_id } => r@ == "unknown provider id: "@
                    + provider_id@,
                ResolveError::MissingField { field } => r@ == "missing field: "@ + field@,
                ResolveError::ExtractFailure { provider_id, line } => r@
                    == "couldn't extract a position for provider "@ + provider_id@ + " from line: "@
                    + line@,
            },
    {
        match self {
            ResolveError::UnknownProvider { provider_id } => String::from_str(
                "unknown provider id: ",
            ).concat(provider_id.as_str()),
            ResolveError::MissingField { field } => String::from_str("missing field: ").concat(
                field.as_str(),
            ),
            ResolveError::ExtractFailure { provider_id, line } => {
                let r = String::from_str("couldn't extract a position for provider ").concat(
                    provider_id.as_str(),
                ).concat(" from line: ").concat(line.as_str());
                proof {
                    assert(r@ =~= "couldn't extract a position for provider "@ + provider_id@
                        + " from line: "@ + line@);
                }
                r
            },
        }
    }
}

/// Whether a provider's lines carry an icon prefix at all. Project tags and
/// buffer lines are icon-exempt: their lines start with a numeric token that
/// blind stripping would corrupt.
pub open spec fn has_icon_support_spec(provider_id: Seq<char>) -> bool {
    provider_id != "proj_tags"@ && provider_id != "blines"@
}

pub fn has_icon_support(provider_id: &str) -> (r: bool)
    ensures
        r == has_icon_support_spec(provider_id@),
{
    !str_eq(provider_id, "proj_tags") && !str_eq(provider_id, "blines")
}

/// The leading icon glyph is stripped iff icons are enabled and the provider
/// shows icons.
pub open spec fn should_skip_spec(provider_id: Seq<char>, enable_icon: bool) -> bool {
    enable_icon && has_icon_support_spec(provider_id)
}

pub fn should_skip_leading_icon(provider_id: &str, enable_icon: bool) -> (r: bool)
    ensures
        r == should_skip_spec(provider_id@, enable_icon),
{
    enable_icon && has_icon_support(provider_id)
}

/// The display line after icon handling: stripped iff stripping applies.
pub open spec fn cleaned_line(curline: Seq<char>, provider_id: Seq<char>, enable_icon: bool) -> Seq<
    char,
> {
    if should_skip_spec(provider_id, enable_icon) {
        stripped2(curline)
    } else {
        curline
    }
}

/// Icon stripping is applied iff icons are enabled, except for the two
/// icon-exempt providers, whose lines are never stripped whatever the icon
/// setting.
pub proof fn lemma_icon_stripping(curline: Seq<char>, provider_id: Seq<char>, enable_icon: bool)
    ensures
        provider_id == "proj_tags"@ || provider_id == "blines"@ ==> cleaned_line(
            curline,
            provider_id,
            enable_icon,
        ) == curline,
        has_icon_support_spec(provider_id) ==> cleaned_line(curline, provider_id, enable_icon) == (
        if enable_icon {
            stripped2(curline)
        } else {
            curline
        }),
{
}

/// The provider identifier a message carries, or a placeholder that matches
/// no known provider.
pub open spec fn msg_provider_id(msg: Message) -> Seq<char> {
    match msg.params.provider_id {
        Some(p) => p@,
        None => "Unknown provider id"@,
    }
}

pub open spec fn is_known_provider(pid: Seq<char>) -> bool {
    ||| pid == "files"@
    ||| pid == "filer"@
    ||| pid == "blines"@
    ||| pid == "tags"@
    ||| pid == "proj_tags"@
    ||| pid == "grep"@
    ||| pid == "grep2"@
}

/// Ghost description of a target: what the paths and numbers of a resolved
/// `ProviderExtended` must be.
pub enum TargetSpec {
    Files { path: Seq<char> },
    Filer { path: Seq<char> },
    Grep { path: Seq<char>, lnum: nat },
    BLines { path: Seq<char>, lnum: nat },
    ProjTags { path: Seq<char>, lnum: nat },
    BufferTags { path: Seq<char>, lnum: nat },
}

/// Ghost description of a resolution failure.
pub enum FailureSpec {
    UnknownProvider { provider_id: Seq<char> },
    MissingField { field: Seq<char> },
    ExtractFailure { provider_id: Seq<char>, line: Seq<char> },
}

pub enum ResolutionSpec {
    Target(TargetSpec),
    Failure(FailureSpec),
}

/// The resolution a message must produce: which target or which failure,
/// with the exact path, line number and error contents.
pub open spec fn resolve_spec(msg: Message, enable_icon: bool) -> ResolutionSpec {
    let pid = msg_provider_id(msg);
    if !is_known_provider(pid) {
        ResolutionSpec::Failure(FailureSpec::UnknownProvider { provider_id: pid })
    } else if msg.params.curline is None {
        ResolutionSpec::Failure(FailureSpec::MissingField { field: "curline"@ })
    } else {
        let clean = cleaned_line(msg.params.curline->Some_0@, pid, enable_icon);
        if pid == "files"@ || pid == "filer"@ {
            if msg.params.cwd is None {
                ResolutionSpec::Failure(FailureSpec::MissingField { field: "cwd"@ })
            } else {
                let path = join_spec(msg.params.cwd->Some_0@, clean);
                if pid == "files"@ {
                    ResolutionSpec::Target(TargetSpec::Files { path })
                } else {
                    ResolutionSpec::Target(TargetSpec::Filer { path })
                }
            }
        } else if pid == "blines"@ {
            if !(blines_match(clean) && blines_lnum_val(clean) <= usize::MAX) {
                ResolutionSpec::Failure(
                    FailureSpec::ExtractFailure { provider_id: pid, line: clean },
                )
            } else if msg.params.source_fpath is None {
                ResolutionSpec::Failure(FailureSpec::MissingField { field: "source_fpath"@ })
            } else {
                ResolutionSpec::Target(
                    TargetSpec::BLines {
                        path: msg.params.source_fpath->Some_0@,
                        lnum: blines_lnum_val(clean),
                    },
                )
            }
        } else if pid == "tags"@ {
            if !(tags_match(clean) && tags_lnum_val(clean) <= usize::MAX) {
                ResolutionSpec::Failure(
                    FailureSpec::ExtractFailure { provider_id: pid, line: clean },
                )
            } else if msg.params.source_fpath is None {
                ResolutionSpec::Failure(FailureSpec::MissingField { field: "source_fpath"@ })
            } else {
                ResolutionSpec::Target(
                    TargetSpec::BufferTags {
                        path: msg.params.source_fpath->Some_0@,
                        lnum: tags_lnum_val(clean),
                    },
                )
            }
        } else if pid == "proj_tags"@ {
            if !(proj_match(clean) && proj_lnum_val(clean) <= usize::MAX) {
                ResolutionSpec::Failure(
                    FailureSpec::ExtractFailure { provider_id: pid, line: clean },
                )
            } else if msg.params.cwd is None {
                ResolutionSpec::Failure(FailureSpec::MissingField { field: "cwd"@ })
            } else {
                ResolutionSpec::Target(
                    TargetSpec::ProjTags {
                        path: join_spec(msg.params.cwd->Some_0@, proj_path(clean)),
                        lnum: proj_lnum_val(clean),
                    },
                )
            }
        } else {
            if !(grep_match(clean) && grep_lnum_val(clean) <= usize::MAX && grep_col_val(clean)
                <= usize::MAX) {
                ResolutionSpec::Failure(
                    FailureSpec::ExtractFailure { provider_id: pid, line: clean },
                )
            } else if msg.params.cwd is None {
                ResolutionSpec::Failure(FailureSpec::MissingField { field: "cwd"@ })
            } else {
                ResolutionSpec::Target(
                    TargetSpec::Grep {
                        path: join_spec(msg.params.cwd->Some_0@, grep_path(clean)),
                        lnum: grep_lnum_val(clean),
                    },
                )
            }
        }
    }
}

pub open spec fn target_matches(t: TargetSpec, pe: ProviderExtended) -> bool {
    match (t, pe) {
        (TargetSpec::Files { path }, ProviderExtended::Files(p)) => p@ == path,
        (TargetSpec::Filer { path }, ProviderExtended::Filer(p)) => p@ == path,
        (TargetSpec::Grep { path, lnum }, ProviderExtended::Grep { path: p, lnum: n }) => p@ == path
            && n as nat == lnum,
        (TargetSpec::BLines { path, lnum }, ProviderExtended::BLines { path: p, lnum: n }) => p@
            == path && n as nat == lnum,
        (TargetSpec::ProjTags { path, lnum }, ProviderExtended::ProjTags { path: p, lnum: n }) => p@
            == path && n as nat == lnum,
        (
            TargetSpec::BufferTags { path, lnum },
            ProviderExtended::BufferTags { path: p, lnum: n },
        ) => p@ == path && n as nat == lnum,
        _ => false,
    }
}

pub open spec fn failure_matches(f: FailureSpec, e: ResolveError) -> bool {
    match (f, e) {
        (
            FailureSpec::UnknownProvider { provider_id },
            ResolveError::UnknownProvider { provider_id: p },
        ) => p@ == provider_id,
        (FailureSpec::MissingField { field }, ResolveError::MissingField { field: f2 }) => f2@
            == field,
        (
            FailureSpec::ExtractFailure { provider_id, line },
            ResolveError::ExtractFailure { provider_id: p, line: l },
        ) => p@ == provider_id && l@ == line,
        _ => false,
    }
}

pub open spec fn resolution_matches(
    s: ResolutionSpec,
    r: Result<ProviderExtended, ResolveError>,
) -> bool {
    match (s, r) {
        (ResolutionSpec::Target(t), Ok(pe)) => target_matches(t, pe),
        (ResolutionSpec::Failure(f), Err(e)) => failure_matches(f, e),
        _ => false,
    }
}

impl ProviderExtended {
    /// Resolves a provider-scoped message into a preview target, by the
    /// provider-specific extraction rules. Pure string work: the filesystem
    /// is never consulted here.
    pub fn try_from(msg: &Message, enable_icon: bool) -> (r: Result<
        ProviderExtended,
        ResolveError,
    >)
        ensures
            resolution_matches(resolve_spec(*msg, enable_icon), r),
    {
        let provider_id = msg.get_provider_id();
        let pid = provider_id.as_str();
        let is_files = str_eq(pid, "files");
        let is_filer = str_eq(pid, "filer");
        let is_blines = str_eq(pid, "blines");
        let is_tags = str_eq(pid, "tags");
        let is_proj_tags = str_eq(pid, "proj_tags");
        let is_grep = str_eq(pid, "grep") || str_eq(pid, "grep2");
        if !(is_files || is_filer || is_blines || is_tags || is_proj_tags || is_grep) {
            return Err(ResolveError::UnknownProvider { provider_id });
        }
        let curline = match &msg.params.curline {
            Some(c) => c,
            None => {
                return Err(ResolveError::MissingField { field: String::from_str("curline") });
            },
        };
        let clean = if should_skip_leading_icon(pid, enable_icon) {
            strip_leading_icon(curline.as_str())
        } else {
            curline.clone()
        };
        if is_files || is_filer {
            let cwd = match &msg.params.cwd {
                Some(c) => c,
                None => {
                    return Err(ResolveError::MissingField { field: String::from_str("cwd") });
                },
            };
            let path = join_path(cwd.as_str(), clean.as_str());
            if is_files {
                Ok(ProviderExtended::Files(path))
            } else {
                Ok(ProviderExtended::Filer(path))
            }
        } else if is_blines {
            let lnum = match extract_blines_lnum(clean.as_str()) {
                Some(n) => n,
                None => {
                    return Err(
                        ResolveError::ExtractFailure { provider_id, line: clean },
                    );
                },
            };
            match &msg.params.source_fpath {
                Some(p) => Ok(ProviderExtended::BLines { path: p.clone(), lnum }),
                None => Err(
                    ResolveError::MissingField { field: String::from_str("source_fpath") },
                ),
            }
        } else if is_tags {
            let lnum = match extract_buf_tags_lnum(clean.as_str()) {
                Some(n) => n,
                None => {
                    return Err(
                        ResolveError::ExtractFailure { provider_id, line: clean },
                    );
                },
            };
            match &msg.params.source_fpath {
                Some(p) => Ok(ProviderExtended::BufferTags { path: p.clone(), lnum }),
                None => Err(
                    ResolveError::MissingField { field: String::from_str("source_fpath") },
                ),
            }
        } else if is_proj_tags {
            let (lnum, rel) = match extract_proj_tags(clean.as_str()) {
                Some(t) => t,
                None => {
                    return Err(
                        ResolveError::ExtractFailure { provider_id, line: clean },
                    );
                },
            };
            match &msg.params.cwd {
                Some(cwd) => {
                    let path = join_path(cwd.as_str(), rel.as_str());
                    Ok(ProviderExtended::ProjTags { path, lnum })
                },
                None => Err(ResolveError::MissingField { field: String::from_str("cwd") }),
            }
        } else {
            let (rel, lnum, _col) = match extract_grep_position(clean.as_str()) {
                Some(t) => t,
                None => {
                    return Err(
                        ResolveError::ExtractFailure { provider_id, line: clean },
                    );
                },
            };
            match &msg.params.cwd {
                Some(cwd) => {
                    let path = join_path(cwd.as_str(), rel.as_str());
                    Ok(ProviderExtended::Grep { path, lnum })
                },
                None => Err(ResolveError::MissingField { field: String::from_str("cwd") }),
            }
        }
    }
}

} // verus!
