//! Handling a cursor-move request: decide which preview to compute for the
//! resolved target, and build the preview responses from fetched data.
//!
//! The filesystem work in between — reading a file's lines, statting a
//! path, listing a directory — happens outside; `handle` says what to fetch
//! and the `apply_*`/`preview_*` functions turn the fetched data into the
//! response.

use vstd::prelude::*;
use crate::filer::{FsEntry, listing, read_dir_entries};
use crate::message::Message;
use crate::response::Response;
use crate::session::{GlobalEnv, preview_size_spec};
use crate::types::{ProviderExtended, ResolveError, ResolutionSpec, failure_matches,
    msg_provider_id, resolve_spec, target_matches};

verus! {

/// Doubling with saturation: whole-file peeks use twice the window of
/// positioned previews.
pub open spec fn double_sat(n: usize) -> usize {
    if n <= usize::MAX / 2 {
        (2 * n) as usize
    } else {
        usize::MAX
    }
}

fn double_size(n: usize) -> (r: usize)
    ensures
        r == double_sat(n),
{
    if n <= usize::MAX / 2 {
        2 * n
    } else {
        usize::MAX
    }
}

/// First line (0-based) of a window of `n` lines centered near 1-based line
/// `lnum`: half the window before the target, clamped at the file start.
pub open spec fn window_start(lnum: int, n: int) -> int {
    if lnum - 1 - n / 2 > 0 {
        lnum - 1 - n / 2
    } else {
        0
    }
}

/// The window itself: at most `n` lines of the file, stopping at its end.
pub open spec fn window_of(file: Seq<Seq<char>>, lnum: int, n: int) -> Seq<Seq<char>> {
    let s = window_start(lnum, n);
    if s >= file.len() {
        Seq::empty()
    } else {
        file.subrange(
            s,
            if s + n <= file.len() {
                s + n
            } else {
                file.len() as int
            },
        )
    }
}

/// Offset of the target line within the window.
pub open spec fn window_hi(lnum: int, n: int) -> int {
    if lnum >= 1 {
        lnum - 1 - window_start(lnum, n)
    } else {
        0
    }
}

/// A window around line `lnum` holds at most `n` lines, and its highlighted
/// offset indexes the line that carries `lnum` whenever the file reaches
/// that line. (With `n == 0` the window is empty and there is nothing to
/// highlight.)
pub proof fn lemma_window_highlight(file: Seq<Seq<char>>, lnum: int, n: int)
    requires
        1 <= lnum <= file.len(),
        n >= 1,
    ensures
        window_of(file, lnum, n).len() <= n,
        0 <= window_hi(lnum, n) < window_of(file, lnum, n).len(),
        window_of(file, lnum, n)[window_hi(lnum, n)] == file[lnum - 1],
{
}

/// The same guarantee at the response level: in the lines a positioned
/// preview returns — the path first, then the window — the highlighted
/// index picks out exactly the file line that carries `lnum`.
pub proof fn lemma_preview_highlight(path: Seq<char>, file: Seq<Seq<char>>, lnum: int, n: int)
    requires
        1 <= lnum <= file.len(),
        n >= 1,
    ensures
        (seq![path] + window_of(file, lnum, n)).len() <= n + 1,
        0 < window_hi(lnum, n) + 1 < (seq![path] + window_of(file, lnum, n)).len(),
        (seq![path] + window_of(file, lnum, n))[window_hi(lnum, n) + 1] == file[lnum - 1],
{
    lemma_window_highlight(file, lnum, n);
}

/// Extracts the preview window around `lnum` and its highlighted offset.
fn file_window(lines: &Vec<String>, lnum: usize, n: usize) -> (r: (Vec<String>, usize))
    ensures
        r.0.deep_view() == window_of(lines.deep_view(), lnum as int, n as int),
        r.1 as int == window_hi(lnum as int, n as int),
{
    let len = lines.len();
    let half = n / 2;
    let start = if lnum > half + 1 {
        lnum - 1 - half
    } else {
        0
    };
    let mut out: Vec<String> = Vec::new();
    if start < len {
        let remaining = len - start;
        let count = if n <= remaining {
            n
        } else {
            remaining
        };
        let mut i: usize = start;
        while i < start + count
            invariant
                start <= i <= start + count,
                start + count <= len,
                len == lines@.len(),
                out.deep_view() =~= lines.deep_view().subrange(start as int, i as int),
            decreases start + count - i,
        {
            let ghost old_dv = out.deep_view();
            out.push(lines[i].clone());
            proof {
                assert(out.deep_view() =~= old_dv.push(lines.deep_view()[i as int]));
                assert(out.deep_view() =~= lines.deep_view().subrange(start as int, i + 1 as int));
            }
            i = i + 1;
        }
    }
    let hi = if lnum >= 1 {
        lnum - 1 - start
    } else {
        0
    };
    proof {
        assert(out.deep_view() =~= window_of(lines.deep_view(), lnum as int, n as int));
    }
    (out, hi)
}

/// Builds the response for a positioned preview: the path as a synthetic
/// first line, then the window around `lnum`, with the highlighted index
/// counted within the returned lines.
pub fn apply_preview_file_at(
    path: &String,
    lnum: usize,
    size: usize,
    msg_id: u64,
    provider_id: &String,
    file_lines: &Vec<String>,
) -> (r: Response)
    ensures
        match r {
            Response::PreviewFileAt { id, provider_id: rp, lines, fname, hi_lnum } => {
                &&& id == msg_id
                &&& rp@ == provider_id@
                &&& fname@ == path@
                &&& lines.deep_view() == seq![path@] + window_of(
                    file_lines.deep_view(),
                    lnum as int,
                    size as int,
                )
                &&& hi_lnum as int == window_hi(lnum as int, size as int) + 1
            },
            _ => false,
        },
{
    let (mut w, hi) = file_window(file_lines, lnum, size);
    let mut lines: Vec<String> = Vec::new();
    lines.push(path.clone());
    lines.append(&mut w);
    proof {
        assert(lines.deep_view() =~= seq![path@] + window_of(
            file_lines.deep_view(),
            lnum as int,
            size as int,
        ));
    }
    Response::PreviewFileAt {
        id: msg_id,
        provider_id: provider_id.clone(),
        lines,
        fname: path.clone(),
        hi_lnum: hi + 1,
    }
}

/// The lines a whole-file preview shows of a file: the first `n`.
pub open spec fn head_of(file: Seq<Seq<char>>, n: int) -> Seq<Seq<char>> {
    file.take(
        if n <= file.len() {
            n
        } else {
            file.len() as int
        },
    )
}

/// Builds the response for a whole-file preview: the absolute path as a
/// synthetic first line, then the first `size` lines of the file.
pub fn apply_preview_file(
    abs_path: &String,
    size: usize,
    msg_id: u64,
    provider_id: &String,
    file_lines: Vec<String>,
) -> (r: Response)
    ensures
        match r {
            Response::PreviewFile { id, provider_id: rp, lines, fname } => {
                &&& id == msg_id
                &&& rp@ == provider_id@
                &&& fname@ == abs_path@
                &&& lines.deep_view() == seq![abs_path@] + head_of(
                    file_lines.deep_view(),
                    size as int,
                )
            },
            _ => false,
        },
{
    let ghost file_dv = file_lines.deep_view();
    let mut w = file_lines;
    if size < w.len() {
        w.truncate(size);
    }
    proof {
        assert(w.deep_view() =~= head_of(file_dv, size as int));
    }
    let mut lines: Vec<String> = Vec::new();
    lines.push(abs_path.clone());
    lines.append(&mut w);
    proof {
        assert(lines.deep_view() =~= seq![abs_path@] + head_of(file_dv, size as int));
    }
    Response::PreviewFile {
        id: msg_id,
        provider_id: provider_id.clone(),
        lines,
        fname: abs_path.clone(),
    }
}

/// Builds the response for a directory preview: the sorted listing,
/// truncated to `size` entries.
pub fn preview_directory(
    entries: Vec<FsEntry>,
    size: usize,
    enable_icon: bool,
    msg_id: u64,
    provider_id: &String,
) -> (r: Response)
    ensures
        match r {
            Response::PreviewDir { id, provider_id: rp, lines } => {
                &&& id == msg_id
                &&& rp@ == provider_id@
                &&& lines.deep_view() == listing(entries@, enable_icon, Some(size))
            },
            _ => false,
        },
{
    let lines = read_dir_entries(entries, enable_icon, Some(size));
    Response::PreviewDir { id: msg_id, provider_id: provider_id.clone(), lines }
}

/// What a cursor-move request asks the surrounding process to fetch and
/// show.
pub enum PreviewAction {
    /// Read the file and show a window around `lnum`.
    PreviewFileAt { path: String, lnum: usize, size: usize },
    /// Read the file and show its first `size` lines.
    PreviewWholeFile { path: String, size: usize },
    /// List the directory and show `size` entries.
    PreviewDirectory { path: String, size: usize },
}

/// One cursor-move request: its id, provider, configured window size and the
/// resolved target.
pub struct OnMoveHandler {
    pub msg_id: u64,
    pub provider_id: String,
    pub size: usize,
    pub which_move: ProviderExtended,
}

/// The preview each target calls for. Targets with a line number get a
/// positioned window of `size` lines; whole-file and directory previews get
/// twice that.
pub open spec fn plan_of(h: OnMoveHandler, filer_is_dir: bool) -> PreviewAction {
    match h.which_move {
        ProviderExtended::BLines { path, lnum } => PreviewAction::PreviewFileAt {
            path,
            lnum,
            size: h.size,
        },
        ProviderExtended::Grep { path, lnum } => PreviewAction::PreviewFileAt {
            path,
            lnum,
            size: h.size,
        },
        ProviderExtended::ProjTags { path, lnum } => PreviewAction::PreviewFileAt {
            path,
            lnum,
            size: h.size,
        },
        ProviderExtended::BufferTags { path, lnum } => PreviewAction::PreviewFileAt {
            path,
            lnum,
            size: h.size,
        },
        ProviderExtended::Files(path) => PreviewAction::PreviewWholeFile {
            path,
            size: double_sat(h.size),
        },
        ProviderExtended::Filer(path) => if filer_is_dir {
            PreviewAction::PreviewDirectory { path, size: double_sat(h.size) }
        } else {
            PreviewAction::PreviewWholeFile { path, size: double_sat(h.size) }
        },
    }
}

impl OnMoveHandler {
    /// Builds the handler for a cursor-move message: the id, the provider,
    /// the provider's configured preview size, and the resolved target.
    pub fn from_message(msg: &Message, env: &GlobalEnv) -> (r: Result<OnMoveHandler, ResolveError>)
        ensures
            match r {
                Ok(h) => {
                    &&& h.msg_id == msg.id
                    &&& h.provider_id@ == msg_provider_id(*msg)
                    &&& h.size == preview_size_spec(env.preview_size, msg_provider_id(*msg))
                    &&& match resolve_spec(*msg, env.enable_icon) {
                        ResolutionSpec::Target(t) => target_matches(t, h.which_move),
                        ResolutionSpec::Failure(_) => false,
                    }
                },
                Err(e) => match resolve_spec(*msg, env.enable_icon) {
                    ResolutionSpec::Target(_) => false,
                    ResolutionSpec::Failure(f) => failure_matches(f, e),
                },
            },
    {
        let provider_id = msg.get_provider_id();
        let size = env.preview_size_of(provider_id.as_str());
        match ProviderExtended::try_from(msg, env.enable_icon) {
            Ok(which_move) => Ok(
                OnMoveHandler { msg_id: msg.get_message_id(), provider_id, size, which_move },
            ),
            Err(e) => Err(e),
        }
    }

    /// Decides the preview for this handler's target. For the filer
    /// provider the decision follows `filer_is_dir`, the caller's filesystem
    /// answer for whether the target path is a directory.
    pub fn handle(&self, filer_is_dir: bool) -> (a: PreviewAction)
        ensures
            a == plan_of(*self, filer_is_dir),
    {
        match &self.which_move {
            ProviderExtended::BLines { path, lnum } => PreviewAction::PreviewFileAt {
                path: path.clone(),
                lnum: *lnum,
                size: self.size,
            },
            ProviderExtended::Grep { path, lnum } => PreviewAction::PreviewFileAt {
                path: path.clone(),
                lnum: *lnum,
                size: self.size,
            },
            ProviderExtended::ProjTags { path, lnum } => PreviewAction::PreviewFileAt {
                path: path.clone(),
                lnum: *lnum,
                size: self.size,
            },
            ProviderExtended::BufferTags { path, lnum } => PreviewAction::PreviewFileAt {
                path: path.clone(),
                lnum: *lnum,
                size: self.size,
            },
            ProviderExtended::Files(path) => PreviewAction::PreviewWholeFile {
                path: path.clone(),
                size: double_size(self.size),
            },
            ProviderExtended::Filer(path) => {
                if filer_is_dir {
                    PreviewAction::PreviewDirectory {
                        path: path.clone(),
                        size: double_size(self.size),
                    }
                } else {
                    PreviewAction::PreviewWholeFile {
                        path: path.clone(),
                        size: double_size(self.size),
                    }
                }
            },
        }
    }
}

/// For the filer provider one target previews two ways: when the path is a
/// directory the plan is a listing, when it is a regular file the plan is a
/// whole-file window — and the response built for either branch carries the
/// handler's request id, by the contracts of `preview_directory` and
/// `apply_preview_file`.
pub proof fn lemma_filer_preview_branches(h: OnMoveHandler, p: String)
    requires
        h.which_move == ProviderExtended::Filer(p),
    ensures
        plan_of(h, true) == (PreviewAction::PreviewDirectory {
            path: p,
            size: double_sat(h.size),
        }),
        plan_of(h, false) == (PreviewAction::PreviewWholeFile {
            path: p,
            size: double_sat(h.size),
        }),
{
}

} // verus!
