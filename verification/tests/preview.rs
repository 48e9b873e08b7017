use maple_rpc::filer::FsEntry;
use maple_rpc::on_move::{apply_preview_file, apply_preview_file_at, preview_directory,
    OnMoveHandler, PreviewAction};
use maple_rpc::message::{Message, Params};
use maple_rpc::response::Response;
use maple_rpc::session::{GlobalEnv, PreviewSize};
use maple_rpc::types::ProviderExtended;

fn strings(items: &[&str]) -> Vec<String> {
    items.iter().map(|s| String::from(*s)).collect()
}

fn file_lines() -> Vec<String> {
    strings(&["l1", "l2", "l3", "l4", "l5", "l6", "l7", "l8", "l9", "l10"])
}

#[test]
fn positioned_preview_highlights_the_target_line() {
    let path = String::from("/repo/file.rs");
    let provider = String::from("grep");
    let lines = file_lines();
    let r = apply_preview_file_at(&path, 6, 5, 42, &provider, &lines);
    match r {
        Response::PreviewFileAt { id, provider_id, lines, fname, hi_lnum } => {
            assert_eq!(id, 42);
            assert_eq!(provider_id, "grep");
            assert_eq!(fname, "/repo/file.rs");
            // at most size lines besides the synthetic path entry
            assert!(lines.len() <= 5 + 1);
            assert_eq!(lines[0], "/repo/file.rs");
            // the highlighted index picks the line that carries line 6
            assert_eq!(lines[hi_lnum], "l6");
        }
        _ => panic!("expected a positioned preview"),
    }
}

#[test]
fn positioned_preview_near_the_top_is_clamped() {
    let path = String::from("f");
    let provider = String::from("grep");
    let lines = file_lines();
    let r = apply_preview_file_at(&path, 1, 5, 1, &provider, &lines);
    match r {
        Response::PreviewFileAt { lines, hi_lnum, .. } => {
            assert_eq!(lines, strings(&["f", "l1", "l2", "l3", "l4", "l5"]));
            assert_eq!(hi_lnum, 1);
        }
        _ => panic!("expected a positioned preview"),
    }
}

#[test]
fn positioned_preview_stops_at_end_of_file() {
    let path = String::from("f");
    let provider = String::from("grep");
    let lines = strings(&["only", "two"]);
    let r = apply_preview_file_at(&path, 2, 8, 1, &provider, &lines);
    match r {
        Response::PreviewFileAt { lines, hi_lnum, .. } => {
            assert_eq!(lines, strings(&["f", "only", "two"]));
            assert_eq!(lines[hi_lnum], "two");
        }
        _ => panic!("expected a positioned preview"),
    }
}

#[test]
fn whole_file_preview_takes_the_head_with_provenance() {
    let path = String::from("/abs/file.rs");
    let provider = String::from("files");
    let r = apply_preview_file(&path, 3, 9, &provider, file_lines());
    match r {
        Response::PreviewFile { id, provider_id, lines, fname } => {
            assert_eq!(id, 9);
            assert_eq!(provider_id, "files");
            assert_eq!(fname, "/abs/file.rs");
            assert_eq!(lines, strings(&["/abs/file.rs", "l1", "l2", "l3"]));
        }
        _ => panic!("expected a whole-file preview"),
    }
}

#[test]
fn short_file_preview_is_not_an_error() {
    let path = String::from("f");
    let provider = String::from("files");
    let r = apply_preview_file(&path, 50, 9, &provider, strings(&["a", "b"]));
    match r {
        Response::PreviewFile { lines, .. } => {
            assert_eq!(lines, strings(&["f", "a", "b"]));
        }
        _ => panic!("expected a whole-file preview"),
    }
}

#[test]
fn directory_preview_lists_sorted_and_limited() {
    let entries = vec![
        FsEntry { name: String::from("b"), is_dir: false, icon: String::from("i ") },
        FsEntry { name: String::from("d"), is_dir: true, icon: String::from("i ") },
        FsEntry { name: String::from("a"), is_dir: false, icon: String::from("i ") },
    ];
    let provider = String::from("filer");
    let r = preview_directory(entries, 2, false, 4, &provider);
    match r {
        Response::PreviewDir { id, provider_id, lines } => {
            assert_eq!(id, 4);
            assert_eq!(provider_id, "filer");
            assert_eq!(lines, strings(&["a", "b"]));
        }
        _ => panic!("expected a directory preview"),
    }
}

fn filer_handler(size: usize) -> OnMoveHandler {
    OnMoveHandler {
        msg_id: 11,
        provider_id: String::from("filer"),
        size,
        which_move: ProviderExtended::Filer(String::from("/work/thing")),
    }
}

#[test]
fn filer_directory_and_file_previews_diverge_but_share_the_id() {
    let h = filer_handler(4);
    match h.handle(true) {
        PreviewAction::PreviewDirectory { path, size } => {
            assert_eq!(path, "/work/thing");
            assert_eq!(size, 8);
            let r = preview_directory(Vec::new(), size, false, h.msg_id, &h.provider_id);
            match r {
                Response::PreviewDir { id, .. } => assert_eq!(id, 11),
                _ => panic!("expected a directory preview"),
            }
        }
        _ => panic!("expected a directory plan"),
    }
    match h.handle(false) {
        PreviewAction::PreviewWholeFile { path, size } => {
            assert_eq!(path, "/work/thing");
            assert_eq!(size, 8);
            let abs = String::from("/work/thing");
            let r = apply_preview_file(&abs, size, h.msg_id, &h.provider_id, Vec::new());
            match r {
                Response::PreviewFile { id, .. } => assert_eq!(id, 11),
                _ => panic!("expected a whole-file preview"),
            }
        }
        _ => panic!("expected a whole-file plan"),
    }
}

#[test]
fn whole_file_doubling_saturates_instead_of_overflowing() {
    let h = filer_handler(usize::MAX);
    match h.handle(false) {
        PreviewAction::PreviewWholeFile { size, .. } => assert_eq!(size, usize::MAX),
        _ => panic!("expected a whole-file plan"),
    }
}

#[test]
fn positioned_targets_use_the_configured_size_undoubled() {
    let h = OnMoveHandler {
        msg_id: 2,
        provider_id: String::from("grep"),
        size: 6,
        which_move: ProviderExtended::Grep { path: String::from("/r/f"), lnum: 30 },
    };
    match h.handle(false) {
        PreviewAction::PreviewFileAt { path, lnum, size } => {
            assert_eq!(path, "/r/f");
            assert_eq!(lnum, 30);
            assert_eq!(size, 6);
        }
        _ => panic!("expected a positioned plan"),
    }
}

#[test]
fn from_message_reads_the_provider_size_from_the_config() {
    let msg = Message {
        method: String::from("client.on_move"),
        params: Params {
            provider_id: Some(String::from("grep")),
            cwd: Some(String::from("/repo")),
            curline: Some(String::from("src/x.rs:3:1:fn x")),
            source_fpath: None,
            source_cmd: None,
            enable_icon: None,
            is_nvim: None,
            preview_size: None,
        },
        id: 5,
    };
    let env = GlobalEnv::new(false, false, PreviewSize::Number(12));
    let h = OnMoveHandler::from_message(&msg, &env).unwrap();
    assert_eq!(h.msg_id, 5);
    assert_eq!(h.provider_id, "grep");
    assert_eq!(h.size, 12);
    match h.which_move {
        ProviderExtended::Grep { path, lnum } => {
            assert_eq!(path, "/repo/src/x.rs");
            assert_eq!(lnum, 3);
        }
        _ => panic!("expected a grep target"),
    }
}
