use maple_rpc::extract::{extract_blines_lnum, extract_buf_tags_lnum, extract_grep_position,
    extract_proj_tags, join_path, strip_leading_icon};
use maple_rpc::message::{Message, Params};
use maple_rpc::types::{has_icon_support, should_skip_leading_icon, ProviderExtended, ResolveError};

fn params_with(provider_id: &str, cwd: &str, curline: &str) -> Params {
    Params {
        provider_id: Some(String::from(provider_id)),
        cwd: Some(String::from(cwd)),
        curline: Some(String::from(curline)),
        source_fpath: None,
        source_cmd: None,
        enable_icon: None,
        is_nvim: None,
        preview_size: None,
    }
}

fn message_with(provider_id: &str, cwd: &str, curline: &str) -> Message {
    Message {
        method: String::from("client.on_move"),
        params: params_with(provider_id, cwd, curline),
        id: 77,
    }
}

#[test]
fn grep_line_resolves_to_path_line_column() {
    let r = extract_grep_position("install.sh:1:5:#!/usr/bin/env bash").unwrap();
    assert_eq!(r.0, "install.sh");
    assert_eq!(r.1, 1);
    assert_eq!(r.2, 5);
}

#[test]
fn grep_path_may_contain_colons() {
    let r = extract_grep_position("a:1:2:3:rest").unwrap();
    assert_eq!(r.0, "a:1");
    assert_eq!(r.1, 2);
    assert_eq!(r.2, 3);
}

#[test]
fn grep_without_position_fails() {
    assert!(extract_grep_position("no position here").is_none());
    assert!(extract_grep_position("only:one:1").is_none());
    assert!(extract_grep_position("").is_none());
}

#[test]
fn grep_overflowing_line_number_fails() {
    assert!(extract_grep_position("f:99999999999999999999999999:1:x").is_none());
}

#[test]
fn blines_leading_number() {
    assert_eq!(extract_blines_lnum("42 some buffer line"), Some(42));
    assert_eq!(extract_blines_lnum("  7 indented"), Some(7));
    assert_eq!(extract_blines_lnum("no number"), None);
    assert_eq!(extract_blines_lnum("42"), None);
    assert_eq!(extract_blines_lnum(""), None);
}

#[test]
fn buf_tags_locator() {
    assert_eq!(extract_buf_tags_lnum("handle:99 [method]"), Some(99));
    assert_eq!(extract_buf_tags_lnum("a:b:12"), Some(12));
    assert_eq!(extract_buf_tags_lnum("no locator"), None);
    assert_eq!(extract_buf_tags_lnum("colon: but no digit"), None);
}

#[test]
fn proj_tags_lnum_and_path() {
    let r = extract_proj_tags("run_forever:89 [fn@src/cmd/rpc/mod.rs] pub fn run_forever").unwrap();
    assert_eq!(r.0, 89);
    assert_eq!(r.1, "src/cmd/rpc/mod.rs");
    assert!(extract_proj_tags("name without locator").is_none());
    assert!(extract_proj_tags("name:12 no bracket").is_none());
}

#[test]
fn stripping_is_safe_on_short_lines() {
    assert_eq!(strip_leading_icon(""), "");
    assert_eq!(strip_leading_icon("x"), "");
    assert_eq!(strip_leading_icon("ab"), "");
    assert_eq!(strip_leading_icon("i file.rs"), "file.rs");
}

#[test]
fn icon_support_is_denied_to_numeric_prefixed_providers() {
    assert!(!has_icon_support("proj_tags"));
    assert!(!has_icon_support("blines"));
    assert!(has_icon_support("files"));
    assert!(has_icon_support("filer"));
    assert!(has_icon_support("grep"));
    assert!(has_icon_support("tags"));
}

#[test]
fn stripping_applies_iff_icons_enabled_except_exempt_providers() {
    for provider in ["files", "filer", "grep", "grep2", "tags"] {
        assert!(should_skip_leading_icon(provider, true));
        assert!(!should_skip_leading_icon(provider, false));
    }
    for provider in ["proj_tags", "blines"] {
        assert!(!should_skip_leading_icon(provider, true));
        assert!(!should_skip_leading_icon(provider, false));
    }
}

#[test]
fn join_path_handles_absolute_and_relative() {
    assert_eq!(join_path("/home/u", "file.rs"), "/home/u/file.rs");
    assert_eq!(join_path("/home/u/", "file.rs"), "/home/u/file.rs");
    assert_eq!(join_path("/home/u", "/abs/file.rs"), "/abs/file.rs");
    assert_eq!(join_path("", "file.rs"), "file.rs");
}

#[test]
fn resolve_files_joins_cwd() {
    let msg = message_with("files", "/work", "src/lib.rs");
    match ProviderExtended::try_from(&msg, false).unwrap() {
        ProviderExtended::Files(path) => assert_eq!(path, "/work/src/lib.rs"),
        _ => panic!("expected a files target"),
    }
}

#[test]
fn resolve_files_strips_icon_when_enabled() {
    let msg = message_with("files", "/work", "i src/lib.rs");
    match ProviderExtended::try_from(&msg, true).unwrap() {
        ProviderExtended::Files(path) => assert_eq!(path, "/work/src/lib.rs"),
        _ => panic!("expected a files target"),
    }
}

#[test]
fn resolve_grep_line() {
    let msg = message_with("grep", "/repo", "install.sh:1:5:#!/usr/bin/env bash");
    match ProviderExtended::try_from(&msg, false).unwrap() {
        ProviderExtended::Grep { path, lnum } => {
            assert_eq!(path, "/repo/install.sh");
            assert_eq!(lnum, 1);
        }
        _ => panic!("expected a grep target"),
    }
}

#[test]
fn resolve_blines_uses_source_fpath_and_never_strips() {
    let mut params = params_with("blines", "/repo", "12 the line text");
    params.source_fpath = Some(String::from("/repo/buffer.txt"));
    let msg = Message { method: String::from("client.on_move"), params, id: 3 };
    match ProviderExtended::try_from(&msg, true).unwrap() {
        ProviderExtended::BLines { path, lnum } => {
            assert_eq!(path, "/repo/buffer.txt");
            assert_eq!(lnum, 12);
        }
        _ => panic!("expected a buffer-lines target"),
    }
}

#[test]
fn resolve_proj_tags_never_strips() {
    let msg = message_with("proj_tags", "/repo", "run:89 [fn@src/mod.rs] text");
    match ProviderExtended::try_from(&msg, true).unwrap() {
        ProviderExtended::ProjTags { path, lnum } => {
            assert_eq!(path, "/repo/src/mod.rs");
            assert_eq!(lnum, 89);
        }
        _ => panic!("expected a project-tags target"),
    }
}

#[test]
fn grep2_resolves_like_grep() {
    let msg = message_with("grep2", "/repo", "lib.rs:7:2:use foo;");
    match ProviderExtended::try_from(&msg, false).unwrap() {
        ProviderExtended::Grep { path, lnum } => {
            assert_eq!(path, "/repo/lib.rs");
            assert_eq!(lnum, 7);
        }
        _ => panic!("expected a grep target"),
    }
}

#[test]
fn resolve_unknown_provider_is_an_error() {
    let msg = message_with("nonsense", "/repo", "whatever");
    match ProviderExtended::try_from(&msg, false) {
        Err(ResolveError::UnknownProvider { provider_id }) => {
            assert_eq!(provider_id, "nonsense");
        }
        _ => panic!("expected an unknown-provider error"),
    }
}

#[test]
fn resolve_missing_provider_id_is_an_error() {
    let mut params = params_with("files", "/repo", "x");
    params.provider_id = None;
    let msg = Message { method: String::from("client.on_move"), params, id: 1 };
    match ProviderExtended::try_from(&msg, false) {
        Err(ResolveError::UnknownProvider { provider_id }) => {
            assert_eq!(provider_id, "Unknown provider id");
        }
        _ => panic!("expected an unknown-provider error"),
    }
}

#[test]
fn resolve_missing_curline_is_an_error() {
    let mut params = params_with("files", "/repo", "x");
    params.curline = None;
    let msg = Message { method: String::from("client.on_move"), params, id: 1 };
    match ProviderExtended::try_from(&msg, false) {
        Err(ResolveError::MissingField { field }) => assert_eq!(field, "curline"),
        _ => panic!("expected a missing-field error"),
    }
}

#[test]
fn resolve_bad_grep_line_is_a_distinct_error() {
    let msg = message_with("grep", "/repo", "not a grep line");
    match ProviderExtended::try_from(&msg, false) {
        Err(ResolveError::ExtractFailure { provider_id, line }) => {
            assert_eq!(provider_id, "grep");
            assert_eq!(line, "not a grep line");
        }
        _ => panic!("expected an extract-failure error"),
    }
}

#[test]
fn resolve_blines_missing_source_fpath() {
    let msg = message_with("blines", "/repo", "12 text");
    match ProviderExtended::try_from(&msg, false) {
        Err(ResolveError::MissingField { field }) => assert_eq!(field, "source_fpath"),
        _ => panic!("expected a missing-field error"),
    }
}

#[test]
fn resolve_error_messages_name_the_cause() {
    let e = ResolveError::UnknownProvider { provider_id: String::from("zzz") };
    assert_eq!(e.message(), "unknown provider id: zzz");
    let e = ResolveError::MissingField { field: String::from("cwd") };
    assert_eq!(e.message(), "missing field: cwd");
    let e = ResolveError::ExtractFailure {
        provider_id: String::from("grep"),
        line: String::from("oops"),
    };
    assert_eq!(e.message(), "couldn't extract a position for provider grep from line: oops");
}
