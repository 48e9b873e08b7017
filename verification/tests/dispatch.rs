use maple_rpc::filer::FsEntry;
use maple_rpc::framing::frame_message;
use maple_rpc::message::{classify_method, Method, UnknownMethodError};
use maple_rpc::on_init::{InitAction, OnInitHandler};
use maple_rpc::on_typed::{OnTypedHandler, TypedAction};
use maple_rpc::response::Response;
use maple_rpc::text::usize_to_string;
use maple_rpc::types::ResolveError;

fn strings(items: &[&str]) -> Vec<String> {
    items.iter().map(|s| String::from(*s)).collect()
}

#[test]
fn methods_classify_exactly() {
    assert_eq!(classify_method("initialize_global_env"), Method::InitializeGlobalEnv);
    assert_eq!(classify_method("client.on_init"), Method::ClientOnInit);
    assert_eq!(classify_method("client.on_typed"), Method::ClientOnTyped);
    assert_eq!(classify_method("client.on_move"), Method::ClientOnMove);
    assert_eq!(classify_method("client.on_hover"), Method::Unrecognized);
    assert_eq!(classify_method(""), Method::Unrecognized);
}

#[test]
fn unknown_method_error_names_the_method() {
    let e = UnknownMethodError { method: String::from("client.on_hover") };
    assert_eq!(e.message(), "unknown method: client.on_hover");
}

#[test]
fn decimal_rendering() {
    assert_eq!(usize_to_string(0), "0");
    assert_eq!(usize_to_string(7), "7");
    assert_eq!(usize_to_string(10), "10");
    assert_eq!(usize_to_string(12345), "12345");
}

#[test]
fn frames_carry_the_byte_length_of_their_body() {
    assert_eq!(frame_message("abc"), "Content-length: 3\n\nabc");
    assert_eq!(frame_message(""), "Content-length: 0\n\n");
    let body = "{\"id\": 1}";
    assert_eq!(frame_message(body), format!("Content-length: {}\n\n{}", body.len(), body));
}

#[test]
fn frame_length_counts_bytes_not_characters() {
    // a two-byte character: the header must say 2, not 1
    assert_eq!(frame_message("\u{e9}"), "Content-length: 2\n\n\u{e9}");
}

fn init_handler(provider: &str, source_cmd: Option<&str>) -> OnInitHandler {
    OnInitHandler {
        msg_id: 8,
        provider_id: String::from(provider),
        cwd: String::from("/work"),
        source_cmd: source_cmd.map(String::from),
    }
}

#[test]
fn on_init_routes_by_provider() {
    assert!(matches!(init_handler("filer", None).handle(), Ok(InitAction::ListDir)));
    match init_handler("files", Some("fd --type f")).handle() {
        Ok(InitAction::RunSource { cmd }) => assert_eq!(cmd, "fd --type f"),
        _ => panic!("expected a run-source action"),
    }
    match init_handler("files", None).handle() {
        Err(ResolveError::MissingField { field }) => assert_eq!(field, "source_cmd"),
        _ => panic!("expected a missing-field error"),
    }
    assert!(matches!(init_handler("grep", None).handle(), Ok(InitAction::Ignore)));
    assert!(matches!(init_handler("blines", None).handle(), Ok(InitAction::Ignore)));
    match init_handler("mystery", None).handle() {
        Err(ResolveError::UnknownProvider { provider_id }) => assert_eq!(provider_id, "mystery"),
        _ => panic!("expected an unknown-provider error"),
    }
}

#[test]
fn on_init_filer_listing_response() {
    let h = init_handler("filer", None);
    let entries = vec![
        FsEntry { name: String::from("b.rs"), is_dir: false, icon: String::from("i ") },
        FsEntry { name: String::from("a"), is_dir: true, icon: String::from("i ") },
    ];
    match h.handle_filer(Ok(entries), false) {
        Response::FilerEntries { id, provider_id, dir, total, entries } => {
            assert_eq!(id, 8);
            assert_eq!(provider_id, "filer");
            assert_eq!(dir, "/work");
            assert_eq!(total, 2);
            assert_eq!(entries, strings(&["a/", "b.rs"]));
        }
        _ => panic!("expected a listing response"),
    }
}

#[test]
fn on_init_filer_error_response_names_the_dir() {
    let h = init_handler("filer", None);
    match h.handle_filer(Err(String::from("permission denied")), false) {
        Response::ProviderError { id, provider_id, message, dir } => {
            assert_eq!(id, 8);
            assert_eq!(provider_id, "filer");
            assert_eq!(message, "permission denied");
            assert_eq!(dir, "/work");
        }
        _ => panic!("expected an error response"),
    }
}

#[test]
fn on_init_files_wraps_the_source_lines() {
    let h = init_handler("files", Some("fd"));
    match h.handle_files(strings(&["x.rs", "y.rs"])) {
        Response::InitLines { id, provider_id, lines } => {
            assert_eq!(id, 8);
            assert_eq!(provider_id, "files");
            assert_eq!(lines, strings(&["x.rs", "y.rs"]));
        }
        _ => panic!("expected a lines response"),
    }
}

#[test]
fn on_typed_only_serves_the_filer_provider() {
    let h = OnTypedHandler {
        msg_id: 1,
        provider_id: String::from("filer"),
        cwd: String::from("/w"),
        source_cmd: None,
    };
    assert!(matches!(h.handle(), Ok(TypedAction::ListDir)));
    let h = OnTypedHandler {
        msg_id: 1,
        provider_id: String::from("grep"),
        cwd: String::from("/w"),
        source_cmd: None,
    };
    match h.handle() {
        Err(ResolveError::UnknownProvider { provider_id }) => assert_eq!(provider_id, "grep"),
        _ => panic!("expected an unknown-provider error"),
    }
}

#[test]
fn on_typed_filer_relists_under_its_own_provider_id() {
    let h = OnTypedHandler {
        msg_id: 21,
        provider_id: String::from("filer"),
        cwd: String::from("/dir"),
        source_cmd: None,
    };
    let entries = vec![FsEntry {
        name: String::from("only"),
        is_dir: false,
        icon: String::from("i "),
    }];
    match h.handle_filer(Ok(entries), true) {
        Response::FilerEntries { id, provider_id, dir, total, entries } => {
            assert_eq!(id, 21);
            assert_eq!(provider_id, "filer");
            assert_eq!(dir, "/dir");
            assert_eq!(total, 1);
            assert_eq!(entries, strings(&["i only"]));
        }
        _ => panic!("expected a listing response"),
    }
}

#[test]
fn responses_echo_their_request_id() {
    let r = Response::MethodError { id: 123, message: String::from("m") };
    assert_eq!(r.id(), 123);
    let r = Response::InitLines {
        id: 9,
        provider_id: String::from("files"),
        lines: Vec::new(),
    };
    assert_eq!(r.id(), 9);
}
