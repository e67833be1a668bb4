use dioxus_codemirror::lsp::lsp_message::LspMessage;
use dioxus_codemirror::lsp::lsp_pusher::LspPusher;
use dioxus_codemirror::lsp::lsp_server::LspServer;
use dioxus_codemirror::lsp::lsp_server_async::LspServerAsync;
use dioxus_codemirror::mock_lsp_server::MockLspServer;
use dioxus_codemirror::mock_lsp_server_async::MockLspServerAsync;
use serde_json::Value;

fn parsed(text: &str) -> Value {
    serde_json::from_str(text).unwrap()
}

#[test]
fn mock_initialize_gets_capabilities() {
    let mut server = MockLspServer::default();
    let request = r#"{"jsonrpc":"2.0","id":1,"method":"initialize","params":{}}"#;
    let replies = server.lsp_message_handle(LspMessage::new(request));
    assert_eq!(replies.len(), 1);
    assert_eq!(
        parsed(replies[0].json()),
        parsed(
            r#"{"jsonrpc":"2.0","id":1,"result":{"capabilities":{"textDocumentSync":1,"hoverProvider":true},"serverInfo":{"name":"mock-lsp","version":"0.1.0"}}}"#
        )
    );
    assert_eq!(server.log.len(), 2);
    assert_eq!(server.log[0], format!("--> {request}"));
    assert_eq!(server.log[1], format!("<-- {}", replies[0].json()));
}

#[test]
fn mock_hover_and_unknown_requests() {
    let mut server = MockLspServer::default();
    let hover = server.lsp_message_handle(LspMessage::new(
        r#"{"jsonrpc":"2.0","id":"h","method":"textDocument/hover","params":{}}"#,
    ));
    assert_eq!(
        parsed(hover[0].json()),
        parsed(
            r#"{"jsonrpc":"2.0","id":"h","result":{"contents":{"kind":"markdown","value":"**mock hover** -- response from the in-page LSP"}}}"#
        )
    );
    let other = server.lsp_message_handle(LspMessage::new(r#"{"jsonrpc":"2.0","id":7,"method":"shutdown"}"#));
    assert_eq!(parsed(other[0].json()), parsed(r#"{"jsonrpc":"2.0","id":7,"result":null}"#));
}

#[test]
fn mock_notifications_get_no_reply() {
    let mut server = MockLspServer::default();
    assert!(server
        .lsp_message_handle(LspMessage::new(r#"{"jsonrpc":"2.0","method":"initialized","params":{}}"#))
        .is_empty());
    assert!(server
        .lsp_message_handle(LspMessage::new(r#"{"jsonrpc":"2.0","id":null,"method":"initialize"}"#))
        .is_empty());
    assert!(server.lsp_message_handle(LspMessage::new("not json")).is_empty());
    assert_eq!(server.log, vec![
        r#"--> {"jsonrpc":"2.0","method":"initialized","params":{}}"#.to_string(),
        r#"--> {"jsonrpc":"2.0","id":null,"method":"initialize"}"#.to_string(),
        "--> not json".to_string(),
    ]);
}

#[test]
fn pusher_delivers_while_receiver_lives() {
    let (pusher, mut rx) = LspPusher::lsp_pusher_new();
    assert!(pusher.lsp_message_push(LspMessage::new("{\"a\":1}")));
    let received = rx.try_next().unwrap().unwrap();
    assert_eq!(received.json(), "{\"a\":1}");
    drop(rx);
    assert!(!pusher.clone().lsp_message_push(LspMessage::new("{}")));
}

#[test]
fn async_mock_pushes_response_and_diagnostics() {
    let (pusher, mut rx) = LspPusher::lsp_pusher_new();
    let mut server = MockLspServerAsync::default();
    server.lsp_pusher_set(pusher);

    server.lsp_message_handle(LspMessage::new(r#"{"jsonrpc":"2.0","id":1,"method":"initialize"}"#));
    let response = rx.try_next().unwrap().unwrap();
    assert_eq!(
        parsed(response.json()),
        parsed(
            r#"{"jsonrpc":"2.0","id":1,"result":{"capabilities":{"textDocumentSync":1,"hoverProvider":true},"serverInfo":{"name":"mock-lsp-async","version":"0.1.0"}}}"#
        )
    );

    let open = r#"{"jsonrpc":"2.0","method":"textDocument/didOpen","params":{"textDocument":{"uri":"file:///async.rs","text":""}}}"#;
    server.lsp_message_handle(LspMessage::new(open));
    let diagnostics = rx.try_next().unwrap().unwrap();
    assert_eq!(
        parsed(diagnostics.json()),
        parsed(
            r#"{"jsonrpc":"2.0","method":"textDocument/publishDiagnostics","params":{"uri":"file:///async.rs","diagnostics":[{"range":{"start":{"line":0,"character":0},"end":{"line":0,"character":2}},"severity":2,"source":"mock-lsp-async","message":"mock diagnostic -- pushed by the async LSP server"}]}}"#
        )
    );
    assert!(rx.try_next().is_err());
    assert_eq!(server.log.len(), 4);
    assert_eq!(server.log[2], format!("--> {open}"));
    assert_eq!(server.log[3], format!("<-- {}", diagnostics.json()));
}

#[test]
fn async_mock_quiet_for_other_notifications() {
    let mut server = MockLspServerAsync::default();
    server.lsp_message_handle(LspMessage::new(
        r#"{"jsonrpc":"2.0","method":"textDocument/didSave","params":{"textDocument":{"uri":"file:///a"}}}"#,
    ));
    assert_eq!(server.log.len(), 1);
    // Without a pusher, nothing is pushed, so nothing is logged as sent.
    let change = r#"{"jsonrpc":"2.0","method":"textDocument/didChange","params":{"textDocument":{"uri":"file:///a\"b"}}}"#;
    server.lsp_message_handle(LspMessage::new(change));
    server.lsp_message_handle(LspMessage::new(r#"{"jsonrpc":"2.0","id":2,"method":"shutdown"}"#));
    assert_eq!(server.log.len(), 3);
    assert!(server.log.iter().all(|line| line.starts_with("--> ")));
    let other = MockLspServerAsync::default();
    assert!(other != server);
    assert!(server.clone() == server);
}

#[test]
fn async_mock_escapes_pushed_uris() {
    let (pusher, mut rx) = LspPusher::lsp_pusher_new();
    let mut server = MockLspServerAsync::default();
    server.lsp_pusher_set(pusher);
    server.lsp_message_handle(LspMessage::new(
        r#"{"jsonrpc":"2.0","method":"textDocument/didChange","params":{"textDocument":{"uri":"file:///a\"b"}}}"#,
    ));
    let diagnostics = rx.try_next().unwrap().unwrap();
    assert_eq!(parsed(diagnostics.json())["params"]["uri"], Value::String("file:///a\"b".to_string()));
    assert_eq!(server.log.len(), 2);
    assert_eq!(server.log[1], format!("<-- {}", diagnostics.json()));
}
