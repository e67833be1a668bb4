use dioxus_codemirror::rpc::{normalize, request_read, response_build, RpcId};

#[test]
fn normalize_prints_compactly() {
    assert_eq!(normalize("[ 1 , 2 ,\n 3 ]".to_string()), "[1,2,3]");
    assert_eq!(normalize(" \"a\\u0062\" ".to_string()), "\"ab\"");
    assert_eq!(normalize("{\"k\": null}".to_string()), "{\"k\":null}");
    // Text that is not JSON stays as it is.
    assert_eq!(normalize("{oops".to_string()), "{oops");
}

#[test]
fn request_read_picks_members() {
    let request = request_read(
        r#"{"jsonrpc":"2.0","id":5,"method":"textDocument/didOpen","params":{"textDocument":{"uri":"file:///a.rs"}}}"#,
    );
    assert_eq!(request.method.as_deref(), Some("textDocument/didOpen"));
    assert!(matches!(request.id, RpcId::Json(ref id) if id == "5"));
    assert_eq!(request.uri_json.as_deref(), Some("\"file:///a.rs\""));

    let notification = request_read(r#"{"method":7,"id":null,"params":{"textDocument":{"uri":3}}}"#);
    assert_eq!(notification.method, None);
    assert!(matches!(notification.id, RpcId::Null));
    assert_eq!(notification.uri_json, None);

    let garbage = request_read("]");
    assert!(matches!(garbage.id, RpcId::Absent));
    assert_eq!(garbage.method, None);
}

#[test]
fn request_read_decodes_and_keeps_json_text() {
    let request = request_read(
        r#"{"id":"a\u0062","method":"text\u0044ocument/hover","params":{"textDocument":{"uri":"file:///x\"y"}}}"#,
    );
    assert_eq!(request.method.as_deref(), Some("textDocument/hover"));
    assert!(matches!(request.id, RpcId::Json(ref id) if id == "\"ab\""));
    assert_eq!(request.uri_json.as_deref(), Some(r#""file:///x\"y""#));

    let nested = request_read(r#"{"id":{"k": [1, 2]},"params":[{"textDocument":{"uri":"u"}}]}"#);
    assert!(matches!(nested.id, RpcId::Json(ref id) if id == r#"{"k":[1,2]}"#));
    assert_eq!(nested.uri_json, None);

    let not_object = request_read("[1,2]");
    assert!(matches!(not_object.id, RpcId::Absent));
    assert_eq!(not_object.uri_json, None);
}

#[test]
fn response_build_wraps_result() {
    let response = response_build("\"x\"", "[ true ]");
    let value: serde_json::Value = serde_json::from_str(&response).unwrap();
    assert_eq!(value["id"], serde_json::Value::String("x".to_string()));
    assert_eq!(value["jsonrpc"], serde_json::Value::String("2.0".to_string()));
    assert_eq!(value["result"].to_string(), "[true]");
    assert!(!response.contains(' '));
}
