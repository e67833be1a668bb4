use dioxus_codemirror::cmd::Cmd;
use dioxus_codemirror::code_mirror::{mount_id, EditorConfig, EditorSession, EvtAction};
use dioxus_codemirror::editor_features::EditorFeatures;
use dioxus_codemirror::evt::Evt;
use dioxus_codemirror::language::Language;
use dioxus_codemirror::lsp::lsp_message::LspMessage;
use dioxus_codemirror::theme::Theme;

#[test]
fn mount_ids_are_numbered() {
    assert_eq!(mount_id(0), "cm-editor-0");
    assert_eq!(mount_id(7), "cm-editor-7");
    assert_eq!(mount_id(10), "cm-editor-10");
    assert_eq!(mount_id(18446744073709551615), "cm-editor-18446744073709551615");
    assert_ne!(mount_id(1), mount_id(11));
}

#[test]
fn lsp_message_round_trip() {
    let json = r#"{"jsonrpc":"2.0","id":1,"method":"initialize","params":{}}"#;
    let message = LspMessage::new(json);
    assert_eq!(message.json(), json);
    assert_eq!(message.clone().json_into(), json.to_string());
}

#[test]
fn init_cmd_carries_configuration() {
    let config = EditorConfig {
        line_numbers: true,
        language: Some(Language::Yaml),
        features: EditorFeatures::default().bracket_matching().tab_size(4),
        code_actions: true,
        code_folding: false,
        indent_with_tab: true,
        theme: Theme::Dark,
    };
    let cmd = config.init_cmd(
        "cm-editor-3".to_string(),
        "/assets/codemirror".to_string(),
        "name: example\n".to_string(),
        Some("file:///main.rs".to_string()),
    );
    assert_eq!(
        cmd,
        Cmd::Init {
            mount_id: "cm-editor-3".to_string(),
            cm_base: "/assets/codemirror".to_string(),
            doc: "name: example\n".to_string(),
            allow_multiple_selections: false,
            bracket_matching: true,
            close_brackets: false,
            code_actions: true,
            code_folding: false,
            highlight_active_line: false,
            highlight_selection_matches: false,
            highlight_whitespace: false,
            indent_on_input: false,
            indent_with_tab: true,
            language: Some(Language::Yaml),
            line_numbers: true,
            line_wrapping: false,
            lsp_uri: Some("file:///main.rs".to_string()),
            read_only: false,
            rectangular_selection: false,
            tab_size: Some(4),
        }
    );
}

#[test]
fn edit_is_not_echoed_back() {
    let mut session = EditorSession::new();
    session.init_sent(&"fn main() {}".to_string());
    let action = session.evt_handle(Some(Evt::DocChanged { doc: "fn main() { x }".to_string() }), false);
    match action {
        EvtAction::ValueSet(doc) => assert_eq!(doc, "fn main() { x }"),
        _ => panic!("expected the new document to be written to the value"),
    }
    assert!(session.doc_set_cmd(&"fn main() { x }".to_string()).is_none());
}

#[test]
fn external_change_is_pushed_once() {
    let mut session = EditorSession::new();
    // Before the editor exists nothing is sent.
    assert!(session.doc_set_cmd(&"early".to_string()).is_none());
    session.init_sent(&"start".to_string());
    assert!(session.doc_set_cmd(&"start".to_string()).is_none());
    let value = "let answer = 42;\n".to_string();
    let cmd = session.doc_set_cmd(&value);
    assert_eq!(cmd, Some(Cmd::DocSet { doc: value.clone() }));
    session.doc_set_sent(&value);
    assert!(session.doc_set_cmd(&value).is_none());
}

#[test]
fn events_map_to_actions() {
    let mut session = EditorSession::new();
    session.init_sent(&String::new());
    assert!(matches!(session.evt_handle(Some(Evt::Ready), true), EvtAction::ReadyNotify));
    assert!(matches!(session.evt_handle(None, true), EvtAction::Stop));
    match session.evt_handle(Some(Evt::LspMessageRecv { json: "{}".to_string() }), true) {
        EvtAction::ServerHandle(message) => assert_eq!(message.json(), "{}"),
        _ => panic!("expected the message to go to the server"),
    }
    assert!(matches!(
        session.evt_handle(Some(Evt::LspMessageRecv { json: "{}".to_string() }), false),
        EvtAction::Ignore
    ));
}

#[test]
fn replies_forwarded_in_order() {
    let replies = vec![LspMessage::new("{\"id\":1}"), LspMessage::new("{\"id\":2}"), LspMessage::new("[]")];
    let cmds = EditorSession::replies_forward(replies);
    assert_eq!(
        cmds,
        vec![
            Cmd::LspMessageSend { json: "{\"id\":1}".to_string() },
            Cmd::LspMessageSend { json: "{\"id\":2}".to_string() },
            Cmd::LspMessageSend { json: "[]".to_string() },
        ]
    );
    assert!(EditorSession::replies_forward(Vec::new()).is_empty());
}

#[test]
fn pushed_messages_wait_for_the_editor() {
    let mut session = EditorSession::new();
    assert!(session.pushed_forward(LspMessage::new("{}")).is_none());
    session.init_sent(&String::new());
    assert_eq!(
        session.pushed_forward(LspMessage::new("{\"method\":\"x\"}")),
        Some(Cmd::LspMessageSend { json: "{\"method\":\"x\"}".to_string() })
    );
}
