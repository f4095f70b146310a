use gustavio::app_event::AppEvent;
use gustavio::db::MessageRow;
use gustavio::ipc::{eval_script, event_name, invalid_command, js_call, UiEvent};

fn some_row() -> MessageRow {
    MessageRow {
        id: "M1".to_string(),
        conversation_id: "B".to_string(),
        from_id: "A".to_string(),
        from_name: "Alice".to_string(),
        content: "hi".to_string(),
        timestamp: "T1".to_string(),
        is_group: false,
        status: "sent".to_string(),
    }
}

#[test]
fn script_calls_the_receiver_if_it_is_there() {
    assert_eq!(
        js_call("peer_list", Some("[]")),
        "if(window.onRustMessage){window.onRustMessage(\"peer_list\",[])};"
    );
    assert_eq!(
        js_call("error", Some("\"Invalid command: x\"")),
        "if(window.onRustMessage){window.onRustMessage(\"error\",\"Invalid command: x\")};"
    );
}

#[test]
fn payload_that_cannot_be_serialized_becomes_null() {
    assert_eq!(
        js_call("history", None),
        "if(window.onRustMessage){window.onRustMessage(\"history\",null)};"
    );
}

#[test]
fn event_name_is_a_json_string() {
    assert_eq!(
        js_call("a\"b\\c", Some("1")),
        "if(window.onRustMessage){window.onRustMessage(\"a\\\"b\\\\c\",1)};"
    );
    assert_eq!(
        js_call("line\nbreak\ttab\r\u{08}\u{0C}", Some("1")),
        "if(window.onRustMessage){window.onRustMessage(\"line\\nbreak\\ttab\\r\\b\\f\",1)};"
    );
    assert_eq!(
        js_call("\u{01}\u{1f}\u{7f}é", Some("1")),
        "if(window.onRustMessage){window.onRustMessage(\"\\u0001\\u001f\u{7f}é\",1)};"
    );
    assert_eq!(
        js_call("", Some("1")),
        "if(window.onRustMessage){window.onRustMessage(\"\",1)};"
    );
}

#[test]
fn every_event_has_its_name() {
    let events = vec![
        (UiEvent::ConfigLoaded { peer_id: "A".to_string(), username: None }, "config_loaded"),
        (UiEvent::PeerList(vec![]), "peer_list"),
        (UiEvent::GroupList(vec![]), "group_list"),
        (UiEvent::GroupCreated("G1".to_string()), "group_created"),
        (UiEvent::History(vec![]), "history"),
        (UiEvent::IncomingMessage(some_row()), "incoming_message"),
        (
            UiEvent::MessageAck { message_id: "M1".to_string(), status: "delivered".to_string() },
            "message_ack",
        ),
        (UiEvent::Error("x".to_string()), "error"),
    ];
    for (event, name) in events {
        assert_eq!(event_name(&event), name);
    }
}

#[test]
fn eval_script_wraps_the_call() {
    let event = UiEvent::GroupCreated("G1".to_string());
    match eval_script(&event, Some("\"G1\"")) {
        AppEvent::EvalScript(script) => assert_eq!(
            script,
            "if(window.onRustMessage){window.onRustMessage(\"group_created\",\"G1\")};"
        ),
        other => panic!("unexpected {:?}", other),
    }
    match eval_script(&event, None).clone() {
        AppEvent::EvalScript(script) => assert_eq!(
            script,
            "if(window.onRustMessage){window.onRustMessage(\"group_created\",null)};"
        ),
        other => panic!("unexpected {:?}", other),
    }
}

#[test]
fn invalid_command_is_an_error_event() {
    match invalid_command("expected value at line 1 column 1") {
        UiEvent::Error(text) => {
            assert_eq!(text, "Invalid command: expected value at line 1 column 1")
        }
        other => panic!("unexpected {:?}", other),
    }
    assert!(matches!(invalid_command(""), UiEvent::Error(t) if t == "Invalid command: "));
}
