use brainsales_companion::server::{
    handshake_answer, judge_claim, judge_first, known_command, ConnEffect, ConnEvent, Connection,
    ControlMessage, Feed, Handshake, Stage, TypedMessage,
};
use brainsales_companion::AuthInfo;

fn user(id: &str) -> Option<AuthInfo> {
    Some(AuthInfo { user_id: id.to_string(), org_id: "org".to_string() })
}

fn typed(kind: &str, rest: &str) -> Option<TypedMessage> {
    Some(TypedMessage {
        msg_type: kind.to_string(),
        value: serde_json::from_str(rest).unwrap(),
    })
}

fn control(command: &str) -> Option<ControlMessage> {
    Some(ControlMessage { command: command.to_string() })
}

fn shown(effects: Vec<ConnEffect>) -> Vec<String> {
    effects
        .into_iter()
        .map(|e| match e {
            ConnEffect::Answer(text) => format!("answer {}", text),
            ConnEffect::Forward(text) => format!("forward {}", text),
            ConnEffect::Emit { event, value } => format!("emit {} {}", event, value),
            ConnEffect::Command(command) => format!("command {}", command),
            ConnEffect::TellConnected => "connected".to_string(),
            ConnEffect::TellDisconnected => "disconnected".to_string(),
            ConnEffect::Drop => "drop".to_string(),
        })
        .collect()
}

fn accepted() -> Connection {
    let mut connection = Connection::new();
    connection.step(ConnEvent::First {
        message: typed("auth_handshake", "{}"),
        stored: None,
    });
    connection
}

#[test]
fn the_right_user_is_accepted() {
    let mut connection = Connection::new();
    let effects = connection.step(ConnEvent::First {
        message: typed("auth_handshake", r#"{"userId":"u1","extra":1}"#),
        stored: user("u1"),
    });
    assert_eq!(
        shown(effects),
        vec![r#"answer {"type":"auth_confirmed"}"#, "connected"]
    );
    assert_eq!(connection.stage(), Stage::Serving { reading: true, writing: true });
}

#[test]
fn another_user_is_turned_away() {
    let mut connection = Connection::new();
    let effects = connection.step(ConnEvent::First {
        message: typed("auth_handshake", r#"{"userId":"u2"}"#),
        stored: user("u1"),
    });
    assert_eq!(
        shown(effects),
        vec![
            r#"answer {"reason":"user_id_mismatch","type":"auth_rejected"}"#,
            "drop"
        ]
    );
    assert_eq!(connection.stage(), Stage::Refused);
    let effects = connection.step(ConnEvent::First {
        message: typed("auth_handshake", r#"{"userId":"u1"}"#),
        stored: user("u1"),
    });
    assert!(effects.is_empty());
}

#[test]
fn a_handshake_without_a_user_is_turned_away() {
    assert_eq!(judge_first(&typed("auth_handshake", "{}"), &user("u1")), Handshake::WrongUser);
    assert_eq!(
        judge_first(&typed("auth_handshake", r#"{"userId":1}"#), &user("1")),
        Handshake::WrongUser
    );
    assert_eq!(judge_first(&typed("auth_handshake", "[]"), &user("u1")), Handshake::WrongUser);
    assert_eq!(
        judge_first(&typed("auth_handshake", r#"{"userId":""}"#), &user("")),
        Handshake::Accepted
    );
}

#[test]
fn anyone_is_accepted_before_a_user_is_known() {
    assert_eq!(judge_first(&typed("auth_handshake", "{}"), &None), Handshake::Accepted);
    assert_eq!(judge_claim("auth_handshake", Some("x"), &None), Handshake::Accepted);
    assert_eq!(judge_claim("auth_handshake", Some("x"), &user("x")), Handshake::Accepted);
    assert_eq!(judge_claim("auth_handshake", None, &user("x")), Handshake::WrongUser);
}

#[test]
fn what_is_no_handshake_is_dropped_without_an_answer() {
    for message in [None, typed("node_update", r#"{"userId":"u1"}"#)] {
        let mut connection = Connection::new();
        let effects = connection.step(ConnEvent::First { message, stored: user("u1") });
        assert_eq!(shown(effects), vec!["drop"]);
    }
    assert_eq!(handshake_answer(Handshake::NoHandshake), None);
}

#[test]
fn strangers_command_nothing() {
    let mut connection = Connection::new();
    assert!(connection
        .step(ConnEvent::Text {
            text: r#"{"command":"start"}"#.to_string(),
            typed: None,
            control: control("start"),
        })
        .is_empty());
    assert!(connection.step(ConnEvent::Outgoing(Feed::Message("m".to_string()))).is_empty());
    assert!(connection.step(ConnEvent::ReadEnded).is_empty());
    assert_eq!(connection.stage(), Stage::Greeting);
}

#[test]
fn known_commands_reach_the_pipeline() {
    let mut connection = accepted();
    for command in ["start", "stop", "pause"] {
        let effects = connection.step(ConnEvent::Text {
            text: String::new(),
            typed: None,
            control: control(command),
        });
        assert_eq!(shown(effects), vec![format!("command {}", command)]);
        assert!(known_command(command));
    }
    for command in ["", "Start", "idle", "start "] {
        let effects = connection.step(ConnEvent::Text {
            text: String::new(),
            typed: None,
            control: control(command),
        });
        assert!(effects.is_empty());
        assert!(!known_command(command));
    }
    let effects = connection.step(ConnEvent::Text {
        text: "x".to_string(),
        typed: None,
        control: None,
    });
    assert!(effects.is_empty());
}

#[test]
fn typed_messages_reach_the_frontend_whole() {
    let mut connection = accepted();
    let text = r#"{"type":"node_update","node":{"id":3},"command":"start"}"#;
    let effects = connection.step(ConnEvent::Text {
        text: text.to_string(),
        typed: typed("node_update", r#"{"node":{"id":3},"command":"start"}"#),
        control: control("start"),
    });
    assert_eq!(
        shown(effects),
        vec![r#"emit node_update {"command":"start","node":{"id":3},"type":"node_update"}"#]
    );
    let effects = connection.step(ConnEvent::Text {
        text: "not json".to_string(),
        typed: typed("node_update", "{}"),
        control: control("start"),
    });
    assert!(effects.is_empty());
}

#[test]
fn leaving_stops_the_pipeline() {
    let mut connection = accepted();
    assert_eq!(
        shown(connection.step(ConnEvent::ReadEnded)),
        vec!["command stop", "disconnected"]
    );
    assert_eq!(connection.stage(), Stage::Serving { reading: false, writing: true });
    let effects = connection.step(ConnEvent::Text {
        text: String::new(),
        typed: None,
        control: control("start"),
    });
    assert!(effects.is_empty());
    assert!(connection.step(ConnEvent::ReadEnded).is_empty());
    assert_eq!(shown(connection.step(ConnEvent::WriteFailed)), vec!["disconnected"]);
    assert!(connection.step(ConnEvent::WriteFailed).is_empty());
}

#[test]
fn messages_are_forwarded_until_the_feed_closes() {
    let mut connection = accepted();
    let message = |text: &str| ConnEvent::Outgoing(Feed::Message(text.to_string()));
    assert_eq!(shown(connection.step(message("a"))), vec!["forward a"]);
    assert!(connection.step(ConnEvent::Outgoing(Feed::Lagged)).is_empty());
    assert_eq!(shown(connection.step(message("b"))), vec!["forward b"]);
    assert_eq!(
        shown(connection.step(ConnEvent::Outgoing(Feed::Closed))),
        vec!["disconnected"]
    );
    assert!(connection.step(message("c")).is_empty());
    assert_eq!(connection.stage(), Stage::Serving { reading: true, writing: false });
}

#[test]
fn messages_go_on_whatever_the_web_app_says() {
    let mut connection = Connection::new();
    let message = |text: &str| ConnEvent::Outgoing(Feed::Message(text.to_string()));
    assert!(connection.step(message("early")).is_empty());
    let welcome = connection.step(ConnEvent::First {
        message: typed("auth_handshake", r#"{"userId":"u1"}"#),
        stored: user("u1"),
    });
    assert_eq!(
        shown(welcome),
        vec![r#"answer {"type":"auth_confirmed"}"#, "connected"]
    );
    assert_eq!(shown(connection.step(message(r#"{"a":1}"#))), vec![r#"forward {"a":1}"#]);
    let effects = connection.step(ConnEvent::Text {
        text: String::new(),
        typed: None,
        control: control("pause"),
    });
    assert_eq!(shown(effects), vec!["command pause"]);
    assert_eq!(shown(connection.step(message("b"))), vec!["forward b"]);
    assert!(connection.step(ConnEvent::Outgoing(Feed::Lagged)).is_empty());
    assert!(connection
        .step(ConnEvent::First { message: None, stored: None })
        .is_empty());
    assert_eq!(
        shown(connection.step(ConnEvent::ReadEnded)),
        vec!["command stop", "disconnected"]
    );
    assert_eq!(shown(connection.step(message("b"))), vec!["forward b"]);
    assert_eq!(shown(connection.step(message(""))), vec!["forward "]);
}

#[test]
fn two_web_apps_get_the_same_messages() {
    let mut one = accepted();
    let mut other = accepted();
    other.step(ConnEvent::ReadEnded);
    for text in ["x", "y", "x"] {
        let message = || ConnEvent::Outgoing(Feed::Message(text.to_string()));
        assert_eq!(shown(one.step(message())), vec![format!("forward {}", text)]);
        other.step(ConnEvent::Outgoing(Feed::Lagged));
        assert_eq!(shown(other.step(message())), vec![format!("forward {}", text)]);
    }
    one.step(ConnEvent::WriteFailed);
    assert!(one.step(ConnEvent::Outgoing(Feed::Message("z".to_string()))).is_empty());
}
