use brainsales_companion::auth::{
    exchange_request, exchange_url, is_success, read_exchange, settle, web_app_url, AuthOutcome,
    ExchangeReply,
};
use brainsales_companion::deepgram::{
    authorization, close_stream_message, keeps_draining, listen_url, next_action, state_message,
    Backlog, LoopAction, LoopEvent, LoopState,
};
use brainsales_companion::link::{find_param, read_link, read_payload, DeepLink};
use brainsales_companion::text::{decimal_text, is_empty, join3, same_text};
use brainsales_companion::vad::StreamState;
use brainsales_companion::window::{bottom_right, ui_action, UiAction, UiEvent};
use brainsales_companion::AuthInfo;

fn link(user_id: &str, org_id: &str) -> DeepLink {
    DeepLink {
        nonce: "n".to_string(),
        user_id: user_id.to_string(),
        org_id: org_id.to_string(),
    }
}

#[test]
fn a_deep_link_is_read() {
    let read = read_payload(
        r#"["brainsales://auth?nonce=a%20b%26c&userId=u+1&orgId=o","brainsales://x?nonce=z"]"#,
    )
    .unwrap();
    assert_eq!(read.nonce, "a b&c");
    assert_eq!(read.user_id, "u 1");
    assert_eq!(read.org_id, "o");
}

#[test]
fn a_deep_link_may_leave_the_user_out() {
    let read = read_payload(r#"["brainsales://auth?nonce="]"#).unwrap();
    assert_eq!(read.nonce, "");
    assert_eq!(read.user_id, "");
    assert_eq!(read.org_id, "");
}

#[test]
fn what_is_no_deep_link_says_nothing() {
    assert!(read_payload("").is_none());
    assert!(read_payload("[]").is_none());
    assert!(read_payload("[1]").is_none());
    assert!(read_payload(r#""brainsales://auth?nonce=n""#).is_none());
    assert!(read_payload(r#"["not a url"]"#).is_none());
    assert!(read_payload(r#"["brainsales://auth?userId=u&orgId=o"]"#).is_none());
    assert!(read_payload(r#"["brainsales://auth","brainsales://auth?nonce=n"]"#).is_none());
}

#[test]
fn the_last_of_equal_parameters_counts() {
    let pairs = vec![
        ("nonce".to_string(), "1".to_string()),
        ("orgId".to_string(), "o".to_string()),
        ("nonce".to_string(), "2".to_string()),
    ];
    assert_eq!(find_param(&pairs, "nonce"), Some("2".to_string()));
    assert_eq!(find_param(&pairs, "userId"), None);
    let read = read_link(&pairs).unwrap();
    assert_eq!(read.nonce, "2");
    assert_eq!(read.user_id, "");
    assert_eq!(read.org_id, "o");
    assert!(read_link(&vec![]).is_none());
}

#[test]
fn a_nonce_is_exchanged_with_the_web_app() {
    assert_eq!(web_app_url(None), "https://app.brainsales.tech");
    assert_eq!(web_app_url(Some("http://localhost:3000".to_string())), "http://localhost:3000");
    assert_eq!(
        exchange_url("http://localhost:3000"),
        "http://localhost:3000/api/auth/companion-nonce/exchange"
    );
    assert_eq!(exchange_request("a\"b").to_string(), r#"{"nonce":"a\"b"}"#);
}

#[test]
fn success_is_the_two_hundreds() {
    assert!(is_success(200));
    assert!(is_success(299));
    assert!(!is_success(199));
    assert!(!is_success(300));
    assert!(!is_success(404));
}

#[test]
fn an_exchange_tells_the_user() {
    let body = serde_json::from_str(r#"{"userId":"u","orgId":"o"}"#).unwrap();
    let auth = read_exchange(ExchangeReply::Body(body)).unwrap();
    assert_eq!((auth.user_id.as_str(), auth.org_id.as_str()), ("u", "o"));
    let body = serde_json::from_str(r#"{"userId":7}"#).unwrap();
    let auth = read_exchange(ExchangeReply::Body(body)).unwrap();
    assert_eq!((auth.user_id.as_str(), auth.org_id.as_str()), ("", ""));
}

#[test]
fn a_failed_exchange_tells_why() {
    let error = |reply| read_exchange(reply).err().unwrap();
    assert_eq!(error(ExchangeReply::Unsent("offline".to_string())), "offline");
    assert_eq!(
        error(ExchangeReply::Refused("404 Not Found".to_string())),
        "Exchange failed: 404 Not Found"
    );
    assert_eq!(error(ExchangeReply::Unreadable("bad body".to_string())), "bad body");
}

#[test]
fn a_deep_link_stands_in_for_a_failed_exchange() {
    let known = |outcome| match outcome {
        AuthOutcome::Known(auth) => Some((auth.user_id, auth.org_id)),
        AuthOutcome::Unknown(_) => None,
    };
    let auth = AuthInfo { user_id: "x".to_string(), org_id: "y".to_string() };
    assert_eq!(
        known(settle(Ok(auth), link("u", "o"))),
        Some(("x".to_string(), "y".to_string()))
    );
    assert_eq!(
        known(settle(Err("e".to_string()), link("u", "o"))),
        Some(("u".to_string(), "o".to_string()))
    );
    for incomplete in [link("", "o"), link("u", ""), link("", "")] {
        match settle(Err("e".to_string()), incomplete) {
            AuthOutcome::Unknown(error) => assert_eq!(error, "e"),
            AuthOutcome::Known(_) => panic!("the user is not known"),
        }
    }
}

#[test]
fn the_service_is_addressed() {
    assert_eq!(
        listen_url(48000),
        "wss://api.deepgram.com/v1/listen?encoding=linear16&sample_rate=48000&channels=2&multichannel=true&model=nova-2&smart_format=true"
    );
    assert!(listen_url(0).contains("sample_rate=0&"));
    assert!(listen_url(4294967295).contains("sample_rate=4294967295&"));
    assert_eq!(authorization("k"), "Token k");
    assert_eq!(close_stream_message(), r#"{"type":"CloseStream"}"#);
}

#[test]
fn the_frontend_is_told_the_state() {
    assert_eq!(state_message(StreamState::Listening).to_string(), r#"{"state":"idle"}"#);
    assert_eq!(state_message(StreamState::Streaming).to_string(), r#"{"state":"streaming"}"#);
}

#[test]
fn sessions_begin_on_start() {
    let command = |c: &str| LoopEvent::Command(c.to_string());
    let waiting = LoopState::AwaitingStart;
    assert_eq!(next_action(waiting, command("idle")), (waiting, LoopAction::AwaitCommand));
    assert_eq!(
        next_action(waiting, command("start")),
        (LoopState::InSession, LoopAction::RunSession)
    );
    assert_eq!(
        next_action(LoopState::InSession, LoopEvent::SessionOver),
        (waiting, LoopAction::AnnounceIdle)
    );
    assert_eq!(
        next_action(waiting, LoopEvent::CommandsClosed),
        (LoopState::Ended, LoopAction::Return)
    );
    assert_eq!(
        next_action(LoopState::Ended, command("start")),
        (LoopState::Ended, LoopAction::Nothing)
    );
}

#[test]
fn the_window_sits_at_the_bottom_right() {
    assert_eq!(bottom_right((0, 0), (1920, 1080), (320, 200)), Some((1584, 832)));
    assert_eq!(bottom_right((-1920, 100), (1920, 1080), (320, 200)), Some((-336, 932)));
    assert_eq!(bottom_right((0, 0), (100, 100), (320, 200)), Some((-236, -148)));
    assert_eq!(bottom_right((i32::MAX, 0), (1920, 1080), (320, 200)), None);
    assert_eq!(bottom_right((0, i32::MIN), (1920, 100), (320, 100)), None);
    assert_eq!(bottom_right((0, 0), (2147483648, 1080), (320, 200)), None);
    assert_eq!(
        bottom_right((i32::MAX, 0), (2147483648, 1080), (0, 200)),
        Some((-17, 832))
    );
}

#[test]
fn closing_the_window_hides_it() {
    let menu = |entry: &str| ui_action(&UiEvent::Menu(entry.to_string()));
    assert_eq!(menu("show"), UiAction::ShowWindow);
    assert_eq!(menu("quit"), UiAction::Quit);
    assert_eq!(menu("other"), UiAction::Nothing);
    let click = |left, released| ui_action(&UiEvent::TrayClick { left, released });
    assert_eq!(click(true, true), UiAction::ShowWindow);
    assert_eq!(click(true, false), UiAction::Nothing);
    assert_eq!(click(false, true), UiAction::Nothing);
    assert_eq!(ui_action(&UiEvent::CloseRequested), UiAction::HideWindow);
}

#[test]
fn texts_are_compared_and_joined() {
    assert!(same_text("a", "a"));
    assert!(!same_text("a", "A"));
    assert!(is_empty(&String::new()));
    assert!(!is_empty(&" ".to_string()));
    assert_eq!(join3("a", "", "b"), "ab");
}

#[test]
fn numbers_are_written_in_decimal() {
    for n in [0u32, 7, 9, 10, 99, 100, 16000, 44100, 1234567890, 4294967295] {
        assert_eq!(decimal_text(n), format!("{}", n));
    }
}

#[test]
fn stale_audio_is_dropped_also_after_a_lag() {
    assert!(keeps_draining(Backlog::Audio));
    assert!(keeps_draining(Backlog::Missed));
    assert!(!keeps_draining(Backlog::Empty));
    assert!(!keeps_draining(Backlog::Closed));
    let outcomes = [Backlog::Missed, Backlog::Audio, Backlog::Audio, Backlog::Empty, Backlog::Audio];
    let dropped = outcomes.iter().take_while(|o| keeps_draining(**o)).count();
    assert_eq!(dropped, 3);
}
