use brainsales_companion::vad::{
    Effect, Event, StreamState, VadSession, Waiting, PRE_BUFFER_SIZE, SILENCE_CLOSE_COUNT,
    SPEECH_TRIGGER_COUNT,
};

fn chunk(name: u8, speech: bool) -> Event {
    Event::Chunk { pcm: vec![name], speech }
}

fn shown(effects: Vec<Effect>) -> Vec<String> {
    effects
        .into_iter()
        .map(|e| match e {
            Effect::Open => "open".to_string(),
            Effect::SendAudio(pcm) => format!("audio {}", pcm[0]),
            Effect::SendCloseStream => "close stream".to_string(),
            Effect::SendClose => "close".to_string(),
            Effect::Disconnect => "disconnect".to_string(),
            Effect::Announce(StreamState::Listening) => "idle".to_string(),
            Effect::Announce(StreamState::Streaming) => "streaming".to_string(),
        })
        .collect()
}

/// A session that streams over a connection, opened by three chunks of speech.
fn streaming() -> VadSession {
    let mut session = VadSession::new();
    for name in 0..3u8 {
        session.step(chunk(name, true));
    }
    session.step(Event::Opened(true));
    for _ in 0..3 {
        session.step(Event::Sent(true));
    }
    session
}

#[test]
fn the_constants_are_what_they_are() {
    assert_eq!(SPEECH_TRIGGER_COUNT, 3);
    assert_eq!(SILENCE_CLOSE_COUNT, 37);
    assert_eq!(PRE_BUFFER_SIZE, 8);
}

#[test]
fn three_chunks_of_speech_in_a_row_open_a_connection() {
    let mut session = VadSession::new();
    assert!(session.step(chunk(0, true)).is_empty());
    assert!(session.step(chunk(1, true)).is_empty());
    assert!(session.step(chunk(2, false)).is_empty());
    assert!(session.step(chunk(3, true)).is_empty());
    assert!(session.step(chunk(4, true)).is_empty());
    assert_eq!(shown(session.step(chunk(5, true))), vec!["open"]);
    assert_eq!(session.waiting(), Waiting::Opening);
}

#[test]
fn the_last_eight_chunks_are_sent_first() {
    let mut session = VadSession::new();
    for name in 0..9u8 {
        assert!(session.step(chunk(name, false)).is_empty());
    }
    session.step(chunk(9, true));
    session.step(chunk(10, true));
    assert_eq!(shown(session.step(chunk(11, true))), vec!["open"]);
    assert_eq!(shown(session.step(Event::Opened(true))), vec!["audio 4"]);
    for name in 5..12u8 {
        assert_eq!(
            shown(session.step(Event::Sent(true))),
            vec![format!("audio {}", name)]
        );
    }
    assert_eq!(shown(session.step(Event::Sent(true))), vec!["streaming"]);
    assert_eq!(session.waiting(), Waiting::Nothing);
}

#[test]
fn every_later_chunk_is_sent() {
    let mut session = streaming();
    for name in 10..40u8 {
        assert_eq!(
            shown(session.step(chunk(name, name % 2 == 0))),
            vec![format!("audio {}", name)]
        );
        assert!(session.step(Event::Sent(true)).is_empty());
    }
}

#[test]
fn lasting_silence_closes_the_connection() {
    let mut session = streaming();
    for i in 0..36u8 {
        session.step(chunk(i, false));
        assert!(session.step(Event::Sent(true)).is_empty());
    }
    assert_eq!(shown(session.step(chunk(99, false))), vec!["audio 99"]);
    assert_eq!(
        shown(session.step(Event::Sent(true))),
        vec!["close stream", "disconnect", "idle"]
    );
    assert!(session.step(chunk(1, true)).is_empty());
}

#[test]
fn speech_ends_a_silence() {
    let mut session = streaming();
    for _ in 0..2 {
        for i in 0..36u8 {
            session.step(chunk(i, false));
            assert!(session.step(Event::Sent(true)).is_empty());
        }
        session.step(chunk(50, true));
        assert!(session.step(Event::Sent(true)).is_empty());
    }
}

#[test]
fn a_connection_that_does_not_open_is_tried_again() {
    let mut session = VadSession::new();
    for name in 0..3u8 {
        session.step(chunk(name, true));
    }
    assert!(session.step(Event::Opened(false)).is_empty());
    assert!(session.step(chunk(3, true)).is_empty());
    assert!(session.step(chunk(4, true)).is_empty());
    assert_eq!(shown(session.step(chunk(5, true))), vec!["open"]);
    assert_eq!(shown(session.step(Event::Opened(true))), vec!["audio 0"]);
}

#[test]
fn a_failed_send_goes_back_to_listening() {
    let mut session = streaming();
    session.step(chunk(7, true));
    assert_eq!(
        shown(session.step(Event::Sent(false))),
        vec!["disconnect", "idle"]
    );
    assert!(session.step(chunk(0, true)).is_empty());
    assert!(session.step(chunk(1, true)).is_empty());
    assert_eq!(shown(session.step(chunk(2, true))), vec!["open"]);
    assert_eq!(shown(session.step(Event::Opened(true))), vec!["audio 0"]);
}

#[test]
fn a_failed_flush_streams_without_a_connection() {
    let mut session = VadSession::new();
    for name in 0..3u8 {
        session.step(chunk(name, true));
    }
    session.step(Event::Opened(true));
    assert_eq!(
        shown(session.step(Event::Sent(false))),
        vec!["disconnect", "idle", "streaming"]
    );
    for i in 0..36u8 {
        assert!(session.step(chunk(i, false)).is_empty());
    }
    assert_eq!(shown(session.step(chunk(36, false))), vec!["idle"]);
}

#[test]
fn only_start_lets_a_session_go_on() {
    let mut session = streaming();
    assert!(session.step(Event::Command("start".to_string())).is_empty());
    assert!(!session.is_finished());
    assert_eq!(
        shown(session.step(Event::Command("pause".to_string()))),
        vec!["close", "disconnect", "idle"]
    );
    assert!(session.is_finished());
    assert!(session.step(chunk(0, true)).is_empty());
    let mut listening = VadSession::new();
    assert_eq!(
        shown(listening.step(Event::Command("stop".to_string()))),
        vec!["idle"]
    );
}

#[test]
fn a_lost_source_ends_a_session_quietly() {
    let mut session = streaming();
    assert_eq!(
        shown(session.step(Event::SourceClosed)),
        vec!["close", "disconnect"]
    );
    assert!(session.is_finished());
    let mut listening = VadSession::new();
    assert!(listening.step(Event::SourceClosed).is_empty());
    assert!(listening.is_finished());
}

#[test]
fn unexpected_events_do_nothing() {
    let mut session = VadSession::new();
    assert!(session.step(Event::Opened(true)).is_empty());
    assert!(session.step(Event::Sent(false)).is_empty());
    for name in 0..3u8 {
        session.step(chunk(name, true));
    }
    assert!(session.step(chunk(9, true)).is_empty());
    assert!(session.step(Event::Command("stop".to_string())).is_empty());
    assert_eq!(shown(session.step(Event::Opened(true))), vec!["audio 0"]);
}

#[test]
fn speech_after_a_closing_silence_is_streamed_again() {
    let mut session = streaming();
    for i in 0..36u8 {
        session.step(chunk(i, false));
        session.step(Event::Sent(true));
    }
    session.step(chunk(36, false));
    assert_eq!(
        shown(session.step(Event::Sent(true))),
        vec!["close stream", "disconnect", "idle"]
    );
    for name in 100..107u8 {
        assert!(session.step(chunk(name, name == 102)).is_empty());
    }
    assert!(session.step(chunk(107, true)).is_empty());
    assert!(session.step(chunk(108, true)).is_empty());
    assert_eq!(shown(session.step(chunk(109, true))), vec!["open"]);
    assert_eq!(shown(session.step(Event::Opened(true))), vec!["audio 102"]);
    for name in 103..110u8 {
        assert_eq!(
            shown(session.step(Event::Sent(true))),
            vec![format!("audio {}", name)]
        );
    }
    assert_eq!(shown(session.step(Event::Sent(true))), vec!["streaming"]);
    for name in 110..115u8 {
        assert_eq!(
            shown(session.step(chunk(name, false))),
            vec![format!("audio {}", name)]
        );
        assert!(session.step(Event::Sent(true)).is_empty());
    }
}

#[test]
fn speech_after_a_failed_send_is_streamed_again() {
    let mut session = streaming();
    session.step(chunk(7, true));
    session.step(Event::Sent(false));
    for name in 20..22u8 {
        assert!(session.step(chunk(name, true)).is_empty());
    }
    assert_eq!(shown(session.step(chunk(22, true))), vec!["open"]);
    assert_eq!(shown(session.step(Event::Opened(true))), vec!["audio 20"]);
    assert_eq!(shown(session.step(Event::Sent(true))), vec!["audio 21"]);
    assert_eq!(shown(session.step(Event::Sent(true))), vec!["audio 22"]);
    assert_eq!(shown(session.step(Event::Sent(true))), vec!["streaming"]);
    assert_eq!(shown(session.step(chunk(23, true))), vec!["audio 23"]);
}

#[test]
fn chunks_kept_before_a_failed_open_are_sent_after_the_next() {
    let mut session = VadSession::new();
    for name in 0..3u8 {
        session.step(chunk(name, true));
    }
    session.step(Event::Opened(false));
    for name in 3..6u8 {
        assert!(session.step(chunk(name, false)).is_empty());
    }
    for name in 6..8u8 {
        assert!(session.step(chunk(name, true)).is_empty());
    }
    assert_eq!(shown(session.step(chunk(8, true))), vec!["open"]);
    assert_eq!(shown(session.step(Event::Opened(true))), vec!["audio 1"]);
    for name in 2..9u8 {
        assert_eq!(
            shown(session.step(Event::Sent(true))),
            vec![format!("audio {}", name)]
        );
    }
    assert_eq!(shown(session.step(Event::Sent(true))), vec!["streaming"]);
}

#[test]
fn a_start_command_does_not_break_a_run_of_speech() {
    let mut session = VadSession::new();
    assert!(session.step(chunk(0, true)).is_empty());
    assert!(session.step(Event::Command("start".to_string())).is_empty());
    assert!(session.step(chunk(1, true)).is_empty());
    assert!(session.step(Event::Sent(true)).is_empty());
    assert_eq!(shown(session.step(chunk(2, true))), vec!["open"]);
}
