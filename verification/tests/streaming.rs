use brainsales_companion::audio::buffers::{AudioBuffers, LoopClock};
use brainsales_companion::audio::pcm::encode_pcm;
use brainsales_companion::stream::{StreamAction, StreamEvent, Streamer};
use brainsales_companion::vad::{Effect, StreamState};

fn shown(actions: &Vec<StreamAction>) -> Vec<String> {
    actions
        .iter()
        .map(|a| match a {
            StreamAction::Mix(samples) => format!("mix {}", samples.len()),
            StreamAction::Do(Effect::Open) => "open".to_string(),
            StreamAction::Do(Effect::SendAudio(pcm)) => format!("audio {}", pcm.len()),
            StreamAction::Do(Effect::SendCloseStream) => "close stream".to_string(),
            StreamAction::Do(Effect::SendClose) => "close".to_string(),
            StreamAction::Do(Effect::Disconnect) => "disconnect".to_string(),
            StreamAction::Do(Effect::Announce(StreamState::Listening)) => "idle".to_string(),
            StreamAction::Do(Effect::Announce(StreamState::Streaming)) => "streaming".to_string(),
            StreamAction::Await => "await".to_string(),
            StreamAction::Finish => "finish".to_string(),
        })
        .collect()
}

fn mixed(n: usize, speech: bool) -> StreamEvent {
    StreamEvent::Mixed { frames: vec![(1, 2); n], speech }
}

#[test]
fn a_delivery_is_mixed_chunk_by_chunk() {
    let mut streamer = Streamer::new();
    let samples: Vec<u32> = (0..1500).collect();
    let actions = streamer.step(StreamEvent::Mic(samples));
    assert_eq!(shown(&actions), vec!["mix 640"]);
    match &actions[0] {
        StreamAction::Mix(chunk) => {
            assert_eq!(chunk[0], 0);
            assert_eq!(chunk[639], 639);
        }
        _ => panic!("a chunk was due"),
    }
    let actions = streamer.step(mixed(640, false));
    assert_eq!(shown(&actions), vec!["mix 640"]);
    match &actions[0] {
        StreamAction::Mix(chunk) => assert_eq!(chunk[0], 640),
        _ => panic!("a chunk was due"),
    }
    assert_eq!(shown(&streamer.step(mixed(640, false))), vec!["mix 220"]);
    assert_eq!(shown(&streamer.step(mixed(220, false))), vec!["await"]);
}

#[test]
fn an_empty_delivery_changes_nothing() {
    let mut streamer = Streamer::new();
    assert_eq!(shown(&streamer.step(StreamEvent::Mic(vec![]))), vec!["await"]);
    assert_eq!(shown(&streamer.step(StreamEvent::Missed)), vec!["await"]);
}

#[test]
fn speech_goes_from_the_microphone_to_the_service() {
    let mut streamer = Streamer::new();
    streamer.step(StreamEvent::Mic(vec![0; 1921]));
    assert_eq!(shown(&streamer.step(mixed(640, true))), vec!["mix 640"]);
    assert_eq!(shown(&streamer.step(mixed(640, true))), vec!["mix 640"]);
    assert_eq!(shown(&streamer.step(mixed(640, true))), vec!["open"]);
    assert_eq!(shown(&streamer.step(StreamEvent::Opened(true))), vec!["audio 2560"]);
    assert_eq!(shown(&streamer.step(StreamEvent::Sent(true))), vec!["audio 2560"]);
    assert_eq!(shown(&streamer.step(StreamEvent::Sent(true))), vec!["audio 2560"]);
    assert_eq!(shown(&streamer.step(StreamEvent::Sent(true))), vec!["streaming", "mix 1"]);
    assert_eq!(shown(&streamer.step(mixed(1, true))), vec!["audio 4"]);
    assert_eq!(shown(&streamer.step(StreamEvent::Sent(true))), vec!["await"]);
    assert_eq!(
        shown(&streamer.step(StreamEvent::Command("stop".to_string()))),
        vec!["close", "disconnect", "idle", "finish"]
    );
    assert!(streamer.step(StreamEvent::Mic(vec![1])).is_empty());
}

#[test]
fn a_failed_send_is_followed_by_the_next_chunk() {
    let mut streamer = Streamer::new();
    streamer.step(StreamEvent::Mic(vec![0; 640 * 5]));
    for _ in 0..3 {
        streamer.step(mixed(640, true));
    }
    streamer.step(StreamEvent::Opened(true));
    for _ in 0..3 {
        streamer.step(StreamEvent::Sent(true));
    }
    assert_eq!(shown(&streamer.step(mixed(640, true))), vec!["audio 2560"]);
    assert_eq!(
        shown(&streamer.step(StreamEvent::Sent(false))),
        vec!["disconnect", "idle", "mix 640"]
    );
}

#[test]
fn a_lost_source_finishes_the_loop() {
    let mut streamer = Streamer::new();
    assert_eq!(shown(&streamer.step(StreamEvent::SourceClosed)), vec!["finish"]);
}

#[test]
fn system_samples_wait_until_they_are_taken() {
    let mut streamer = Streamer::new();
    assert_eq!(shown(&streamer.step(StreamEvent::Sys(vec![1, 2, 3]))), vec!["await"]);
    assert_eq!(streamer.sys_len(), 3);
    assert_eq!(streamer.take_sys(2), vec![1, 2]);
    assert_eq!(streamer.take_sys(2), vec![3]);
    assert_eq!(streamer.take_sys(2), Vec::<u32>::new());
}

#[test]
fn the_safety_valve_drops_the_oldest_system_samples() {
    let mut streamer = Streamer::new();
    streamer.step(StreamEvent::Sys((0..64000).collect()));
    assert_eq!(streamer.sys_len(), 64000);
    streamer.step(StreamEvent::Sys(vec![64000]));
    assert_eq!(streamer.sys_len(), 32001);
    assert_eq!(streamer.take_sys(1), vec![32000]);
}

#[test]
fn the_safety_valve_covers_both_queues() {
    let mut buffers = AudioBuffers::new();
    buffers.push_mic(&(0..32001).collect());
    buffers.push_sys(&(0..64001).collect());
    buffers.relieve();
    assert_eq!(buffers.sys_len(), 32001);
    let chunk = buffers.take_chunk().unwrap();
    assert_eq!(chunk[0], 16000);
    assert_eq!(chunk.len(), 640);
    let mut small = AudioBuffers::new();
    small.push_mic(&(0..32000).collect());
    small.relieve();
    assert_eq!(small.take_chunk().unwrap()[0], 0);
    assert!(AudioBuffers::new().take_chunk().is_none());
}

#[test]
fn frames_are_encoded_with_the_low_byte_first() {
    assert_eq!(
        encode_pcm(&vec![(1, -1), (0x1234, -32768)]),
        vec![1, 0, 0xff, 0xff, 0x34, 0x12, 0, 0x80]
    );
    assert_eq!(encode_pcm(&vec![]), Vec::<u8>::new());
    for sample in [0i16, 1, -1, 255, 256, -256, 32767, -32768] {
        let bytes = encode_pcm(&vec![(sample, 0)]);
        assert_eq!(i16::from_le_bytes([bytes[0], bytes[1]]), sample);
    }
}

#[test]
fn peaks_are_reported_and_reset_by_the_clock() {
    let mut clock = LoopClock::new();
    let mut reports = 0;
    let mut resets = 0;
    for turn in 1..=200u64 {
        let meters = clock.turn();
        assert_eq!(clock.turns(), turn);
        if meters.report_peaks {
            assert_eq!(turn % 10, 0);
            reports += 1;
        }
        if meters.reset_peaks {
            assert_eq!(turn % 100, 0);
            resets += 1;
        }
    }
    assert_eq!(reports, 20);
    assert_eq!(resets, 2);
}

#[test]
fn taking_system_samples_disturbs_nothing() {
    let mut plain = Streamer::new();
    let mut taking = Streamer::new();
    let speech = [false, true, true, true];
    plain.step(StreamEvent::Sys((0..2000).collect()));
    taking.step(StreamEvent::Sys((0..2000).collect()));
    let first = plain.step(StreamEvent::Mic(vec![7; 640 * 4]));
    assert_eq!(shown(&first), shown(&taking.step(StreamEvent::Mic(vec![7; 640 * 4]))));
    for (turn, speaks) in speech.iter().enumerate() {
        let from = 300 * turn as u32;
        assert_eq!(taking.take_sys(300), (from..from + 300).collect::<Vec<u32>>());
        assert_eq!(
            shown(&plain.step(mixed(640, *speaks))),
            shown(&taking.step(mixed(640, *speaks)))
        );
    }
    assert_eq!(plain.sys_len(), 2000);
    assert_eq!(taking.sys_len(), 800);
    taking.take_sys(5000);
    assert_eq!(
        shown(&plain.step(StreamEvent::Opened(true))),
        shown(&taking.step(StreamEvent::Opened(true)))
    );
    assert_eq!(taking.sys_len(), 0);
}

#[test]
fn system_samples_go_in_the_order_they_came() {
    let mut streamer = Streamer::new();
    streamer.step(StreamEvent::Sys((0..10).collect()));
    assert_eq!(streamer.take_sys(4), vec![0, 1, 2, 3]);
    streamer.step(StreamEvent::Sys((10..12).collect()));
    assert_eq!(streamer.take_sys(7), vec![4, 5, 6, 7, 8, 9, 10]);
    streamer.step(StreamEvent::Mic(vec![0]));
    assert!(streamer.step(StreamEvent::Sys(vec![99])).is_empty());
    assert_eq!(streamer.take_sys(7), vec![11]);
}
