use brainsales_companion::transcript::{
    read_report, write_payload, Incoming, Report, Transcript, TranscriptFilter,
};

fn message(alternatives: &str, rest: &str) -> String {
    format!(r#"{{"channel":{{"alternatives":[{}]}}{}}}"#, alternatives, rest)
}

fn alternative(text: &str) -> String {
    format!(r#"{{"transcript":"{}"}}"#, text)
}

#[test]
fn a_final_transcript_goes_on() {
    let mut filter = TranscriptFilter::new();
    let text = message(
        &alternative("  hello there "),
        r#","is_final":true,"speech_final":true,"channel_index":[1,2]"#,
    );
    let payloads = filter.receive(&text);
    assert_eq!(
        payloads,
        vec![r#"{"speaker":1,"speechFinal":true,"text":"hello there"}"#.to_string()]
    );
}

#[test]
fn an_interim_transcript_does_not_go_on() {
    let mut filter = TranscriptFilter::new();
    let interim = message(&alternative("hello"), r#","is_final":false"#);
    assert!(filter.receive(&interim).is_empty());
    let unmarked = message(&alternative("hello"), "");
    assert!(filter.receive(&unmarked).is_empty());
    let last = message(&alternative("hello"), r#","is_final":true"#);
    assert_eq!(filter.receive(&last).len(), 1);
}

#[test]
fn a_repeated_transcript_goes_on_once() {
    let mut filter = TranscriptFilter::new();
    let hello = message(&alternative("hello"), r#","is_final":true"#);
    let bye = message(&alternative("bye"), r#","is_final":true"#);
    assert_eq!(filter.receive(&hello).len(), 1);
    assert_eq!(filter.receive(&hello).len(), 0);
    assert_eq!(filter.receive(&bye).len(), 1);
    assert_eq!(filter.receive(&hello).len(), 1);
}

#[test]
fn every_new_alternative_goes_on_in_order() {
    let mut filter = TranscriptFilter::new();
    let all = format!(
        "{},{},{},{}",
        alternative("one"),
        alternative(" one"),
        alternative("   "),
        alternative("two")
    );
    let payloads = filter.receive(&message(&all, r#","is_final":true"#));
    assert_eq!(
        payloads,
        vec![
            r#"{"speaker":0,"speechFinal":false,"text":"one"}"#.to_string(),
            r#"{"speaker":0,"speechFinal":false,"text":"two"}"#.to_string(),
        ]
    );
}

#[test]
fn what_is_no_report_says_nothing() {
    let mut filter = TranscriptFilter::new();
    assert!(filter.receive("no json").is_empty());
    assert!(filter.receive("").is_empty());
    assert!(filter.receive("[1,2]").is_empty());
    assert!(filter.receive(r#"{"channel":{"alternatives":"x"},"is_final":true}"#).is_empty());
    assert!(filter.receive(r#"{"channel":{"alternatives":[{}]},"is_final":true}"#).is_empty());
    assert!(filter
        .receive(r#"{"channel":{"alternatives":[{"transcript":7}]},"is_final":true}"#)
        .is_empty());
}

fn report(text: &str) -> Report {
    let json: serde_json::Value = serde_json::from_str(text).unwrap();
    read_report(&json)
}

#[test]
fn the_speaker_is_read_from_where_it_stands() {
    assert_eq!(report(r#"{"channel_index":[1,2]}"#).speaker, 1);
    assert_eq!(report(r#"{"channel_index":[]}"#).speaker, 0);
    assert_eq!(report(r#"{"channel_index":["1"]}"#).speaker, 0);
    assert_eq!(report(r#"{"channel_index":3}"#).speaker, 3);
    assert_eq!(report(r#"{"metadata":{"channel_index":[4]}}"#).speaker, 4);
    assert_eq!(report(r#"{"metadata":{"channel_index":5}}"#).speaker, 5);
    assert_eq!(report(r#"{"channel_index":"x","metadata":{"channel_index":6}}"#).speaker, 6);
    assert_eq!(report(r#"{"channel_index":[],"metadata":{"channel_index":6}}"#).speaker, 0);
    assert_eq!(report(r#"{"channel_index":1.0}"#).speaker, 0);
    assert_eq!(report("{}").speaker, 0);
}

#[test]
fn a_large_channel_number_loses_its_high_bits() {
    assert_eq!(report(r#"{"channel_index":4294967297}"#).speaker, 1);
    assert_eq!(report(r#"{"channel_index":2147483648}"#).speaker, -2147483648);
    assert_eq!(report(r#"{"channel_index":-1}"#).speaker, -1);
    assert_eq!(report(r#"{"channel_index":-4294967297}"#).speaker, -1);
    assert_eq!(report(r#"{"channel_index":18446744073709551615}"#).speaker, 0);
}

#[test]
fn flags_count_only_as_truth_values() {
    let read = report(r#"{"is_final":1,"speech_final":"true"}"#);
    assert!(!read.is_final);
    assert!(!read.speech_final);
    let read = report(r#"{"is_final":true,"speech_final":true}"#);
    assert!(read.is_final);
    assert!(read.speech_final);
    assert!(read.texts.is_empty());
}

#[test]
fn a_payload_reads_back() {
    let transcript = Transcript {
        text: "a \"quote\", a \\ and \u{1F600}\n".to_string(),
        speaker: -7,
        speech_final: true,
    };
    let text = write_payload(&transcript);
    let json: serde_json::Value = serde_json::from_str(&text).unwrap();
    assert_eq!(json["text"].as_str(), Some(transcript.text.as_str()));
    assert_eq!(json["speaker"].as_i64(), Some(-7));
    assert_eq!(json["speechFinal"].as_bool(), Some(true));
    assert_eq!(json.as_object().unwrap().len(), 3);
}

#[test]
fn white_space_of_any_kind_is_trimmed() {
    let mut filter = TranscriptFilter::new();
    let text = message(
        &alternative("\u{a0}\u{2003}x y\u{3000}\u{85}"),
        r#","is_final":true"#,
    );
    assert_eq!(
        filter.receive(&text),
        vec![r#"{"speaker":0,"speechFinal":false,"text":"x y"}"#.to_string()]
    );
}

#[test]
fn receiving_ends_with_the_connection() {
    let mut filter = TranscriptFilter::new();
    let text = message(&alternative("hello"), r#","is_final":true"#);
    let received = filter.on_message(Incoming::Text(text.clone()));
    assert!(received.goes_on);
    assert_eq!(received.payloads.len(), 1);
    let received = filter.on_message(Incoming::Other);
    assert!(received.goes_on);
    assert!(received.payloads.is_empty());
    let received = filter.on_message(Incoming::Text(text));
    assert!(received.payloads.is_empty());
    assert!(!filter.on_message(Incoming::Closed).goes_on);
    assert!(!filter.on_message(Incoming::Failed).goes_on);
}

#[test]
fn selection_keeps_speaker_and_pause() {
    let mut filter = TranscriptFilter::new();
    let selected = filter.select(&Report {
        texts: vec!["a".to_string(), "b".to_string()],
        is_final: true,
        speech_final: true,
        speaker: 1,
    });
    assert_eq!(selected.len(), 2);
    assert_eq!(selected[0].text, "a");
    assert_eq!(selected[1].text, "b");
    assert!(selected.iter().all(|t| t.speaker == 1 && t.speech_final));
}
