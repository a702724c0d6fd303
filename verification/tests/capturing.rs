use brainsales_companion::app_state::{
    choose_api_key, initial_command, is_development, list_audio_devices, AppState, AuthNotice,
    StartAnswer,
};
use brainsales_companion::audio::capture::{
    dominant_channel, mic_mono, system_mono, take_channel, AudioCapture, CaptureFault, MicAudio,
    StreamConfig,
};
use brainsales_companion::auth::AuthOutcome;
use brainsales_companion::AuthInfo;

fn bits(samples: &[f32]) -> Vec<u32> {
    samples.iter().map(|s| s.to_bits()).collect()
}

fn config(sample_rate: u32, channels: u16) -> StreamConfig {
    StreamConfig { sample_rate, channels }
}

#[test]
fn the_loudest_channel_is_taken() {
    let data = bits(&[0.1, -0.5, 0.2, 0.3, 0.1, -0.2]);
    assert_eq!(dominant_channel(&data, 3), 1);
    assert_eq!(system_mono(&data, 3), bits(&[-0.5, 0.1]));
}

#[test]
fn of_equally_loud_channels_the_last_is_taken() {
    assert_eq!(dominant_channel(&bits(&[0.5, -0.5]), 2), 1);
    assert_eq!(dominant_channel(&bits(&[0.0, -0.0, 0.0]), 3), 2);
    assert_eq!(dominant_channel(&vec![], 4), 3);
    assert_eq!(dominant_channel(&bits(&[0.5, -0.5, 0.1]), 3), 1);
}

#[test]
fn what_is_no_number_is_silent() {
    assert_eq!(dominant_channel(&bits(&[f32::NAN, 0.001]), 2), 1);
    assert_eq!(dominant_channel(&bits(&[0.001, -f32::NAN]), 2), 0);
    assert_eq!(dominant_channel(&bits(&[f32::INFINITY, 1.0]), 2), 0);
}

#[test]
fn an_incomplete_frame_is_left_out() {
    assert_eq!(take_channel(&vec![1, 2, 3, 4, 5], 2, 0), vec![1, 3]);
    assert_eq!(take_channel(&vec![1, 2, 3, 4, 5], 2, 1), vec![2, 4]);
    assert_eq!(take_channel(&vec![1], 2, 0), Vec::<u32>::new());
    assert_eq!(dominant_channel(&bits(&[0.1, 0.2, 0.9]), 2), 1);
}

#[test]
fn the_microphone_comes_on_one_channel() {
    match mic_mono(vec![1, 2, 3], 1) {
        MicAudio::Mono(samples) => assert_eq!(samples, vec![1, 2, 3]),
        MicAudio::Stereo(_, _) => panic!("one channel is mono"),
    }
    match mic_mono(vec![1, 2, 3, 4, 5], 2) {
        MicAudio::Stereo(left, right) => {
            assert_eq!(left, vec![1, 3]);
            assert_eq!(right, vec![2, 4]);
        }
        MicAudio::Mono(_) => panic!("two channels are stereo"),
    }
    match mic_mono(vec![1, 2, 3, 4, 5, 6, 7], 3) {
        MicAudio::Mono(samples) => assert_eq!(samples, vec![1, 4]),
        MicAudio::Stereo(_, _) => panic!("of three channels the first counts"),
    }
}

#[test]
fn a_capture_starts_and_stops() {
    let mut capture = AudioCapture::new();
    assert!(!capture.is_active());
    assert_eq!(f32::from_bits(capture.mic_gain), 1.0);
    let started = capture.start(Ok((config(16000, 2), config(48000, 6))));
    assert_eq!(started, Ok(((16000, 2), (48000, 1))));
    assert!(capture.is_active());
    capture.stop();
    assert!(!capture.is_active());
}

#[test]
fn faults_of_the_capture_are_told() {
    let mut capture = AudioCapture::new();
    assert_eq!(
        capture.start(Err(CaptureFault::NoInputDevice)),
        Err("Failed to get default input device".to_string())
    );
    assert_eq!(
        capture.start(Err(CaptureFault::NoOutputDevice)),
        Err("Failed to get default output device".to_string())
    );
    assert_eq!(
        capture.start(Err(CaptureFault::Backend("busy".to_string()))),
        Err("busy".to_string())
    );
    assert!(!capture.is_active());
}

#[test]
fn the_companion_is_started_once() {
    let mut state = AppState::new();
    assert_eq!(state.prepare_start(Some(7)), None);
    assert_eq!(state.capture.mic_gain, 7);
    match state.start_companion(Err(CaptureFault::NoOutputDevice)) {
        StartAnswer::Failed(message) => assert_eq!(
            message,
            "Failed to start audio capture: Failed to get default output device"
        ),
        _ => panic!("the capture failed"),
    }
    assert!(!state.is_running);
    match state.start_companion(Ok((config(16000, 1), config(44100, 2)))) {
        StartAnswer::Started { message, mic_rate, sys_rate } => {
            assert_eq!(message, "Companion started");
            assert_eq!((mic_rate, sys_rate), (16000, 44100));
        }
        _ => panic!("the capture runs"),
    }
    assert!(state.is_running);
    assert!(state.capture.is_active());
    assert_eq!(
        state.prepare_start(Some(9)),
        Some("Companion already running".to_string())
    );
    assert_eq!(state.capture.mic_gain, 7);
    match state.start_companion(Ok((config(1, 1), config(1, 1)))) {
        StartAnswer::AlreadyRunning(message) => assert_eq!(message, "Companion already running"),
        _ => panic!("the companion runs already"),
    }
}

#[test]
fn changed_devices_need_a_new_start() {
    let mut state = AppState::new();
    state.start_companion(Ok((config(16000, 1), config(16000, 1))));
    state.set_audio_devices(Some("mic".to_string()), None);
    assert!(!state.capture.is_active());
    assert_eq!(state.capture.preferred_input.as_deref(), Some("mic"));
    assert_eq!(state.capture.preferred_output, None);
    assert!(state.is_running);
}

#[test]
fn a_changed_gain_restarts_what_runs() {
    let mut state = AppState::new();
    assert!(!state.set_mic_gain(5, true));
    assert_eq!(state.capture.mic_gain, 5);
    state.start_companion(Ok((config(16000, 1), config(16000, 1))));
    assert!(!state.set_mic_gain(6, false));
    assert_eq!(state.capture.mic_gain, 5);
    assert!(state.capture.is_active());
    assert!(state.set_mic_gain(6, true));
    assert_eq!(state.capture.mic_gain, 6);
    assert!(!state.capture.is_active());
}

#[test]
fn the_same_gain_again_changes_nothing() {
    let mut state = AppState::new();
    state.start_companion(Ok((config(16000, 1), config(16000, 1))));
    assert!(state.set_mic_gain(6, true));
    assert!(state.capture.start(Err(CaptureFault::NoInputDevice)).is_err());
    assert!(!state.set_mic_gain(6, true));
    assert!(!state.set_mic_gain(6, false));
    assert_eq!(state.capture.mic_gain, 6);
    assert!(!state.capture.is_active());
    assert!(state.capture.start(Ok((config(16000, 1), config(16000, 1)))).is_ok());
    assert!(!state.set_mic_gain(6, true));
    assert!(state.capture.is_active());
}

#[test]
fn devices_are_listed_for_the_frontend() {
    let devices = list_audio_devices(
        &vec!["a".to_string(), "b".to_string()],
        &vec!["c".to_string()],
    );
    assert_eq!(devices.to_string(), r#"{"inputs":["a","b"],"outputs":["c"]}"#);
    assert_eq!(
        list_audio_devices(&vec![], &vec![]).to_string(),
        r#"{"inputs":[],"outputs":[]}"#
    );
}

#[test]
fn the_environment_comes_before_what_is_built_in() {
    let env = || Some("env".to_string());
    let built = || Some("built".to_string());
    assert_eq!(choose_api_key(env(), built()), "env");
    assert_eq!(choose_api_key(None, built()), "built");
    assert_eq!(choose_api_key(None, None), "");
    assert_eq!(choose_api_key(Some(String::new()), built()), "");
}

#[test]
fn developers_are_told_apart() {
    assert!(is_development(true, None));
    assert!(is_development(false, Some("1".to_string())));
    assert!(!is_development(false, Some("true".to_string())));
    assert!(!is_development(false, None));
    assert_eq!(initial_command(), "idle");
}

#[test]
fn the_user_is_remembered() {
    let mut state = AppState::new();
    match state.check_launch(false) {
        Some(AuthNotice::Failed(reason)) => assert_eq!(reason, "not_launched_from_web_app"),
        _ => panic!("nobody is known"),
    }
    match state.check_launch(true) {
        Some(AuthNotice::Received { show_window }) => assert!(!show_window),
        _ => panic!("developers need no user"),
    }
    match state.accept_auth(AuthOutcome::Unknown("why".to_string())) {
        AuthNotice::Failed(reason) => assert_eq!(reason, "why"),
        _ => panic!("nobody is known"),
    }
    assert!(state.auth_info.is_none());
    let auth = AuthInfo { user_id: "u".to_string(), org_id: "o".to_string() };
    match state.accept_auth(AuthOutcome::Known(auth)) {
        AuthNotice::Received { show_window } => assert!(show_window),
        _ => panic!("somebody is known"),
    }
    assert_eq!(state.auth_info.as_ref().unwrap().user_id, "u");
    assert!(state.check_launch(false).is_none());
    state.accept_auth(AuthOutcome::Unknown("why".to_string()));
    assert_eq!(state.auth_info.as_ref().unwrap().org_id, "o");
}
