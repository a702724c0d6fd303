//! What the companion remembers while it runs.
use vstd::prelude::*;
use vstd::string::StringExecFns;
use crate::audio::capture::{AudioCapture, CaptureFault, StreamConfig, gain_set};
use crate::auth::{AuthInfo, AuthOutcome};
use crate::json::{
    Json, insert_member, json_of, jsons_of, list_value, new_members, no_members, object_value,
    text_value,
};
use crate::text::{same_text, text_or_empty, text_view, texts_view};

verus! {

/// What the frontend is told about the user.
pub enum AuthNotice {
    /// The user is known. The window may have to be shown.
    Received { show_window: bool },
    /// The user is not known, for this reason.
    Failed(String),
}

/// What the companion remembers while it runs.
pub struct AppState {
    pub capture: AudioCapture,
    pub is_running: bool,
    pub auth_info: Option<AuthInfo>,
}

/// The key of the speech service: the one of the environment, or else the one that
/// was built in, or else none.
pub fn choose_api_key(environment: Option<String>, built_in: Option<String>) -> (key: String)
    ensures
        key@ == (match text_view(environment) {
            Some(set) => set,
            None => text_or_empty(text_view(built_in)),
        }),
{
    match environment {
        Some(set) => set,
        None => match built_in {
            Some(key) => key,
            None => String::new(),
        },
    }
}

/// Whether the companion runs for its developers: in a debug build, or where the
/// environment says "1".
pub fn is_development(debug_build: bool, environment: Option<String>) -> (development: bool)
    ensures
        development == (debug_build || text_view(environment) == Some("1"@)),
{
    debug_build || match environment {
        Some(value) => same_text(value.as_str(), "1"),
        None => false,
    }
}

/// The command that holds until the web app gives one.
pub fn initial_command() -> (command: String)
    ensures
        command@ == "idle"@,
{
    "idle".to_owned()
}

/// Strings as a JSON list.
pub open spec fn string_list(strings: Seq<Seq<char>>) -> Json {
    Json::List(strings.map_values(|s: Seq<char>| Json::Text(s)))
}

fn list_of_strings(strings: &Vec<String>) -> (value: serde_json::Value)
    ensures
        json_of(value) == string_list(texts_view(strings@)),
{
    let mut items: Vec<serde_json::Value> = Vec::new();
    let mut i: usize = 0;
    while i < strings.len()
        invariant
            i <= strings.len(),
            items.len() == i,
            forall|k: int|
                0 <= k < i ==> json_of(#[trigger] items@[k]) == Json::Text(strings@[k]@),
        decreases strings.len() - i,
    {
        items.push(text_value(strings[i].as_str()));
        i += 1;
    }
    assert(jsons_of(items@) =~= texts_view(strings@).map_values(|s: Seq<char>| Json::Text(s)));
    list_value(items)
}

/// The audio devices as the frontend gets them.
pub fn list_audio_devices(inputs: &Vec<String>, outputs: &Vec<String>) -> (devices: serde_json::Value)
    ensures
        json_of(devices) == Json::Object(
            no_members().insert("inputs"@, string_list(texts_view(inputs@))).insert(
                "outputs"@,
                string_list(texts_view(outputs@)),
            ),
        ),
{
    let mut members = new_members();
    insert_member(&mut members, "inputs", list_of_strings(inputs));
    insert_member(&mut members, "outputs", list_of_strings(outputs));
    object_value(members)
}

/// What the frontend is answered when it starts the companion.
pub enum StartAnswer {
    /// The companion was running already.
    AlreadyRunning(String),
    /// The companion runs now. The sample rates are those of the microphone and of
    /// the system.
    Started { message: String, mic_rate: u32, sys_rate: u32 },
    /// The companion does not run.
    Failed(String),
}

impl AppState {
    /// What the companion remembers when it is launched.
    pub fn new() -> (state: AppState)
        ensures
            !state.is_running,
            state.auth_info is None,
            state.capture == (AudioCapture {
                preferred_input: None,
                preferred_output: None,
                mic_gain: crate::audio::capture::UNIT_GAIN,
                active: false,
            }),
    {
        AppState { capture: AudioCapture::new(), is_running: false, auth_info: None }
    }

    /// Prepares the capture for a start with this gain, where one is given. While the
    /// companion runs, this is the answer to a start already, and no streams are to be
    /// opened.
    pub fn prepare_start(&mut self, gain: Option<u32>) -> (answer: Option<String>)
        ensures
            match answer {
                Some(message) => {
                    &&& old(self).is_running
                    &&& message@ == "Companion already running"@
                    &&& *final(self) == *old(self)
                },
                None => {
                    &&& !old(self).is_running
                    &&& *final(self) == (AppState {
                        capture: AudioCapture {
                            mic_gain: (match gain {
                                Some(g) => g,
                                None => old(self).capture.mic_gain,
                            }),
                            ..old(self).capture
                        },
                        ..*old(self)
                    })
                },
            },
    {
        if self.is_running {
            return Some("Companion already running".to_owned());
        }
        match gain {
            Some(g) => {
                self.capture.mic_gain = g;
            },
            None => {},
        }
        None
    }

    /// Starts the companion, once the streams were opened or could not be. It is
    /// started once only, and runs only if the capture does.
    pub fn start_companion(
        &mut self,
        opened: Result<(StreamConfig, StreamConfig), CaptureFault>,
    ) -> (answer: StartAnswer)
        ensures
            match (old(self).is_running, opened) {
                (true, _) => {
                    &&& answer matches StartAnswer::AlreadyRunning(message) && message@
                        == "Companion already running"@
                    &&& *final(self) == *old(self)
                },
                (false, Ok((mic, sys))) => {
                    &&& answer matches StartAnswer::Started { message, mic_rate, sys_rate } && {
                        &&& message@ == "Companion started"@
                        &&& mic_rate == mic.sample_rate
                        &&& sys_rate == sys.sample_rate
                    }
                    &&& *final(self) == (AppState {
                        is_running: true,
                        capture: AudioCapture { active: true, ..old(self).capture },
                        ..*old(self)
                    })
                },
                (false, Err(fault)) => {
                    &&& answer matches StartAnswer::Failed(message) && message@
                        == "Failed to start audio capture: "@ + fault.spec_message()
                    &&& *final(self) == *old(self)
                },
            },
    {
        if self.is_running {
            return StartAnswer::AlreadyRunning("Companion already running".to_owned());
        }
        match self.capture.start(opened) {
            Ok(((mic_rate, _), (sys_rate, _))) => {
                self.is_running = true;
                StartAnswer::Started { message: "Companion started".to_owned(), mic_rate, sys_rate }
            },
            Err(fault) => {
                let mut message = "Failed to start audio capture: ".to_owned();
                message.append(fault.as_str());
                StartAnswer::Failed(message)
            },
        }
    }

    /// Remembers who uses the companion, and says what the frontend is told. A user
    /// who cannot be found out leaves what was known.
    pub fn accept_auth(&mut self, outcome: AuthOutcome) -> (notice: AuthNotice)
        ensures
            match outcome {
                AuthOutcome::Known(auth) => {
                    &&& *final(self) == (AppState { auth_info: Some(auth), ..*old(self) })
                    &&& notice == (AuthNotice::Received { show_window: true })
                },
                AuthOutcome::Unknown(error) => {
                    &&& *final(self) == *old(self)
                    &&& notice == AuthNotice::Failed(error)
                },
            },
    {
        match outcome {
            AuthOutcome::Known(auth) => {
                self.auth_info = Some(auth);
                AuthNotice::Received { show_window: true }
            },
            AuthOutcome::Unknown(error) => AuthNotice::Failed(error),
        }
    }

    /// What the frontend is told when no deep link has come for a while. Where the
    /// user is known, nothing; developers need none.
    pub fn check_launch(&self, development: bool) -> (notice: Option<AuthNotice>)
        ensures
            match notice {
                None => self.auth_info is Some,
                Some(AuthNotice::Received { show_window }) => self.auth_info is None && development
                    && !show_window,
                Some(AuthNotice::Failed(reason)) => self.auth_info is None && !development
                    && reason@ == "not_launched_from_web_app"@,
            },
    {
        if self.auth_info.is_some() {
            None
        } else if development {
            Some(AuthNotice::Received { show_window: false })
        } else {
            Some(AuthNotice::Failed("not_launched_from_web_app".to_owned()))
        }
    }

    /// Changes the devices that the capture prefers. The capture is stopped, and is
    /// to be started again.
    pub fn set_audio_devices(&mut self, input: Option<String>, output: Option<String>)
        ensures
            *final(self) == (AppState {
                capture: AudioCapture {
                    preferred_input: input,
                    preferred_output: output,
                    active: false,
                    ..old(self).capture
                },
                ..*old(self)
            }),
    {
        self.capture.set_devices(input, output);
    }

    /// Changes the gain of the microphone, where the new one differs enough. Says
    /// whether the capture was stopped for it, and is to be started again.
    pub fn set_mic_gain(&mut self, gain: u32, differs: bool) -> (restart: bool)
        ensures
            restart == gain_set(old(self).capture, gain, differs).1,
            *final(self) == (AppState {
                capture: gain_set(old(self).capture, gain, differs).0,
                ..*old(self)
            }),
    {
        self.capture.set_gain(gain, differs)
    }
}

/// The key of the environment comes before the built-in one, and without either there is
/// an empty one.
pub proof fn law_the_environment_comes_first(
    environment: Option<String>,
    built_in: Option<String>,
    key: String,
)
    requires
        call_ensures(choose_api_key, (environment, built_in), key),
    ensures
        environment matches Some(set) ==> key@ == set@,
        environment is None ==> (built_in matches Some(built) ==> key@ == built@),
        environment is None && built_in is None ==> key@.len() == 0,
{
}

/// A debug build runs for its developers, and any other exactly where the environment
/// says "1".
pub proof fn law_developers_are_told_apart(
    debug_build: bool,
    environment: Option<String>,
    development: bool,
)
    requires
        call_ensures(is_development, (debug_build, environment), development),
    ensures
        debug_build ==> development,
        !debug_build ==> (development <==> (environment matches Some(value) && value@ == "1"@)),
{
}

/// The command that holds at first is none of those that a web app may give.
pub proof fn law_nothing_runs_at_first(command: String)
    requires
        call_ensures(initial_command, (), command),
    ensures
        command@ == "idle"@,
        command@ != "start"@,
{
    reveal_strlit("idle");
    reveal_strlit("start");
    assert("idle"@.len() == 4);
    assert("start"@.len() == 5);
}

/// Strings are listed in order, each as a text.
pub proof fn law_strings_are_listed(strings: Seq<Seq<char>>)
    ensures
        string_list(strings) matches Json::List(items) && {
            &&& items.len() == strings.len()
            &&& forall|i: int|
                0 <= i < strings.len() ==> #[trigger] items[i] == Json::Text(strings[i])
        },
{
}

/// The frontend gets the names of all devices, those of each kind in order and under
/// their own heading.
pub proof fn law_all_devices_are_listed(
    inputs: &Vec<String>,
    outputs: &Vec<String>,
    devices: serde_json::Value,
)
    requires
        call_ensures(list_audio_devices, (inputs, outputs), devices),
    ensures
        json_of(devices) matches Json::Object(members) && {
            &&& members.dom() == set!["inputs"@, "outputs"@]
            &&& members["inputs"@] matches Json::List(items) && {
                &&& items.len() == inputs@.len()
                &&& forall|i: int|
                    0 <= i < items.len() ==> #[trigger] items[i] == Json::Text(inputs@[i]@)
            }
            &&& members["outputs"@] matches Json::List(items) && {
                &&& items.len() == outputs@.len()
                &&& forall|i: int|
                    0 <= i < items.len() ==> #[trigger] items[i] == Json::Text(outputs@[i]@)
            }
        },
{
    reveal_strlit("inputs");
    reveal_strlit("outputs");
    assert("inputs"@.len() == 6);
    assert("outputs"@.len() == 7);
    match json_of(devices) {
        Json::Object(members) => {
            assert(members.dom() =~= set!["inputs"@, "outputs"@]);
        },
        _ => {},
    }
}

/// At launch the companion does not run, knows no user and captures nothing.
pub proof fn law_the_companion_rests_at_launch(state: AppState)
    requires
        call_ensures(AppState::new, (), state),
    ensures
        !state.is_running,
        state.auth_info is None,
        !state.capture.active,
        state.capture.preferred_input is None,
        state.capture.preferred_output is None,
        state.capture.mic_gain == 0x3f80_0000,
{
}

/// A gain that comes with the start is the one that the capture is started with. While
/// the companion runs already, nothing changes.
pub proof fn law_the_start_sets_the_gain(
    state: &mut AppState,
    gain: Option<u32>,
    answer: Option<String>,
)
    requires
        call_ensures(AppState::prepare_start, (state, gain), answer),
    ensures
        answer is Some <==> old(state).is_running,
        answer matches Some(message) ==> message@ == "Companion already running"@,
        old(state).is_running ==> *final(state) == *old(state),
        !old(state).is_running ==> {
            &&& gain matches Some(g) ==> final(state).capture.mic_gain == g
            &&& gain is None ==> final(state).capture.mic_gain == old(state).capture.mic_gain
        },
        final(state).is_running == old(state).is_running,
        final(state).auth_info == old(state).auth_info,
        final(state).capture.active == old(state).capture.active,
        final(state).capture.preferred_input == old(state).capture.preferred_input,
        final(state).capture.preferred_output == old(state).capture.preferred_output,
{
}

/// The companion runs once its streams are open, is told at which rates, and is not
/// started twice. Where the streams could not be opened it is left as it was, and says
/// why.
pub proof fn law_the_companion_starts(
    state: &mut AppState,
    opened: Result<(StreamConfig, StreamConfig), CaptureFault>,
    answer: StartAnswer,
)
    requires
        call_ensures(AppState::start_companion, (state, opened), answer),
    ensures
        old(state).is_running ==> {
            &&& answer matches StartAnswer::AlreadyRunning(message) && message@
                == "Companion already running"@
            &&& *final(state) == *old(state)
        },
        !old(state).is_running ==> (opened matches Ok((mic, sys)) ==> {
            &&& answer matches StartAnswer::Started { message, mic_rate, sys_rate } && {
                &&& message@ == "Companion started"@
                &&& mic_rate == mic.sample_rate
                &&& sys_rate == sys.sample_rate
            }
            &&& final(state).is_running
            &&& final(state).capture.active
        }),
        !old(state).is_running && opened is Err ==> {
            &&& answer is Failed
            &&& *final(state) == *old(state)
        },
        !old(state).is_running ==> (opened matches Err(CaptureFault::Backend(said)) ==> {
            &&& answer matches StartAnswer::Failed(message) && message@
                == "Failed to start audio capture: "@ + said@
        }),
        !old(state).is_running && opened == Err::<(StreamConfig, StreamConfig), CaptureFault>(
            CaptureFault::NoInputDevice,
        ) ==> (answer matches StartAnswer::Failed(message) && message@
            == "Failed to start audio capture: "@ + "Failed to get default input device"@),
        !old(state).is_running && opened == Err::<(StreamConfig, StreamConfig), CaptureFault>(
            CaptureFault::NoOutputDevice,
        ) ==> (answer matches StartAnswer::Failed(message) && message@
            == "Failed to start audio capture: "@ + "Failed to get default output device"@),
        final(state).auth_info == old(state).auth_info,
        final(state).capture.mic_gain == old(state).capture.mic_gain,
        final(state).capture.preferred_input == old(state).capture.preferred_input,
        final(state).capture.preferred_output == old(state).capture.preferred_output,
{
}

/// A user who was found out is the one that is remembered, and the window is shown. One
/// who was not leaves what was known, and the frontend hears why.
pub proof fn law_the_user_is_remembered(
    state: &mut AppState,
    outcome: AuthOutcome,
    notice: AuthNotice,
)
    requires
        call_ensures(AppState::accept_auth, (state, outcome), notice),
    ensures
        outcome matches AuthOutcome::Known(auth) ==> {
            &&& final(state).auth_info == Some(auth)
            &&& notice matches AuthNotice::Received { show_window } && show_window
        },
        outcome matches AuthOutcome::Unknown(error) ==> {
            &&& final(state).auth_info == old(state).auth_info
            &&& notice matches AuthNotice::Failed(reason) && reason@ == error@
        },
        final(state).is_running == old(state).is_running,
        final(state).capture == old(state).capture,
{
}

/// A companion that knows its user says nothing more about that. One that does not is
/// good enough for developers, and tells anybody else to come from the web app.
pub proof fn law_launches_are_checked(
    state: &AppState,
    development: bool,
    notice: Option<AuthNotice>,
)
    requires
        call_ensures(AppState::check_launch, (state, development), notice),
    ensures
        notice is None <==> state.auth_info is Some,
        state.auth_info is None && development ==> (notice matches Some(
            AuthNotice::Received { show_window },
        ) && !show_window),
        state.auth_info is None && !development ==> (notice matches Some(
            AuthNotice::Failed(reason),
        ) && reason@ == "not_launched_from_web_app"@),
{
}

/// The devices that are asked for are those that are preferred, the capture is to be
/// started again, and nothing else changes.
pub proof fn law_audio_devices_are_taken_over(
    state: &mut AppState,
    input: Option<String>,
    output: Option<String>,
)
    requires
        call_ensures(AppState::set_audio_devices, (state, input, output), ()),
    ensures
        final(state).capture.preferred_input == input,
        final(state).capture.preferred_output == output,
        !final(state).capture.active,
        final(state).capture.mic_gain == old(state).capture.mic_gain,
        final(state).is_running == old(state).is_running,
        final(state).auth_info == old(state).auth_info,
{
}

/// A gain that differs enough and is not the present one is taken over, whatever it is,
/// and a capture that runs is to be started again for it. Any other gain changes nothing.
pub proof fn law_mic_gains_are_taken_over(
    state: &mut AppState,
    gain: u32,
    differs: bool,
    restart: bool,
)
    requires
        call_ensures(AppState::set_mic_gain, (state, gain, differs), restart),
    ensures
        differs && gain != old(state).capture.mic_gain ==> {
            &&& final(state).capture.mic_gain == gain
            &&& restart == old(state).capture.active
            &&& !final(state).capture.active
        },
        !differs || gain == old(state).capture.mic_gain ==> {
            &&& *final(state) == *old(state)
            &&& !restart
        },
        final(state).is_running == old(state).is_running,
        final(state).auth_info == old(state).auth_info,
        final(state).capture.preferred_input == old(state).capture.preferred_input,
        final(state).capture.preferred_output == old(state).capture.preferred_output,
{
}

} // verus!
