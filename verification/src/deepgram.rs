//! The speech service: how it is reached, and when the companion listens for it.
use vstd::prelude::*;
use vstd::string::StringExecFns;
use crate::json::{
    Json, insert_member, json_of, new_members, no_members, object_value, text_value,
};
use crate::text::{
    decimal, decimal_text, join3, law_decimals_read_back, number_of, same_text,
};
use crate::vad::StreamState;

verus! {

/// The address of the speech service, for audio of this sample rate: two channels
/// of 16-bit samples, each with a transcript of its own.
pub fn listen_url(sample_rate: u32) -> (address: String)
    ensures
        address@ == "wss://api.deepgram.com/v1/listen?encoding=linear16&sample_rate="@ + decimal(
            sample_rate as nat,
        ) + "&channels=2&multichannel=true&model=nova-2&smart_format=true"@,
{
    join3(
        "wss://api.deepgram.com/v1/listen?encoding=linear16&sample_rate=",
        decimal_text(sample_rate).as_str(),
        "&channels=2&multichannel=true&model=nova-2&smart_format=true",
    )
}

/// The authorization that goes with a key of the speech service.
pub fn authorization(api_key: &str) -> (header: String)
    ensures
        header@ == "Token "@ + api_key@,
{
    let mut header = "Token ".to_owned();
    header.append(api_key);
    header
}

/// The message that tells the speech service that the stream ends.
pub fn close_stream_message() -> (text: String)
    ensures
        text@ == "{\"type\":\"CloseStream\"}"@,
{
    "{\"type\":\"CloseStream\"}".to_owned()
}

/// What the frontend calls what a session does.
pub open spec fn state_name(state: StreamState) -> Seq<char> {
    match state {
        StreamState::Listening => "idle"@,
        StreamState::Streaming => "streaming"@,
    }
}

/// What the frontend is told about what a session does.
pub fn state_message(state: StreamState) -> (value: serde_json::Value)
    ensures
        json_of(value) == Json::Object(no_members().insert("state"@, Json::Text(state_name(state)))),
{
    let name = match state {
        StreamState::Listening => "idle",
        StreamState::Streaming => "streaming",
    };
    let mut members = new_members();
    insert_member(&mut members, "state", text_value(name));
    object_value(members)
}

/// Where the outer loop of the companion is.
#[derive(Debug, Clone, Copy, PartialEq, Eq, Structural)]
pub enum LoopState {
    /// It waits for the "start" command.
    AwaitingStart,
    /// A streaming session runs.
    InSession,
    /// It is over.
    Ended,
}

/// What happens to the outer loop.
pub enum LoopEvent {
    /// The web app's command is this now.
    Command(String),
    /// There will be no more commands.
    CommandsClosed,
    /// The streaming session is over.
    SessionOver,
}

/// What the caller of the outer loop has to do.
#[derive(Debug, Clone, Copy, PartialEq, Eq, Structural)]
pub enum LoopAction {
    /// Wait until the command changes.
    AwaitCommand,
    /// Drop the audio that has piled up, and run a streaming session.
    RunSession,
    /// Tell the frontend that the companion is idle, and look at the command again.
    AnnounceIdle,
    /// Leave the loop.
    Return,
    /// Nothing.
    Nothing,
}

/// A [`LoopEvent`] with its contents.
pub enum LoopEventView {
    Command(Seq<char>),
    CommandsClosed,
    SessionOver,
}

impl View for LoopEvent {
    type V = LoopEventView;

    open spec fn view(&self) -> LoopEventView {
        match *self {
            LoopEvent::Command(command) => LoopEventView::Command(command@),
            LoopEvent::CommandsClosed => LoopEventView::CommandsClosed,
            LoopEvent::SessionOver => LoopEventView::SessionOver,
        }
    }
}

/// What an event does to the outer loop. One that comes at the wrong time does
/// nothing.
pub open spec fn loop_step(state: LoopState, event: LoopEventView) -> (LoopState, LoopAction) {
    match (state, event) {
        (LoopState::AwaitingStart, LoopEventView::Command(command)) => if command == "start"@ {
            (LoopState::InSession, LoopAction::RunSession)
        } else {
            (LoopState::AwaitingStart, LoopAction::AwaitCommand)
        },
        (LoopState::AwaitingStart, LoopEventView::CommandsClosed) => (
            LoopState::Ended,
            LoopAction::Return,
        ),
        (LoopState::InSession, LoopEventView::SessionOver) => (
            LoopState::AwaitingStart,
            LoopAction::AnnounceIdle,
        ),
        _ => (state, LoopAction::Nothing),
    }
}

/// Decides what the outer loop does next.
pub fn next_action(state: LoopState, event: LoopEvent) -> (next: (LoopState, LoopAction))
    ensures
        next == loop_step(state, event@),
{
    match (state, event) {
        (LoopState::AwaitingStart, LoopEvent::Command(command)) => if same_text(
            command.as_str(),
            "start",
        ) {
            (LoopState::InSession, LoopAction::RunSession)
        } else {
            (LoopState::AwaitingStart, LoopAction::AwaitCommand)
        },
        (LoopState::AwaitingStart, LoopEvent::CommandsClosed) => (
            LoopState::Ended,
            LoopAction::Return,
        ),
        (LoopState::InSession, LoopEvent::SessionOver) => (
            LoopState::AwaitingStart,
            LoopAction::AnnounceIdle,
        ),
        (other, _) => (other, LoopAction::Nothing),
    }
}

/// What comes of looking for audio that has piled up.
#[derive(Debug, Clone, Copy, PartialEq, Eq, Structural)]
pub enum Backlog {
    /// Audio was there, and was dropped.
    Audio,
    /// Audio was missed before this; there may be more.
    Missed,
    /// No audio waits.
    Empty,
    /// The source is gone, and no audio waits.
    Closed,
}

/// Whether audio may still wait when this has come of looking for it.
pub open spec fn may_wait(outcome: Backlog) -> bool {
    outcome is Audio || outcome is Missed
}

/// Whether to look for more audio that has piled up before a session begins.
pub fn keeps_draining(outcome: Backlog) -> (goes_on: bool)
    ensures
        goes_on == (outcome is Audio || outcome is Missed),
{
    match outcome {
        Backlog::Audio => true,
        Backlog::Missed => true,
        Backlog::Empty => false,
        Backlog::Closed => false,
    }
}

/// How often audio is looked for, where these come of it one after the other and the
/// search goes on for as long as audio may wait.
pub open spec fn looks(outcomes: Seq<Backlog>) -> nat
    decreases outcomes.len(),
{
    if outcomes.len() == 0 {
        0
    } else if may_wait(outcomes.first()) {
        looks(outcomes.drop_first()) + 1
    } else {
        1
    }
}

/// No audio that has piled up reaches a session, whether or not some was missed: the
/// search ends exactly where no audio waits any more, and not before.
pub proof fn law_no_stale_audio_is_left(outcomes: Seq<Backlog>, end: int)
    requires
        0 <= end < outcomes.len(),
        !may_wait(outcomes[end]),
        forall|i: int| 0 <= i < end ==> may_wait(#[trigger] outcomes[i]),
    ensures
        looks(outcomes) == end + 1,
    decreases end,
{
    if end > 0 {
        let rest = outcomes.drop_first();
        assert(may_wait(outcomes[0]));
        assert forall|i: int| 0 <= i < end - 1 implies may_wait(#[trigger] rest[i]) by {
            assert(rest[i] == outcomes[i + 1]);
        }
        law_no_stale_audio_is_left(rest, end - 1);
    }
}

/// The state of the outer loop after some events.
pub open spec fn loop_run(state: LoopState, events: Seq<LoopEventView>) -> LoopState
    decreases events.len(),
{
    if events.len() == 0 {
        state
    } else {
        loop_step(loop_run(state, events.drop_last()), events.last()).0
    }
}

/// A session begins only on "start": as long as that command does not come, the loop
/// that waits for it begins none.
pub proof fn law_sessions_begin_on_start(events: Seq<LoopEventView>)
    requires
        forall|i: int|
            0 <= i < events.len() ==> #[trigger] events[i] != LoopEventView::Command("start"@),
    ensures
        loop_run(LoopState::AwaitingStart, events) !is InSession,
    decreases events.len(),
{
    if events.len() > 0 {
        let fewer = events.drop_last();
        assert forall|i: int| 0 <= i < fewer.len() implies #[trigger] fewer[i]
            != LoopEventView::Command("start"@) by {
            assert(fewer[i] == events[i]);
        }
        law_sessions_begin_on_start(fewer);
        assert(events[events.len() - 1] != LoopEventView::Command("start"@));
    }
}

/// A session begins on "start" and on nothing else, and every session ends with the
/// frontend told that the companion is idle and the loop ready for the next one.
pub proof fn law_sessions_begin_and_end(state: LoopState, event: LoopEventView)
    ensures
        ({
            let next = loop_step(state, event);
            &&& next.1 is RunSession <==> {
                &&& state is AwaitingStart
                &&& event == LoopEventView::Command("start"@)
            }
            &&& next.1 is RunSession <==> state !is InSession && next.0 is InSession
            &&& state is InSession && next.0 !is InSession ==> {
                &&& next.1 is AnnounceIdle
                &&& next.0 is AwaitingStart
            }
        }),
{
}

/// While "start" has not come the loop waits for the next command, and leaves when there
/// can be none. During a session nothing but its end counts, and once the loop is over
/// nothing does.
pub proof fn law_the_loop_waits_and_leaves(state: LoopState, event: LoopEventView)
    ensures
        ({
            let next = loop_step(state, event);
            &&& state is AwaitingStart && event is Command && event != LoopEventView::Command(
                "start"@,
            ) ==> next == (LoopState::AwaitingStart, LoopAction::AwaitCommand)
            &&& state is AwaitingStart && event is CommandsClosed ==> next == (
                LoopState::Ended,
                LoopAction::Return,
            )
            &&& state is AwaitingStart && event is SessionOver ==> next == (
                state,
                LoopAction::Nothing,
            )
            &&& state is InSession && event !is SessionOver ==> next == (state, LoopAction::Nothing)
            &&& state is Ended ==> next == (state, LoopAction::Nothing)
        }),
{
}

/// The outer loop does as it is told.
pub proof fn law_the_loop_is_carried_out(
    state: LoopState,
    command: String,
    after_command: (LoopState, LoopAction),
    after_close: (LoopState, LoopAction),
    after_session: (LoopState, LoopAction),
)
    requires
        call_ensures(next_action, (state, LoopEvent::Command(command)), after_command),
        call_ensures(next_action, (state, LoopEvent::CommandsClosed), after_close),
        call_ensures(next_action, (state, LoopEvent::SessionOver), after_session),
    ensures
        after_command == loop_step(state, LoopEventView::Command(command@)),
        after_close == loop_step(state, LoopEventView::CommandsClosed),
        after_session == loop_step(state, LoopEventView::SessionOver),
{
}

/// The service is asked for the transcripts of two channels, at the sample rate of the
/// audio.
pub proof fn law_the_service_gets_the_sample_rate(sample_rate: u32, address: String)
    requires
        call_ensures(listen_url, (sample_rate,), address),
    ensures
        exists|digits: Seq<char>|
            {
                &&& address@
                    == "wss://api.deepgram.com/v1/listen?encoding=linear16&sample_rate="@
                    + digits + "&channels=2&multichannel=true&model=nova-2&smart_format=true"@
                &&& #[trigger] number_of(digits) == sample_rate
                &&& digits.len() > 0
                &&& digits.len() > 1 ==> digits[0] != '0'
                &&& forall|i: int| 0 <= i < digits.len() ==> '0' <= #[trigger] digits[i] <= '9'
            },
{
    law_decimals_read_back(sample_rate as nat);
    assert(number_of(decimal(sample_rate as nat)) == sample_rate);
}

/// The key goes to the service as it is, after the word "Token".
pub proof fn law_the_key_is_shown(api_key: &str, header: String, goodbye: String)
    requires
        call_ensures(authorization, (api_key,), header),
        call_ensures(close_stream_message, (), goodbye),
    ensures
        header@ == "Token "@ + api_key@,
        goodbye@ == "{\"type\":\"CloseStream\"}"@,
{
}

/// The frontend is told the state and nothing else: "streaming" while a session streams,
/// and "idle" while it listens.
pub proof fn law_the_state_is_told(state: StreamState, value: serde_json::Value)
    requires
        call_ensures(state_message, (state,), value),
    ensures
        json_of(value) matches Json::Object(members) && {
            &&& members.dom() == set!["state"@]
            &&& state is Streaming ==> members["state"@] == Json::Text("streaming"@)
            &&& state is Listening ==> members["state"@] == Json::Text("idle"@)
        },
{
    match json_of(value) {
        Json::Object(members) => {
            assert(members.dom() =~= set!["state"@]);
        },
        _ => {},
    }
}

/// The search for stale audio goes on after audio and after a lag, and ends where there
/// is nothing more.
pub proof fn law_draining_goes_on_while_audio_may_wait(outcome: Backlog, goes_on: bool)
    requires
        call_ensures(keeps_draining, (outcome,), goes_on),
    ensures
        goes_on <==> outcome is Audio || outcome is Missed,
        goes_on <==> may_wait(outcome),
{
}

} // verus!
