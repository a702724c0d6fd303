//! What connections of the web app do over many events.
use vstd::prelude::*;
use crate::auth::{AuthInfo, AuthView};
use crate::json::{Json, json_of, json_print, json_read};
use crate::server::{
    ConnEffect, ConnEffectView, ConnEvent, ConnEventView, Connection, ControlMessage, Feed,
    Handshake, Stage, TypedMessage, TypedView, answer_json, claimed_user, conn_effects_view,
    conn_step, control_view, handshake_answer, heed, heed_text, is_command, judge_claim,
    judge_first, known_command, typed_view, verdict,
};

verus! {

/// The stage of a connection after some events, and all effects on the way.
pub open spec fn serve(stage: Stage, events: Seq<ConnEventView>) -> (Stage, Seq<ConnEffectView>)
    decreases events.len(),
{
    if events.len() == 0 {
        (stage, seq![])
    } else {
        let before = serve(stage, events.drop_last());
        let after = conn_step(before.0, events.last());
        (after.0, before.1 + after.1)
    }
}

/// Whether the event is a handshake that is accepted.
pub open spec fn is_welcome(event: ConnEventView) -> bool {
    match event {
        ConnEventView::First { message, stored } => verdict(message, stored) is Accepted,
        _ => false,
    }
}

/// Whether the effect does no more than answer the web app or drop it.
pub open spec fn is_refusal(effect: ConnEffectView) -> bool {
    effect is Answer || effect is Drop
}

/// When something is known about the user, exactly the handshakes that claim to
/// come from that user are accepted.
pub proof fn law_only_the_user_is_accepted(message: TypedView, auth: AuthView)
    ensures
        verdict(Some(message), Some(auth)) is Accepted <==> {
            &&& message.msg_type == "auth_handshake"@
            &&& claimed_user(message.value) == Some(auth.user_id)
        },
{
}

/// When nothing is known about the user yet, every handshake is accepted.
pub proof fn law_anyone_is_accepted_at_first(message: TypedView)
    ensures
        verdict(Some(message), None) is Accepted <==> message.msg_type == "auth_handshake"@,
{
}

/// A web app that was not accepted gets nowhere: whatever it sends, no command
/// reaches the audio pipeline, nothing reaches the frontend, and nothing is
/// forwarded.
pub proof fn law_strangers_get_nowhere(events: Seq<ConnEventView>)
    requires
        forall|i: int| 0 <= i < events.len() ==> !is_welcome(#[trigger] events[i]),
    ensures
        serve(Stage::Greeting, events).0 !is Serving,
        forall|i: int|
            0 <= i < serve(Stage::Greeting, events).1.len() ==> is_refusal(
                #[trigger] serve(Stage::Greeting, events).1[i],
            ),
    decreases events.len(),
{
    if events.len() > 0 {
        let fewer = events.drop_last();
        assert forall|i: int| 0 <= i < fewer.len() implies !is_welcome(#[trigger] fewer[i]) by {
            assert(fewer[i] == events[i]);
        }
        law_strangers_get_nowhere(fewer);
        assert(!is_welcome(events[events.len() - 1]));
    }
}

/// Only the first message decides: a web app that was turned away stays away, and
/// is sent nothing more.
pub proof fn law_refused_stays_refused(events: Seq<ConnEventView>)
    ensures
        serve(Stage::Refused, events) == (Stage::Refused, Seq::<ConnEffectView>::empty()),
    decreases events.len(),
{
    if events.len() > 0 {
        law_refused_stays_refused(events.drop_last());
        assert(serve(Stage::Refused, events).1 =~= Seq::<ConnEffectView>::empty());
    }
}

/// A web app used by somebody else is told so, and dropped.
pub proof fn law_wrong_user_is_told(message: Option<TypedView>, stored: Option<AuthView>)
    requires
        verdict(message, stored) is WrongUser,
    ensures
        conn_step(Stage::Greeting, ConnEventView::First { message, stored }) == (
            Stage::Refused,
            seq![
                ConnEffectView::Answer(json_print(answer_json(Handshake::WrongUser).unwrap())),
                ConnEffectView::Drop,
            ],
        ),
{
}

/// The audio pipeline gets no commands but "start", "stop" and "pause".
pub proof fn law_only_known_commands(stage: Stage, events: Seq<ConnEventView>)
    ensures
        forall|i: int|
            0 <= i < serve(stage, events).1.len() ==> match #[trigger] serve(stage, events).1[i] {
                ConnEffectView::Command(command) => is_command(command),
                _ => true,
            },
    decreases events.len(),
{
    if events.len() > 0 {
        law_only_known_commands(stage, events.drop_last());
    }
}

/// When the web app goes, the audio pipeline is stopped, and nothing that happens
/// on the connection starts it again.
pub proof fn law_leaving_stops_the_pipeline(writing: bool, events: Seq<ConnEventView>)
    ensures
        conn_step(Stage::Serving { reading: true, writing }, ConnEventView::ReadEnded) == (
            Stage::Serving { reading: false, writing },
            seq![ConnEffectView::Command("stop"@), ConnEffectView::TellDisconnected],
        ),
        ({
            let after = serve(Stage::Serving { reading: false, writing }, events);
            &&& after.0 matches Stage::Serving { reading, .. } && !reading
            &&& forall|i: int|
                0 <= i < after.1.len() ==> (#[trigger] after.1[i]) !is Command
        }),
    decreases events.len(),
{
    if events.len() > 0 {
        law_leaving_stops_the_pipeline(writing, events.drop_last());
    }
}

/// Events in two parts do what they do in one.
pub proof fn law_serving_composes(
    stage: Stage,
    first: Seq<ConnEventView>,
    second: Seq<ConnEventView>,
)
    ensures
        serve(stage, first + second).0 == serve(serve(stage, first).0, second).0,
        serve(stage, first + second).1 == serve(stage, first).1 + serve(
            serve(stage, first).0,
            second,
        ).1,
    decreases second.len(),
{
    if second.len() == 0 {
        assert(first + second =~= first);
        assert(serve(stage, first).1 + Seq::<ConnEffectView>::empty() =~= serve(stage, first).1);
    } else {
        law_serving_composes(stage, first, second.drop_last());
        assert((first + second).drop_last() =~= first + second.drop_last());
        assert(serve(stage, first + second).1 =~= serve(stage, first).1 + serve(
            serve(stage, first).0,
            second,
        ).1);
    }
}

/// The messages for the web app among some events, in order.
pub open spec fn messages_in(events: Seq<ConnEventView>) -> Seq<Seq<char>>
    decreases events.len(),
{
    if events.len() == 0 {
        seq![]
    } else {
        match events.last() {
            ConnEventView::Message(text) => messages_in(events.drop_last()).push(text),
            _ => messages_in(events.drop_last()),
        }
    }
}

/// The messages that some effects forward to the web app, in order.
pub open spec fn forwarded(effects: Seq<ConnEffectView>) -> Seq<Seq<char>>
    decreases effects.len(),
{
    if effects.len() == 0 {
        seq![]
    } else {
        match effects.last() {
            ConnEffectView::Forward(text) => forwarded(effects.drop_last()).push(text),
            _ => forwarded(effects.drop_last()),
        }
    }
}

/// Whether the event leaves the web app one that can be written to.
pub open spec fn keeps_writing(event: ConnEventView) -> bool {
    event !is Closed && event !is WriteFailed
}

proof fn lemma_forwarded(first: Seq<ConnEffectView>, second: Seq<ConnEffectView>)
    ensures
        forwarded(first + second) == forwarded(first) + forwarded(second),
    decreases second.len(),
{
    if second.len() == 0 {
        assert(first + second =~= first);
        assert(forwarded(first) + forwarded(second) =~= forwarded(first));
    } else {
        assert((first + second).drop_last() =~= first + second.drop_last());
        lemma_forwarded(first, second.drop_last());
        assert(forwarded(first + second) =~= forwarded(first) + forwarded(second));
    }
}

/// As long as the web app can be written to, it gets every message once, as it is and
/// in order, whatever it says in between, whatever was missed, and even after it sends
/// nothing more.
pub proof fn law_messages_are_forwarded_in_order(reading: bool, events: Seq<ConnEventView>)
    requires
        forall|i: int| 0 <= i < events.len() ==> keeps_writing(#[trigger] events[i]),
    ensures
        ({
            let after = serve(Stage::Serving { reading, writing: true }, events);
            &&& after.0 matches Stage::Serving { writing, .. } && writing
            &&& forwarded(after.1) == messages_in(events)
        }),
    decreases events.len(),
{
    let stage = Stage::Serving { reading, writing: true };
    if events.len() > 0 {
        let fewer = events.drop_last();
        assert forall|i: int| 0 <= i < fewer.len() implies keeps_writing(#[trigger] fewer[i]) by {
            assert(fewer[i] == events[i]);
        }
        law_messages_are_forwarded_in_order(reading, fewer);
        assert(keeps_writing(events[events.len() - 1]));
        let before = serve(stage, fewer);
        let after = conn_step(before.0, events.last());
        lemma_forwarded(before.1, after.1);
        reveal_with_fuel(forwarded, 3);
        assert(forwarded(serve(stage, events).1) =~= messages_in(events));
    }
}

/// Once the web app cannot be written to any more, nothing more is forwarded to it.
pub proof fn law_nothing_is_forwarded_after_a_failure(reading: bool, events: Seq<ConnEventView>)
    ensures
        ({
            let after = serve(Stage::Serving { reading, writing: false }, events);
            &&& after.0 matches Stage::Serving { writing, .. } && !writing
            &&& forwarded(after.1) == Seq::<Seq<char>>::empty()
        }),
    decreases events.len(),
{
    let stage = Stage::Serving { reading, writing: false };
    if events.len() > 0 {
        law_nothing_is_forwarded_after_a_failure(reading, events.drop_last());
        let before = serve(stage, events.drop_last());
        let after = conn_step(before.0, events.last());
        lemma_forwarded(before.1, after.1);
        reveal_with_fuel(forwarded, 3);
        assert(forwarded(serve(stage, events).1) =~= Seq::<Seq<char>>::empty());
    }
}

proof fn lemma_greeting_lasts(events: Seq<ConnEventView>)
    requires
        forall|i: int| 0 <= i < events.len() ==> (#[trigger] events[i]) !is First,
    ensures
        serve(Stage::Greeting, events) == (Stage::Greeting, Seq::<ConnEffectView>::empty()),
    decreases events.len(),
{
    if events.len() > 0 {
        let fewer = events.drop_last();
        assert forall|i: int| 0 <= i < fewer.len() implies (#[trigger] fewer[i]) !is First by {
            assert(fewer[i] == events[i]);
        }
        lemma_greeting_lasts(fewer);
        assert(events[events.len() - 1] !is First);
        assert(serve(Stage::Greeting, events).1 =~= Seq::<ConnEffectView>::empty());
    }
}

/// A web app that is accepted hears so before anything else, and then gets every
/// message that is handed to the connection from then on, once and in order, as long
/// as it can be written to. Nothing is forwarded before.
pub proof fn law_accepted_apps_get_every_message(
    before: Seq<ConnEventView>,
    welcome: ConnEventView,
    after: Seq<ConnEventView>,
)
    requires
        forall|i: int| 0 <= i < before.len() ==> (#[trigger] before[i]) !is First,
        is_welcome(welcome),
        forall|i: int| 0 <= i < after.len() ==> keeps_writing(#[trigger] after[i]),
    ensures
        serve(Stage::Greeting, before + seq![welcome]).1 == seq![
            ConnEffectView::Answer(json_print(answer_json(Handshake::Accepted).unwrap())),
            ConnEffectView::TellConnected,
        ],
        ({
            let all = serve(Stage::Greeting, before + seq![welcome] + after);
            &&& all.1.take(2) == serve(Stage::Greeting, before + seq![welcome]).1
            &&& forwarded(all.1) == messages_in(after)
        }),
{
    let greeted = before + seq![welcome];
    let serving = Stage::Serving { reading: true, writing: true };
    lemma_greeting_lasts(before);
    assert(greeted.drop_last() =~= before);
    assert(greeted.last() == welcome);
    let answer = conn_step(Stage::Greeting, welcome);
    assert(serve(Stage::Greeting, greeted).1 =~= answer.1);
    law_serving_composes(Stage::Greeting, greeted, after);
    law_messages_are_forwarded_in_order(true, after);
    lemma_forwarded(answer.1, serve(serving, after).1);
    reveal_with_fuel(forwarded, 3);
    assert(forwarded(answer.1) =~= Seq::<Seq<char>>::empty());
    let all = serve(Stage::Greeting, greeted + after);
    assert(all.1.take(2) =~= answer.1);
    assert(forwarded(all.1) =~= messages_in(after));
}

/// All web apps that can be written to get the same: where two of them are handed the
/// same messages, the same is forwarded to both, whatever else happens to each.
pub proof fn law_all_apps_get_the_same(
    one_reads: bool,
    one: Seq<ConnEventView>,
    other_reads: bool,
    other: Seq<ConnEventView>,
)
    requires
        forall|i: int| 0 <= i < one.len() ==> keeps_writing(#[trigger] one[i]),
        forall|i: int| 0 <= i < other.len() ==> keeps_writing(#[trigger] other[i]),
        messages_in(one) == messages_in(other),
    ensures
        forwarded(serve(Stage::Serving { reading: one_reads, writing: true }, one).1) == forwarded(
            serve(Stage::Serving { reading: other_reads, writing: true }, other).1,
        ),
{
    law_messages_are_forwarded_in_order(one_reads, one);
    law_messages_are_forwarded_in_order(other_reads, other);
}

/// A typed message of a web app that is read from goes to the frontend, whole and under
/// its own name, whether or not it commands something too. It does nothing else.
pub proof fn law_typed_messages_reach_the_frontend(
    writing: bool,
    text: Seq<char>,
    message: TypedView,
    control: Option<Seq<char>>,
    json: Json,
)
    requires
        json_read(text) == Some(json),
    ensures
        conn_step(
            Stage::Serving { reading: true, writing },
            ConnEventView::Text { text, typed: Some(message), control },
        ) == (
            Stage::Serving { reading: true, writing },
            seq![ConnEffectView::Emit { event: message.msg_type, value: json }],
        ),
{
}

/// A message that is not typed and commands "start", "stop" or "pause" reaches the audio
/// pipeline as it is, and nothing else is done.
pub proof fn law_commands_reach_the_pipeline(writing: bool, text: Seq<char>, command: Seq<char>)
    requires
        command == "start"@ || command == "stop"@ || command == "pause"@,
    ensures
        conn_step(
            Stage::Serving { reading: true, writing },
            ConnEventView::Text { text, typed: None, control: Some(command) },
        ) == (Stage::Serving { reading: true, writing }, seq![ConnEffectView::Command(command)]),
{
}

/// What can be read neither way goes nowhere: a typed message that is no document, a
/// command that is not known, and what is neither typed nor a command.
pub proof fn law_other_messages_go_nowhere(
    stage: Stage,
    text: Seq<char>,
    typed: Option<TypedView>,
    control: Option<Seq<char>>,
)
    requires
        typed is Some ==> json_read(text) is None,
        typed is None ==> match control {
            Some(command) => command != "start"@ && command != "stop"@ && command != "pause"@,
            None => true,
        },
    ensures
        conn_step(stage, ConnEventView::Text { text, typed, control }).0 == stage,
        conn_step(stage, ConnEventView::Text { text, typed, control }).1.len() == 0,
{
}

/// Whoever heeds a text does as the connection would, and nothing else.
pub proof fn law_heeding_is_exact(
    text: &str,
    typed: Option<TypedMessage>,
    control: Option<ControlMessage>,
    effect: Option<ConnEffect>,
)
    requires
        call_ensures(heed_text, (text, typed, control), effect),
    ensures
        typed matches Some(message) ==> match json_read(text@) {
            Some(json) => effect matches Some(e) && e@ == (ConnEffectView::Emit {
                event: message.msg_type@,
                value: json,
            }),
            None => effect is None,
        },
        typed is None && control is None ==> effect is None,
        typed is None ==> (control matches Some(message) ==> {
            let command = message.command@;
            if command == "start"@ || command == "stop"@ || command == "pause"@ {
                effect matches Some(e) && e@ == ConnEffectView::Command(command)
            } else {
                effect is None
            }
        }),
{
    let heeded = heed(text@, typed_view(typed), control_view(control));
    match effect {
        Some(e) => {
            assert(heeded[0] == e@);
            assert(heeded.len() == 1);
        },
        None => {
            assert(heeded.len() == 0);
        },
    }
}

/// Exactly three commands are known.
pub proof fn law_three_commands_are_known(command: &str, known: bool)
    requires
        call_ensures(known_command, (command,), known),
    ensures
        known <==> command@ == "start"@ || command@ == "stop"@ || command@ == "pause"@,
{
}

/// A message is forwarded as it is to a web app that can be written to.
pub proof fn law_messages_are_forwarded_as_they_are(reading: bool, text: Seq<char>)
    ensures
        conn_step(Stage::Serving { reading, writing: true }, ConnEventView::Message(text)) == (
            Stage::Serving { reading, writing: true },
            seq![ConnEffectView::Forward(text)],
        ),
{
}

/// When there is nothing more to write, or it cannot be written, the frontend hears that
/// the web app is gone. Reading goes on as before.
pub proof fn law_the_end_of_writing_is_told(reading: bool, event: ConnEventView)
    requires
        event is Closed || event is WriteFailed,
    ensures
        conn_step(Stage::Serving { reading, writing: true }, event) == (
            Stage::Serving { reading, writing: false },
            seq![ConnEffectView::TellDisconnected],
        ),
{
}

/// What comes at the wrong time does nothing: anything but a first message before it,
/// another first message after it, a text or the end of reading once nothing more is
/// read, anything to write once nothing more is written, and messages that were missed.
pub proof fn law_untimely_connection_events_do_nothing(stage: Stage, event: ConnEventView)
    requires
        match event {
            ConnEventView::First { .. } => stage !is Greeting,
            ConnEventView::Text { .. } => !(stage matches Stage::Serving { reading, .. } && reading),
            ConnEventView::ReadEnded => !(stage matches Stage::Serving { reading, .. } && reading),
            ConnEventView::Lagged => true,
            _ => !(stage matches Stage::Serving { writing, .. } && writing),
        },
    ensures
        conn_step(stage, event).0 == stage,
        conn_step(stage, event).1.len() == 0,
{
}

/// What is no handshake, or comes too late, is dropped without an answer.
pub proof fn law_what_is_no_handshake_is_dropped(
    message: Option<TypedView>,
    stored: Option<AuthView>,
)
    requires
        message matches Some(m) ==> m.msg_type != "auth_handshake"@,
    ensures
        verdict(message, stored) is NoHandshake,
        conn_step(Stage::Greeting, ConnEventView::First { message, stored }) == (
            Stage::Refused,
            seq![ConnEffectView::Drop],
        ),
{
}

/// A handshake claims to come from the user whose name stands under "userId", as a text,
/// and from nobody where no text stands there.
pub proof fn law_claims_are_read(value: Json, user: Seq<char>)
    ensures
        claimed_user(value) == Some(user) <==> (value matches Json::Object(members) && {
            &&& members.dom().contains("userId"@)
            &&& members["userId"@] == Json::Text(user)
        }),
{
}

/// A handshake of anybody but the known user is refused as one of the wrong user, and
/// every other handshake is accepted.
pub proof fn law_handshakes_are_judged(message: TypedView, stored: Option<AuthView>)
    requires
        message.msg_type == "auth_handshake"@,
    ensures
        ({
            let wrong = stored matches Some(auth) && !(message.value matches Json::Object(members)
                && {
                &&& members.dom().contains("userId"@)
                &&& members["userId"@] == Json::Text(auth.user_id)
            });
            &&& wrong ==> verdict(Some(message), stored) is WrongUser
            &&& !wrong ==> verdict(Some(message), stored) is Accepted
        }),
{
}

/// The claim alone decides, whoever asks.
pub proof fn law_claims_are_judged(
    msg_type: &str,
    claimed: Option<&str>,
    stored: &Option<AuthInfo>,
    handshake: Handshake,
)
    requires
        call_ensures(judge_claim, (msg_type, claimed, stored), handshake),
    ensures
        handshake is NoHandshake <==> msg_type@ != "auth_handshake"@,
        handshake is Accepted <==> {
            &&& msg_type@ == "auth_handshake"@
            &&& *stored matches Some(auth) ==> claimed matches Some(id) && id@ == auth.user_id@
        },
{
}

/// The first message of a connection is judged by its contents.
pub proof fn law_first_messages_are_judged(
    first: &Option<TypedMessage>,
    stored: &Option<AuthInfo>,
    handshake: Handshake,
)
    requires
        call_ensures(judge_first, (first, stored), handshake),
    ensures
        *first is None ==> handshake is NoHandshake,
        *first matches Some(message) ==> handshake == verdict(
            Some(TypedView { msg_type: message.msg_type@, value: json_of(message.value) }),
            (match *stored {
                Some(auth) => Some(
                    AuthView { user_id: auth.user_id@, org_id: auth.org_id@ },
                ),
                None => None,
            }),
        ),
{
    match *first {
        Some(message) => {
            assert(message@ =~= TypedView {
                msg_type: message.msg_type@,
                value: json_of(message.value),
            });
        },
        None => {},
    }
}

/// A web app that is accepted is told "auth_confirmed" and nothing else. One that is used
/// by somebody else is told "auth_rejected" and why. Anything else is told nothing.
pub proof fn law_answers_say_what_was_judged(handshake: Handshake, answer: Option<String>)
    requires
        call_ensures(handshake_answer, (handshake,), answer),
    ensures
        handshake is Accepted ==> (answer matches Some(text) && json_read(text@) matches Some(
            Json::Object(members),
        ) && {
            &&& members.dom() == set!["type"@]
            &&& members["type"@] == Json::Text("auth_confirmed"@)
        }),
        handshake is WrongUser ==> (answer matches Some(text) && json_read(text@) matches Some(
            Json::Object(members),
        ) && {
            &&& members.dom() == set!["type"@, "reason"@]
            &&& members["type"@] == Json::Text("auth_rejected"@)
            &&& members["reason"@] == Json::Text("user_id_mismatch"@)
        }),
        handshake is NoHandshake ==> answer is None,
{
    reveal_strlit("type");
    reveal_strlit("reason");
    assert("type"@.len() == 4);
    assert("reason"@.len() == 6);
    match answer_json(handshake) {
        Some(Json::Object(members)) => {
            if handshake is Accepted {
                assert(members.dom() =~= set!["type"@]);
            } else {
                assert(members.dom() =~= set!["type"@, "reason"@]);
            }
        },
        _ => {},
    }
}

/// A new connection has heard nothing yet.
pub proof fn law_new_connections_greet(connection: Connection)
    requires
        call_ensures(Connection::new, (), connection),
    ensures
        connection@ is Greeting,
{
}

/// A connection does as it is told, and asks for as many effects as there are.
pub proof fn law_connection_steps_are_carried_out(
    connection: &mut Connection,
    event: ConnEvent,
    effects: Vec<ConnEffect>,
)
    requires
        call_ensures(Connection::step, (connection, event), effects),
    ensures
        final(connection)@ == conn_step(old(connection)@, event@).0,
        effects@.len() == conn_step(old(connection)@, event@).1.len(),
        forall|i: int|
            0 <= i < effects@.len() ==> (#[trigger] effects@[i])@ == conn_step(
                old(connection)@,
                event@,
            ).1[i],
{
    assert forall|i: int| 0 <= i < effects@.len() implies (#[trigger] effects@[i])@ == conn_step(
        old(connection)@,
        event@,
    ).1[i] by {
        assert(conn_effects_view(effects@)[i] == effects@[i]@);
    }
}

/// What a connection is told is what happened: no event stands for another one.
pub proof fn law_connection_events_are_what_happened(
    text: String,
    message: Option<TypedMessage>,
    control: Option<ControlMessage>,
    stored: Option<AuthInfo>,
)
    ensures
        (ConnEvent::First { message, stored })@ == (ConnEventView::First {
            message: (match message {
                Some(m) => Some(TypedView { msg_type: m.msg_type@, value: json_of(m.value) }),
                None => None,
            }),
            stored: (match stored {
                Some(a) => Some(AuthView { user_id: a.user_id@, org_id: a.org_id@ }),
                None => None,
            }),
        }),
        (ConnEvent::Text { text, typed: message, control })@ == (ConnEventView::Text {
            text: text@,
            typed: (match message {
                Some(m) => Some(TypedView { msg_type: m.msg_type@, value: json_of(m.value) }),
                None => None,
            }),
            control: (match control {
                Some(c) => Some(c.command@),
                None => None,
            }),
        }),
        (ConnEvent::ReadEnded)@ == ConnEventView::ReadEnded,
        (ConnEvent::Outgoing(Feed::Message(text)))@ == ConnEventView::Message(text@),
        (ConnEvent::Outgoing(Feed::Lagged))@ == ConnEventView::Lagged,
        (ConnEvent::Outgoing(Feed::Closed))@ == ConnEventView::Closed,
        (ConnEvent::WriteFailed)@ == ConnEventView::WriteFailed,
{
}

/// What a connection asks for is what is done: no effect stands for another one.
pub proof fn law_connection_effects_are_what_is_done(text: String, value: serde_json::Value)
    ensures
        (ConnEffect::Answer(text))@ == ConnEffectView::Answer(text@),
        (ConnEffect::Forward(text))@ == ConnEffectView::Forward(text@),
        (ConnEffect::Emit { event: text, value })@ == (ConnEffectView::Emit {
            event: text@,
            value: json_of(value),
        }),
        (ConnEffect::Command(text))@ == ConnEffectView::Command(text@),
        (ConnEffect::TellConnected)@ == ConnEffectView::TellConnected,
        (ConnEffect::TellDisconnected)@ == ConnEffectView::TellDisconnected,
        (ConnEffect::Drop)@ == ConnEffectView::Drop,
{
}

/// A connection tells how far it has come as it is.
pub proof fn law_connections_tell_their_stage(connection: &Connection, stage: Stage)
    requires
        call_ensures(Connection::stage, (connection,), stage),
    ensures
        stage == connection@,
{
}

} // verus!
