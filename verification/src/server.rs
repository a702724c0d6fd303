//! The local server that the web app connects to: who may connect, what the web
//! app may ask for, and what it is sent.
//!
//! A [`Connection`] takes one [`ConnEvent`] at a time and answers with the
//! [`ConnEffect`]s that the caller has to carry out, in order.
use vstd::prelude::*;
use crate::auth::{AuthInfo, AuthView};
use crate::json::{
    Json, insert_member, json_of, json_print, json_read, new_members, no_members, object_value,
    parse_value, print_value, text_value, value_get,
};
use crate::text::same_text;

verus! {

/// A message of the web app that says what kind it is.
pub struct TypedMessage {
    /// The kind of the message.
    pub msg_type: String,
    /// Everything else in it.
    pub value: serde_json::Value,
}

/// A message of the web app that commands the audio pipeline.
pub struct ControlMessage {
    pub command: String,
}

/// What the first message of a connection comes to.
#[derive(Debug, Clone, Copy, PartialEq, Eq, Structural)]
pub enum Handshake {
    /// The web app may stay.
    Accepted,
    /// The web app is used by somebody else.
    WrongUser,
    /// It was no handshake.
    NoHandshake,
}

/// What a typed message says.
#[verifier::ext_equal]
pub struct TypedView {
    pub msg_type: Seq<char>,
    pub value: Json,
}

impl View for TypedMessage {
    type V = TypedView;

    open spec fn view(&self) -> TypedView {
        TypedView { msg_type: self.msg_type@, value: json_of(self.value) }
    }
}

/// The view of a typed message that may be missing.
pub open spec fn typed_view(message: Option<TypedMessage>) -> Option<TypedView> {
    match message {
        Some(m) => Some(m@),
        None => None,
    }
}

/// The view of a control message that may be missing.
pub open spec fn control_view(message: Option<ControlMessage>) -> Option<Seq<char>> {
    match message {
        Some(m) => Some(m.command@),
        None => None,
    }
}

/// The view of what is stored about the user.
pub open spec fn stored_view(stored: Option<AuthInfo>) -> Option<AuthView> {
    match stored {
        Some(auth) => Some(auth@),
        None => None,
    }
}

/// The user that a message claims to come from.
pub open spec fn claimed_user(value: Json) -> Option<Seq<char>> {
    match value.member("userId"@) {
        Some(id) => id.text(),
        None => None,
    }
}

/// What a message of this kind that claims to come from this user comes to. As
/// long as nothing is known about the user, every handshake is accepted.
pub open spec fn claim_verdict(
    msg_type: Seq<char>,
    claimed: Option<Seq<char>>,
    stored: Option<AuthView>,
) -> Handshake {
    if msg_type != "auth_handshake"@ {
        Handshake::NoHandshake
    } else {
        match stored {
            Some(auth) => if claimed == Some(auth.user_id) {
                Handshake::Accepted
            } else {
                Handshake::WrongUser
            },
            None => Handshake::Accepted,
        }
    }
}

/// What the first message of a connection comes to. `None` stands for anything that
/// is no typed message, and for none in time.
pub open spec fn verdict(first: Option<TypedView>, stored: Option<AuthView>) -> Handshake {
    match first {
        Some(message) => claim_verdict(message.msg_type, claimed_user(message.value), stored),
        None => Handshake::NoHandshake,
    }
}

/// What the web app is answered on its handshake, if anything.
pub open spec fn answer_json(handshake: Handshake) -> Option<Json> {
    match handshake {
        Handshake::Accepted => Some(
            Json::Object(no_members().insert("type"@, Json::Text("auth_confirmed"@))),
        ),
        Handshake::WrongUser => Some(
            Json::Object(
                no_members().insert("type"@, Json::Text("auth_rejected"@)).insert(
                    "reason"@,
                    Json::Text("user_id_mismatch"@),
                ),
            ),
        ),
        Handshake::NoHandshake => None,
    }
}

/// What the web app may command.
pub open spec fn is_command(command: Seq<char>) -> bool {
    command == "start"@ || command == "stop"@ || command == "pause"@
}

/// Judges what a message of this kind that claims to come from this user comes to.
pub fn judge_claim(msg_type: &str, claimed: Option<&str>, stored: &Option<AuthInfo>) -> (handshake:
    Handshake)
    ensures
        handshake == claim_verdict(
            msg_type@,
            (match claimed {
                Some(id) => Some(id@),
                None => None,
            }),
            stored_view(*stored),
        ),
{
    if !same_text(msg_type, "auth_handshake") {
        return Handshake::NoHandshake;
    }
    match stored {
        Some(auth) => match claimed {
            Some(id) => if same_text(id, auth.user_id.as_str()) {
                Handshake::Accepted
            } else {
                Handshake::WrongUser
            },
            None => Handshake::WrongUser,
        },
        None => Handshake::Accepted,
    }
}

/// Judges the first message of a connection.
pub fn judge_first(first: &Option<TypedMessage>, stored: &Option<AuthInfo>) -> (handshake: Handshake)
    ensures
        handshake == verdict(typed_view(*first), stored_view(*stored)),
{
    match first {
        Some(message) => {
            let claimed = match value_get(&message.value, "userId") {
                Some(id) => id.as_str(),
                None => None,
            };
            judge_claim(message.msg_type.as_str(), claimed, stored)
        },
        None => Handshake::NoHandshake,
    }
}

/// Writes what the web app is answered on its handshake. The web app reads back
/// what was written.
pub fn handshake_answer(handshake: Handshake) -> (answer: Option<String>)
    ensures
        match answer {
            Some(text) => {
                &&& answer_json(handshake) matches Some(json)
                &&& text@ == json_print(json)
                &&& json_read(text@) == Some(json)
            },
            None => answer_json(handshake) is None,
        },
{
    let mut members = new_members();
    match handshake {
        Handshake::Accepted => {
            insert_member(&mut members, "type", text_value("auth_confirmed"));
        },
        Handshake::WrongUser => {
            insert_member(&mut members, "type", text_value("auth_rejected"));
            insert_member(&mut members, "reason", text_value("user_id_mismatch"));
        },
        Handshake::NoHandshake => {
            return None;
        },
    }
    Some(print_value(&object_value(members)))
}

/// Whether the web app may command this.
pub fn known_command(command: &str) -> (known: bool)
    ensures
        known == is_command(command@),
{
    same_text(command, "start") || same_text(command, "stop") || same_text(command, "pause")
}

/// Something for the web app, from the transcripts or from the frontend.
pub enum Feed {
    /// A message.
    Message(String),
    /// Messages were missed.
    Lagged,
    /// There will be no more.
    Closed,
}

/// What happens to a connection.
pub enum ConnEvent {
    /// The first message, if it came in time and is a typed message, and what is
    /// known about the user then.
    First { message: Option<TypedMessage>, stored: Option<AuthInfo> },
    /// A later text message, and how it reads as a typed and as a control message.
    Text { text: String, typed: Option<TypedMessage>, control: Option<ControlMessage> },
    /// The web app sends nothing more.
    ReadEnded,
    /// There is something for the web app.
    Outgoing(Feed),
    /// The web app could not be sent the last message.
    WriteFailed,
}

/// What the caller of a connection has to do.
pub enum ConnEffect {
    /// Send this to the web app, whether it arrives or not.
    Answer(String),
    /// Send this to the web app.
    Forward(String),
    /// Pass this on to the frontend, as an event of this name.
    Emit { event: String, value: serde_json::Value },
    /// Give this command to the audio pipeline.
    Command(String),
    /// Tell the frontend that the web app is there.
    TellConnected,
    /// Tell the frontend that the web app is gone.
    TellDisconnected,
    /// Drop the connection.
    Drop,
}

/// A [`ConnEvent`] with its contents.
pub enum ConnEventView {
    First { message: Option<TypedView>, stored: Option<AuthView> },
    Text { text: Seq<char>, typed: Option<TypedView>, control: Option<Seq<char>> },
    ReadEnded,
    Message(Seq<char>),
    Lagged,
    Closed,
    WriteFailed,
}

/// A [`ConnEffect`] with its contents.
pub enum ConnEffectView {
    Answer(Seq<char>),
    Forward(Seq<char>),
    Emit { event: Seq<char>, value: Json },
    Command(Seq<char>),
    TellConnected,
    TellDisconnected,
    Drop,
}

impl View for ConnEvent {
    type V = ConnEventView;

    open spec fn view(&self) -> ConnEventView {
        match *self {
            ConnEvent::First { message, stored } => ConnEventView::First {
                message: typed_view(message),
                stored: stored_view(stored),
            },
            ConnEvent::Text { text, typed, control } => ConnEventView::Text {
                text: text@,
                typed: typed_view(typed),
                control: control_view(control),
            },
            ConnEvent::ReadEnded => ConnEventView::ReadEnded,
            ConnEvent::Outgoing(feed) => match feed {
                Feed::Message(text) => ConnEventView::Message(text@),
                Feed::Lagged => ConnEventView::Lagged,
                Feed::Closed => ConnEventView::Closed,
            },
            ConnEvent::WriteFailed => ConnEventView::WriteFailed,
        }
    }
}

impl View for ConnEffect {
    type V = ConnEffectView;

    open spec fn view(&self) -> ConnEffectView {
        match *self {
            ConnEffect::Answer(text) => ConnEffectView::Answer(text@),
            ConnEffect::Forward(text) => ConnEffectView::Forward(text@),
            ConnEffect::Emit { event, value } => ConnEffectView::Emit {
                event: event@,
                value: json_of(value),
            },
            ConnEffect::Command(command) => ConnEffectView::Command(command@),
            ConnEffect::TellConnected => ConnEffectView::TellConnected,
            ConnEffect::TellDisconnected => ConnEffectView::TellDisconnected,
            ConnEffect::Drop => ConnEffectView::Drop,
        }
    }
}

/// The views of some effects.
pub open spec fn conn_effects_view(effects: Seq<ConnEffect>) -> Seq<ConnEffectView> {
    effects.map_values(|e: ConnEffect| e@)
}

/// How far a connection has come.
#[derive(Debug, Clone, Copy, PartialEq, Eq, Structural)]
pub enum Stage {
    /// Nothing was said yet.
    Greeting,
    /// The web app was accepted. It may still be read from, and written to.
    Serving { reading: bool, writing: bool },
    /// The web app was turned away.
    Refused,
}

/// What the first message does.
pub open spec fn greet(handshake: Handshake) -> (Stage, Seq<ConnEffectView>) {
    match (handshake, answer_json(handshake)) {
        (Handshake::Accepted, Some(json)) => (
            Stage::Serving { reading: true, writing: true },
            seq![ConnEffectView::Answer(json_print(json)), ConnEffectView::TellConnected],
        ),
        (_, Some(json)) => (
            Stage::Refused,
            seq![ConnEffectView::Answer(json_print(json)), ConnEffectView::Drop],
        ),
        _ => (Stage::Refused, seq![ConnEffectView::Drop]),
    }
}

/// What a later message does. A typed message goes to the frontend as it is, a
/// known command to the audio pipeline, and anything else nowhere.
pub open spec fn heed(
    text: Seq<char>,
    typed: Option<TypedView>,
    control: Option<Seq<char>>,
) -> Seq<ConnEffectView> {
    match (typed, control) {
        (Some(message), _) => match json_read(text) {
            Some(json) => seq![ConnEffectView::Emit { event: message.msg_type, value: json }],
            None => seq![],
        },
        (None, Some(command)) => if is_command(command) {
            seq![ConnEffectView::Command(command)]
        } else {
            seq![]
        },
        (None, None) => seq![],
    }
}

/// What an event does. One that comes at the wrong time does nothing.
pub open spec fn conn_step(stage: Stage, event: ConnEventView) -> (Stage, Seq<ConnEffectView>) {
    match (stage, event) {
        (Stage::Greeting, ConnEventView::First { message, stored }) => greet(
            verdict(message, stored),
        ),
        (Stage::Serving { reading: true, writing }, ConnEventView::Text { text, typed, control }) =>
            (stage, heed(text, typed, control)),
        (Stage::Serving { reading: true, writing }, ConnEventView::ReadEnded) => (
            Stage::Serving { reading: false, writing },
            seq![ConnEffectView::Command("stop"@), ConnEffectView::TellDisconnected],
        ),
        (Stage::Serving { reading, writing: true }, ConnEventView::Message(text)) => (
            stage,
            seq![ConnEffectView::Forward(text)],
        ),
        (Stage::Serving { reading, writing: true }, ConnEventView::Closed) => (
            Stage::Serving { reading, writing: false },
            seq![ConnEffectView::TellDisconnected],
        ),
        (Stage::Serving { reading, writing: true }, ConnEventView::WriteFailed) => (
            Stage::Serving { reading, writing: false },
            seq![ConnEffectView::TellDisconnected],
        ),
        _ => (stage, seq![]),
    }
}

/// The web app reads every answer as what the first message came to.
pub open spec fn answers_read_back(event: ConnEventView, effects: Seq<ConnEffectView>) -> bool {
    forall|i: int|
        0 <= i < effects.len() ==> match #[trigger] effects[i] {
            ConnEffectView::Answer(text) => match event {
                ConnEventView::First { message, stored } => json_read(text) == answer_json(
                    verdict(message, stored),
                ),
                _ => false,
            },
            _ => true,
        }
}

/// Decides what a later message of the web app comes to.
pub fn heed_text(text: &str, typed: Option<TypedMessage>, control: Option<ControlMessage>) -> (effect:
    Option<ConnEffect>)
    ensures
        match effect {
            Some(e) => heed(text@, typed_view(typed), control_view(control)) == seq![e@],
            None => heed(text@, typed_view(typed), control_view(control)) == Seq::<
                ConnEffectView,
            >::empty(),
        },
{
    match typed {
        Some(message) => match parse_value(text) {
            Some(value) => Some(ConnEffect::Emit { event: message.msg_type, value }),
            None => None,
        },
        None => match control {
            Some(message) => if known_command(message.command.as_str()) {
                Some(ConnEffect::Command(message.command))
            } else {
                None
            },
            None => None,
        },
    }
}

/// One connection of the web app.
pub struct Connection {
    stage: Stage,
}

impl View for Connection {
    type V = Stage;

    closed spec fn view(&self) -> Stage {
        self.stage
    }
}

impl Connection {
    /// A connection on which nothing was said yet.
    pub fn new() -> (connection: Connection)
        ensures
            connection@ == Stage::Greeting,
    {
        Connection { stage: Stage::Greeting }
    }

    /// How far the connection has come.
    pub fn stage(&self) -> (stage: Stage)
        ensures
            stage == self@,
    {
        self.stage
    }

    /// Takes one event and says what is to be done about it.
    pub fn step(&mut self, event: ConnEvent) -> (effects: Vec<ConnEffect>)
        ensures
            (final(self)@, conn_effects_view(effects@)) == conn_step(old(self)@, event@),
            answers_read_back(event@, conn_effects_view(effects@)),
    {
        let mut effects: Vec<ConnEffect> = Vec::new();
        match event {
            ConnEvent::First { message, stored } => {
                if self.stage == Stage::Greeting {
                    let handshake = judge_first(&message, &stored);
                    match handshake_answer(handshake) {
                        Some(text) => effects.push(ConnEffect::Answer(text)),
                        None => {},
                    }
                    if handshake == Handshake::Accepted {
                        self.stage = Stage::Serving { reading: true, writing: true };
                        effects.push(ConnEffect::TellConnected);
                    } else {
                        self.stage = Stage::Refused;
                        effects.push(ConnEffect::Drop);
                    }
                }
            },
            ConnEvent::Text { text, typed, control } => {
                if let Stage::Serving { reading: true, .. } = self.stage {
                    match heed_text(text.as_str(), typed, control) {
                        Some(effect) => effects.push(effect),
                        None => {},
                    }
                }
            },
            ConnEvent::ReadEnded => {
                if let Stage::Serving { reading: true, writing } = self.stage {
                    self.stage = Stage::Serving { reading: false, writing };
                    effects.push(ConnEffect::Command("stop".to_owned()));
                    effects.push(ConnEffect::TellDisconnected);
                }
            },
            ConnEvent::Outgoing(feed) => {
                if let Stage::Serving { reading, writing: true } = self.stage {
                    match feed {
                        Feed::Message(text) => effects.push(ConnEffect::Forward(text)),
                        Feed::Lagged => {},
                        Feed::Closed => {
                            self.stage = Stage::Serving { reading, writing: false };
                            effects.push(ConnEffect::TellDisconnected);
                        },
                    }
                }
            },
            ConnEvent::WriteFailed => {
                if let Stage::Serving { reading, writing: true } = self.stage {
                    self.stage = Stage::Serving { reading, writing: false };
                    effects.push(ConnEffect::TellDisconnected);
                }
            },
        }
        assert(conn_effects_view(effects@) =~= conn_step(old(self)@, event@).1);
        effects
    }
}

} // verus!
