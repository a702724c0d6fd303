//! The voice-gated stream: when a connection to the speech service is opened,
//! what is sent over it, and when it is closed again.
//!
//! A [`VadSession`] takes one [`Event`] at a time and answers with the
//! [`Effect`]s that the caller has to carry out, in order. Opening a connection
//! and sending audio take time; the session waits for their outcome, which comes
//! back as an event too.
use vstd::prelude::*;
use std::collections::VecDeque;
use crate::text::same_text;

verus! {

/// So many chunks of speech in a row open a connection.
pub const SPEECH_TRIGGER_COUNT: u32 = 3;

/// So many chunks of silence in a row close the connection.
pub const SILENCE_CLOSE_COUNT: u32 = 37;

/// So many chunks from before the connection was there are sent over it first.
pub const PRE_BUFFER_SIZE: usize = 8;

/// Whether the session listens for speech or streams it.
#[derive(Debug, Clone, Copy, PartialEq, Eq, Structural)]
pub enum StreamState {
    Listening,
    Streaming,
}

/// What the session waits for before it can take the next chunk.
#[derive(Debug, Clone, Copy, PartialEq, Eq, Structural)]
pub enum Waiting {
    /// For nothing: the next chunk or command is welcome.
    Nothing,
    /// For the connection that is being opened.
    Opening,
    /// For a chunk from the pre-speech buffer to be sent.
    Flushing,
    /// For the current chunk to be sent; it did or did not hold speech.
    Sending { speech: bool },
}

/// What happens to a session.
pub enum Event {
    /// A chunk of encoded audio, and whether it holds speech.
    Chunk { pcm: Vec<u8>, speech: bool },
    /// The connection was opened, or could not be.
    Opened(bool),
    /// The audio handed out last was sent, or could not be.
    Sent(bool),
    /// The web app's command was set to this.
    Command(String),
    /// An audio source is gone.
    SourceClosed,
}

/// What the caller of a session has to do.
pub enum Effect {
    /// Open a connection to the speech service and start receiving from it.
    Open,
    /// Send this audio over the connection.
    SendAudio(Vec<u8>),
    /// Tell the speech service that the stream ends, and close the connection.
    SendCloseStream,
    /// Send a closing frame over the connection.
    SendClose,
    /// Give the connection up and stop receiving from it.
    Disconnect,
    /// Tell the frontend what the session does now.
    Announce(StreamState),
}

/// An [`Event`] with its contents.
pub enum EventView {
    Chunk { pcm: Seq<u8>, speech: bool },
    Opened(bool),
    Sent(bool),
    Command(Seq<char>),
    SourceClosed,
}

/// An [`Effect`] with its contents.
pub enum EffectView {
    Open,
    SendAudio(Seq<u8>),
    SendCloseStream,
    SendClose,
    Disconnect,
    Announce(StreamState),
}

impl View for Event {
    type V = EventView;

    open spec fn view(&self) -> EventView {
        match *self {
            Event::Chunk { pcm, speech } => EventView::Chunk { pcm: pcm@, speech },
            Event::Opened(ok) => EventView::Opened(ok),
            Event::Sent(ok) => EventView::Sent(ok),
            Event::Command(command) => EventView::Command(command@),
            Event::SourceClosed => EventView::SourceClosed,
        }
    }
}

impl View for Effect {
    type V = EffectView;

    open spec fn view(&self) -> EffectView {
        match *self {
            Effect::Open => EffectView::Open,
            Effect::SendAudio(pcm) => EffectView::SendAudio(pcm@),
            Effect::SendCloseStream => EffectView::SendCloseStream,
            Effect::SendClose => EffectView::SendClose,
            Effect::Disconnect => EffectView::Disconnect,
            Effect::Announce(state) => EffectView::Announce(state),
        }
    }
}

/// The views of a list of effects.
pub open spec fn effects_view(effects: Seq<Effect>) -> Seq<EffectView> {
    effects.map_values(|e: Effect| e@)
}

/// The views of a list of chunks.
pub open spec fn chunks_view(chunks: Seq<Vec<u8>>) -> Seq<Seq<u8>> {
    chunks.map_values(|c: Vec<u8>| c@)
}

/// What a session is in the middle of.
#[verifier::ext_equal]
pub struct SessionView {
    pub state: StreamState,
    pub waiting: Waiting,
    /// Chunks of speech in a row while listening.
    pub speech_run: int,
    /// Chunks of silence in a row while streaming.
    pub silence_run: int,
    /// The chunks to send first when a connection is there, oldest first.
    pub pre_buffer: Seq<Seq<u8>>,
    pub connected: bool,
    pub finished: bool,
}

/// The last `n` elements of a sequence, or all of it where it has fewer.
pub open spec fn last_of<T>(s: Seq<T>, n: nat) -> Seq<T> {
    if s.len() > n {
        s.skip(s.len() - n)
    } else {
        s
    }
}

/// The effect alone if it is called for, and nothing otherwise.
pub open spec fn effect_if(wanted: bool, effect: EffectView) -> Seq<EffectView> {
    if wanted {
        seq![effect]
    } else {
        seq![]
    }
}

impl SessionView {
    /// A session that has seen nothing yet.
    pub open spec fn fresh() -> SessionView {
        SessionView {
            state: StreamState::Listening,
            waiting: Waiting::Nothing,
            speech_run: 0,
            silence_run: 0,
            pre_buffer: seq![],
            connected: false,
            finished: false,
        }
    }

    /// What holds of a session at all times.
    pub open spec fn wf(self) -> bool {
        &&& self.pre_buffer.len() <= PRE_BUFFER_SIZE
        &&& 0 <= self.speech_run <= SPEECH_TRIGGER_COUNT
        &&& 0 <= self.silence_run <= SILENCE_CLOSE_COUNT
        &&& self.state is Streaming ==> {
            &&& self.silence_run < SILENCE_CLOSE_COUNT
            &&& self.pre_buffer.len() == 0
        }
        &&& match self.waiting {
            Waiting::Nothing => {
                &&& self.state is Listening ==> self.speech_run < SPEECH_TRIGGER_COUNT
                &&& self.connected ==> self.state is Streaming
            },
            Waiting::Opening => {
                &&& self.state is Listening
                &&& !self.connected
                &&& self.pre_buffer.len() > 0
                &&& self.speech_run == SPEECH_TRIGGER_COUNT
            },
            Waiting::Flushing => {
                &&& self.state is Listening
                &&& self.connected
                &&& self.speech_run == SPEECH_TRIGGER_COUNT
            },
            Waiting::Sending { .. } => {
                &&& self.state is Streaming
                &&& self.connected
            },
        }
        &&& self.finished ==> self.waiting is Nothing && !self.connected
    }

    /// A chunk arrives while the session listens.
    pub open spec fn hear(self, pcm: Seq<u8>, speech: bool) -> (SessionView, Seq<EffectView>) {
        let kept = SessionView {
            pre_buffer: last_of(self.pre_buffer.push(pcm), PRE_BUFFER_SIZE as nat),
            speech_run: if speech {
                self.speech_run + 1
            } else {
                0
            },
            ..self
        };
        if kept.speech_run >= SPEECH_TRIGGER_COUNT {
            (SessionView { waiting: Waiting::Opening, ..kept }, seq![EffectView::Open])
        } else {
            (kept, seq![])
        }
    }

    /// The connection that was asked for is there, or is not.
    pub open spec fn opened(self, ok: bool) -> (SessionView, Seq<EffectView>) {
        if ok {
            SessionView { connected: true, ..self }.flush()
        } else {
            (SessionView { waiting: Waiting::Nothing, speech_run: 0, ..self }, seq![])
        }
    }

    /// The next chunk of the pre-speech buffer is due, or streaming begins.
    pub open spec fn flush(self) -> (SessionView, Seq<EffectView>) {
        if self.pre_buffer.len() > 0 {
            (
                SessionView {
                    waiting: Waiting::Flushing,
                    pre_buffer: self.pre_buffer.drop_first(),
                    ..self
                },
                seq![EffectView::SendAudio(self.pre_buffer.first())],
            )
        } else {
            (self.streaming(), seq![EffectView::Announce(StreamState::Streaming)])
        }
    }

    /// The session as it begins to stream.
    pub open spec fn streaming(self) -> SessionView {
        SessionView {
            state: StreamState::Streaming,
            waiting: Waiting::Nothing,
            silence_run: 0,
            ..self
        }
    }

    /// A chunk of the pre-speech buffer could not be sent. What is left of the
    /// buffer is dropped with the connection, and the session goes on as one that
    /// streams without a connection.
    pub open spec fn flush_failed(self) -> (SessionView, Seq<EffectView>) {
        (
            SessionView { connected: false, speech_run: 0, pre_buffer: seq![], ..self }.streaming(),
            seq![
                EffectView::Disconnect,
                EffectView::Announce(StreamState::Listening),
                EffectView::Announce(StreamState::Streaming),
            ],
        )
    }

    /// A chunk arrives while the session streams.
    pub open spec fn stream(self, pcm: Seq<u8>, speech: bool) -> (SessionView, Seq<EffectView>) {
        if self.connected {
            (
                SessionView { waiting: Waiting::Sending { speech }, ..self },
                seq![EffectView::SendAudio(pcm)],
            )
        } else {
            self.streamed(speech)
        }
    }

    /// A chunk has been dealt with while the session streams.
    pub open spec fn streamed(self, speech: bool) -> (SessionView, Seq<EffectView>) {
        let next = SessionView {
            waiting: Waiting::Nothing,
            silence_run: if speech {
                0
            } else {
                self.silence_run + 1
            },
            ..self
        };
        if next.silence_run >= SILENCE_CLOSE_COUNT {
            (
                SessionView {
                    state: StreamState::Listening,
                    speech_run: 0,
                    connected: false,
                    ..next
                },
                effect_if(self.connected, EffectView::SendCloseStream) + effect_if(
                    self.connected,
                    EffectView::Disconnect,
                ) + seq![EffectView::Announce(StreamState::Listening)],
            )
        } else {
            (next, seq![])
        }
    }

    /// The chunk that was handed out could not be sent: back to listening.
    pub open spec fn send_failed(self) -> (SessionView, Seq<EffectView>) {
        (
            SessionView {
                state: StreamState::Listening,
                waiting: Waiting::Nothing,
                speech_run: 0,
                silence_run: 0,
                connected: false,
                ..self
            },
            seq![EffectView::Disconnect, EffectView::Announce(StreamState::Listening)],
        )
    }

    /// The session when it is over.
    pub open spec fn over(self) -> SessionView {
        SessionView { connected: false, finished: true, ..self }
    }

    /// The web app's command was set. Only "start" lets the session go on.
    pub open spec fn commanded(self, command: Seq<char>) -> (SessionView, Seq<EffectView>) {
        if command == "start"@ {
            (self, seq![])
        } else {
            (
                self.over(),
                effect_if(self.connected, EffectView::SendClose) + effect_if(
                    self.connected,
                    EffectView::Disconnect,
                ) + seq![EffectView::Announce(StreamState::Listening)],
            )
        }
    }

    /// An audio source is gone, and the session with it.
    pub open spec fn source_closed(self) -> (SessionView, Seq<EffectView>) {
        (
            self.over(),
            effect_if(self.connected, EffectView::SendClose) + effect_if(
                self.connected,
                EffectView::Disconnect,
            ),
        )
    }

    /// Whether the session can take this event now.
    pub open spec fn expects(self, event: EventView) -> bool {
        &&& !self.finished
        &&& match event {
            EventView::Opened(_) => self.waiting is Opening,
            EventView::Sent(_) => self.waiting is Flushing || self.waiting is Sending,
            _ => self.waiting is Nothing,
        }
    }

    /// What an event does. One that the session does not expect does nothing.
    pub open spec fn step(self, event: EventView) -> (SessionView, Seq<EffectView>) {
        if !self.expects(event) {
            (self, seq![])
        } else {
            match event {
                EventView::Chunk { pcm, speech } => match self.state {
                    StreamState::Listening => self.hear(pcm, speech),
                    StreamState::Streaming => self.stream(pcm, speech),
                },
                EventView::Opened(ok) => self.opened(ok),
                EventView::Sent(ok) => match self.waiting {
                    Waiting::Sending { speech } => if ok {
                        self.streamed(speech)
                    } else {
                        self.send_failed()
                    },
                    _ => if ok {
                        self.flush()
                    } else {
                        self.flush_failed()
                    },
                },
                EventView::Command(command) => self.commanded(command),
                EventView::SourceClosed => self.source_closed(),
            }
        }
    }
}

/// One voice-gated streaming session, from the "start" command to its end.
pub struct VadSession {
    state: StreamState,
    waiting: Waiting,
    speech_run: u32,
    silence_run: u32,
    pre_buffer: VecDeque<Vec<u8>>,
    connected: bool,
    finished: bool,
}

impl View for VadSession {
    type V = SessionView;

    closed spec fn view(&self) -> SessionView {
        SessionView {
            state: self.state,
            waiting: self.waiting,
            speech_run: self.speech_run as int,
            silence_run: self.silence_run as int,
            pre_buffer: chunks_view(self.pre_buffer@),
            connected: self.connected,
            finished: self.finished,
        }
    }
}

impl VadSession {
    /// A session that listens and has no connection.
    pub fn new() -> (session: VadSession)
        ensures
            session@ == SessionView::fresh(),
            session@.wf(),
    {
        let session = VadSession {
            state: StreamState::Listening,
            waiting: Waiting::Nothing,
            speech_run: 0,
            silence_run: 0,
            pre_buffer: VecDeque::with_capacity(PRE_BUFFER_SIZE),
            connected: false,
            finished: false,
        };
        assert(session@.pre_buffer =~= Seq::<Seq<u8>>::empty());
        session
    }

    /// Takes one event and says what is to be done about it.
    pub fn step(&mut self, event: Event) -> (effects: Vec<Effect>)
        requires
            old(self)@.wf(),
        ensures
            final(self)@.wf(),
            (final(self)@, effects_view(effects@)) == old(self)@.step(event@),
    {
        let effects: Vec<Effect> = Vec::new();
        assert(effects_view(effects@) =~= seq![]);
        if self.finished {
            return effects;
        }
        match event {
            Event::Chunk { pcm, speech } => {
                if self.waiting != Waiting::Nothing {
                    return effects;
                }
                match self.state {
                    StreamState::Listening => self.hear(pcm, speech),
                    StreamState::Streaming => self.stream(pcm, speech),
                }
            },
            Event::Opened(ok) => {
                if self.waiting != Waiting::Opening {
                    return effects;
                }
                self.opened(ok)
            },
            Event::Sent(ok) => match self.waiting {
                Waiting::Sending { speech } => if ok {
                    self.streamed(speech)
                } else {
                    self.send_failed()
                },
                Waiting::Flushing => if ok {
                    self.flush()
                } else {
                    self.flush_failed()
                },
                _ => effects,
            },
            Event::Command(command) => {
                if self.waiting != Waiting::Nothing {
                    return effects;
                }
                self.commanded(&command)
            },
            Event::SourceClosed => {
                if self.waiting != Waiting::Nothing {
                    return effects;
                }
                self.source_closed()
            },
        }
    }

    fn hear(&mut self, pcm: Vec<u8>, speech: bool) -> (effects: Vec<Effect>)
        requires
            old(self)@.wf(),
            !old(self)@.finished,
            old(self)@.state is Listening,
            old(self)@.waiting is Nothing,
        ensures
            final(self)@.wf(),
            (final(self)@, effects_view(effects@)) == old(self)@.hear(pcm@, speech),
    {
        let mut effects: Vec<Effect> = Vec::new();
        let ghost chunks = self.pre_buffer@;
        self.pre_buffer.push_back(pcm);
        proof {
            assert(chunks_view(self.pre_buffer@) =~= chunks_view(chunks).push(pcm@));
        }
        if self.pre_buffer.len() > PRE_BUFFER_SIZE {
            let ghost longer = self.pre_buffer@;
            let _dropped = self.pre_buffer.pop_front();
            proof {
                assert(chunks_view(self.pre_buffer@) =~= chunks_view(longer).skip(1));
            }
        }
        if speech {
            self.speech_run = self.speech_run + 1;
            if self.speech_run >= SPEECH_TRIGGER_COUNT {
                self.waiting = Waiting::Opening;
                effects.push(Effect::Open);
            }
        } else {
            self.speech_run = 0;
        }
        assert(final(self)@ =~= old(self)@.hear(pcm@, speech).0);
        assert(effects_view(effects@) =~= old(self)@.hear(pcm@, speech).1);
        effects
    }

    fn opened(&mut self, ok: bool) -> (effects: Vec<Effect>)
        requires
            old(self)@.wf(),
            !old(self)@.finished,
            old(self)@.waiting is Opening,
        ensures
            final(self)@.wf(),
            (final(self)@, effects_view(effects@)) == old(self)@.opened(ok),
    {
        if ok {
            self.connected = true;
            self.waiting = Waiting::Flushing;
            self.flush()
        } else {
            let effects: Vec<Effect> = Vec::new();
            self.waiting = Waiting::Nothing;
            self.speech_run = 0;
            assert(effects_view(effects@) =~= seq![]);
            effects
        }
    }

    fn flush(&mut self) -> (effects: Vec<Effect>)
        requires
            old(self)@.wf(),
            !old(self)@.finished,
            old(self)@.waiting is Flushing,
        ensures
            final(self)@.wf(),
            (final(self)@, effects_view(effects@)) == old(self)@.flush(),
    {
        let mut effects: Vec<Effect> = Vec::new();
        let ghost chunks = self.pre_buffer@;
        match self.pre_buffer.pop_front() {
            Some(chunk) => {
                effects.push(Effect::SendAudio(chunk));
                assert(chunks_view(self.pre_buffer@) =~= chunks_view(chunks).drop_first());
            },
            None => {
                self.state = StreamState::Streaming;
                self.waiting = Waiting::Nothing;
                self.silence_run = 0;
                effects.push(Effect::Announce(StreamState::Streaming));
            },
        }
        assert(effects_view(effects@) =~= old(self)@.flush().1);
        effects
    }

    fn flush_failed(&mut self) -> (effects: Vec<Effect>)
        requires
            old(self)@.wf(),
            !old(self)@.finished,
            old(self)@.waiting is Flushing,
        ensures
            final(self)@.wf(),
            (final(self)@, effects_view(effects@)) == old(self)@.flush_failed(),
    {
        let mut effects: Vec<Effect> = Vec::new();
        self.pre_buffer.clear();
        self.connected = false;
        effects.push(Effect::Disconnect);
        self.speech_run = 0;
        effects.push(Effect::Announce(StreamState::Listening));
        self.state = StreamState::Streaming;
        self.waiting = Waiting::Nothing;
        self.silence_run = 0;
        effects.push(Effect::Announce(StreamState::Streaming));
        assert(self@.pre_buffer =~= Seq::<Seq<u8>>::empty());
        assert(effects_view(effects@) =~= old(self)@.flush_failed().1);
        effects
    }

    fn stream(&mut self, pcm: Vec<u8>, speech: bool) -> (effects: Vec<Effect>)
        requires
            old(self)@.wf(),
            !old(self)@.finished,
            old(self)@.state is Streaming,
            old(self)@.waiting is Nothing,
        ensures
            final(self)@.wf(),
            (final(self)@, effects_view(effects@)) == old(self)@.stream(pcm@, speech),
    {
        if self.connected {
            let mut effects: Vec<Effect> = Vec::new();
            self.waiting = Waiting::Sending { speech };
            effects.push(Effect::SendAudio(pcm));
            assert(effects_view(effects@) =~= old(self)@.stream(pcm@, speech).1);
            effects
        } else {
            self.streamed(speech)
        }
    }

    fn streamed(&mut self, speech: bool) -> (effects: Vec<Effect>)
        requires
            old(self)@.wf(),
            !old(self)@.finished,
            old(self)@.state is Streaming,
        ensures
            final(self)@.wf(),
            (final(self)@, effects_view(effects@)) == old(self)@.streamed(speech),
    {
        let mut effects: Vec<Effect> = Vec::new();
        self.waiting = Waiting::Nothing;
        if speech {
            self.silence_run = 0;
        } else {
            self.silence_run = self.silence_run + 1;
            if self.silence_run >= SILENCE_CLOSE_COUNT {
                if self.connected {
                    effects.push(Effect::SendCloseStream);
                    effects.push(Effect::Disconnect);
                    self.connected = false;
                }
                self.state = StreamState::Listening;
                self.speech_run = 0;
                effects.push(Effect::Announce(StreamState::Listening));
            }
        }
        assert(effects_view(effects@) =~= old(self)@.streamed(speech).1);
        effects
    }

    fn send_failed(&mut self) -> (effects: Vec<Effect>)
        requires
            old(self)@.wf(),
            !old(self)@.finished,
            old(self)@.waiting is Sending,
        ensures
            final(self)@.wf(),
            (final(self)@, effects_view(effects@)) == old(self)@.send_failed(),
    {
        let mut effects: Vec<Effect> = Vec::new();
        self.connected = false;
        effects.push(Effect::Disconnect);
        self.state = StreamState::Listening;
        self.waiting = Waiting::Nothing;
        self.speech_run = 0;
        self.silence_run = 0;
        effects.push(Effect::Announce(StreamState::Listening));
        assert(effects_view(effects@) =~= old(self)@.send_failed().1);
        effects
    }

    fn commanded(&mut self, command: &String) -> (effects: Vec<Effect>)
        requires
            old(self)@.wf(),
            !old(self)@.finished,
            old(self)@.waiting is Nothing,
        ensures
            final(self)@.wf(),
            (final(self)@, effects_view(effects@)) == old(self)@.commanded(command@),
    {
        let mut effects: Vec<Effect> = Vec::new();
        if !same_text(command.as_str(), "start") {
            effects = self.source_closed();
            effects.push(Effect::Announce(StreamState::Listening));
        }
        assert(effects_view(effects@) =~= old(self)@.commanded(command@).1);
        effects
    }

    fn source_closed(&mut self) -> (effects: Vec<Effect>)
        requires
            old(self)@.wf(),
            !old(self)@.finished,
            old(self)@.waiting is Nothing,
        ensures
            final(self)@.wf(),
            (final(self)@, effects_view(effects@)) == old(self)@.source_closed(),
    {
        let mut effects: Vec<Effect> = Vec::new();
        if self.connected {
            effects.push(Effect::SendClose);
            effects.push(Effect::Disconnect);
            self.connected = false;
        }
        self.finished = true;
        assert(effects_view(effects@) =~= old(self)@.source_closed().1);
        effects
    }

    /// What the session waits for.
    pub fn waiting(&self) -> (waiting: Waiting)
        ensures
            waiting == self@.waiting,
    {
        self.waiting
    }

    /// Whether the session is over.
    pub fn is_finished(&self) -> (finished: bool)
        ensures
            finished == self@.finished,
    {
        self.finished
    }
}

} // verus!
