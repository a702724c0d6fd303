//! The streaming loop: audio comes in, is mixed chunk by chunk, and goes through a
//! voice-gated session.
//!
//! A [`Streamer`] takes one [`StreamEvent`] at a time and answers with the
//! [`StreamAction`]s that the caller has to carry out, in order. The caller mixes
//! the samples, opens connections and sends; it reports how that went as the next
//! event.
use vstd::prelude::*;
use crate::audio::buffers::{AudioBuffers, BuffersView, chunks_of, smaller};
use crate::audio::pcm::{encode_pcm, pcm_bytes};
use crate::vad::{
    Effect, EffectView, Event, EventView, SessionView, VadSession, Waiting, effects_view,
};

verus! {

/// What happens to a streamer.
pub enum StreamEvent {
    /// Samples of the microphone.
    Mic(Vec<u32>),
    /// Samples of the system.
    Sys(Vec<u32>),
    /// Samples were missed.
    Missed,
    /// The chunk handed out last was mixed into these frames, and does or does not
    /// hold speech.
    Mixed { frames: Vec<(i16, i16)>, speech: bool },
    /// The connection was opened, or could not be.
    Opened(bool),
    /// The audio handed out last was sent, or could not be.
    Sent(bool),
    /// The web app's command was set to this.
    Command(String),
    /// An audio source is gone.
    SourceClosed,
}

/// What the caller of a streamer has to do.
pub enum StreamAction {
    /// Mix this chunk of the microphone with samples of the system.
    Mix(Vec<u32>),
    /// Do what the session asks for.
    Do(Effect),
    /// Wait for audio or a command.
    Await,
    /// Leave the loop.
    Finish,
}

/// A [`StreamEvent`] with its contents.
pub enum StreamEventView {
    Mic(Seq<u32>),
    Sys(Seq<u32>),
    Missed,
    Mixed { frames: Seq<(i16, i16)>, speech: bool },
    Opened(bool),
    Sent(bool),
    Command(Seq<char>),
    SourceClosed,
}

/// A [`StreamAction`] with its contents.
pub enum StreamActionView {
    Mix(Seq<u32>),
    Do(EffectView),
    Await,
    Finish,
}

impl View for StreamEvent {
    type V = StreamEventView;

    open spec fn view(&self) -> StreamEventView {
        match *self {
            StreamEvent::Mic(samples) => StreamEventView::Mic(samples@),
            StreamEvent::Sys(samples) => StreamEventView::Sys(samples@),
            StreamEvent::Missed => StreamEventView::Missed,
            StreamEvent::Mixed { frames, speech } => StreamEventView::Mixed {
                frames: frames@,
                speech,
            },
            StreamEvent::Opened(ok) => StreamEventView::Opened(ok),
            StreamEvent::Sent(ok) => StreamEventView::Sent(ok),
            StreamEvent::Command(command) => StreamEventView::Command(command@),
            StreamEvent::SourceClosed => StreamEventView::SourceClosed,
        }
    }
}

impl View for StreamAction {
    type V = StreamActionView;

    open spec fn view(&self) -> StreamActionView {
        match *self {
            StreamAction::Mix(samples) => StreamActionView::Mix(samples@),
            StreamAction::Do(effect) => StreamActionView::Do(effect@),
            StreamAction::Await => StreamActionView::Await,
            StreamAction::Finish => StreamActionView::Finish,
        }
    }
}

/// The views of some actions.
pub open spec fn actions_view(actions: Seq<StreamAction>) -> Seq<StreamActionView> {
    actions.map_values(|a: StreamAction| a@)
}

/// The actions that do what a session asks for.
pub open spec fn doing(effects: Seq<EffectView>) -> Seq<StreamActionView> {
    effects.map_values(|e: EffectView| StreamActionView::Do(e))
}

/// What a streamer is in the middle of.
#[verifier::ext_equal]
pub struct StreamerView {
    pub buffers: BuffersView,
    pub session: SessionView,
    /// A chunk was handed out and is being mixed.
    pub mixing: bool,
}

impl StreamerView {
    /// A streamer that has seen nothing yet.
    pub open spec fn fresh() -> StreamerView {
        StreamerView {
            buffers: BuffersView { mic: seq![], sys: seq![] },
            session: SessionView::fresh(),
            mixing: false,
        }
    }

    /// Nothing is under way: audio and commands are welcome.
    pub open spec fn is_idle(self) -> bool {
        !self.mixing && self.session.waiting is Nothing && !self.session.finished
    }

    /// What holds of a streamer at all times. No sample of the microphone waits
    /// when nothing is under way.
    pub open spec fn wf(self) -> bool {
        &&& self.session.wf()
        &&& self.mixing ==> self.session.waiting is Nothing && !self.session.finished
        &&& !self.mixing && self.session.waiting is Nothing ==> self.buffers.mic.len() == 0
    }

    /// The next chunk is due. Where none is left the turn ends, and the safety valve
    /// of the buffers is opened.
    pub open spec fn proceed(self) -> (StreamerView, Seq<StreamActionView>) {
        if self.session.finished {
            (self, seq![StreamActionView::Finish])
        } else if self.buffers.mic.len() > 0 {
            let chunk = chunks_of(self.buffers.mic).first();
            (
                StreamerView {
                    buffers: BuffersView {
                        mic: self.buffers.mic.skip(chunk.len() as int),
                        ..self.buffers
                    },
                    mixing: true,
                    ..self
                },
                seq![StreamActionView::Mix(chunk)],
            )
        } else {
            (
                StreamerView { buffers: self.buffers.relieve(), ..self },
                seq![StreamActionView::Await],
            )
        }
    }

    /// The session takes an event; once it waits for nothing, the next chunk is due.
    pub open spec fn through_session(self, event: EventView) -> (
        StreamerView,
        Seq<StreamActionView>,
    ) {
        let after = self.session.step(event);
        let next = StreamerView { session: after.0, mixing: false, ..self };
        if next.session.waiting is Nothing {
            (next.proceed().0, doing(after.1) + next.proceed().1)
        } else {
            (next, doing(after.1))
        }
    }

    /// Whether the streamer can take this event now.
    pub open spec fn expects(self, event: StreamEventView) -> bool {
        match event {
            StreamEventView::Mixed { .. } => self.mixing,
            StreamEventView::Opened(ok) => self.session.expects(EventView::Opened(ok)),
            StreamEventView::Sent(ok) => self.session.expects(EventView::Sent(ok)),
            _ => self.is_idle(),
        }
    }

    /// What an event does. One that the streamer does not expect does nothing.
    pub open spec fn step(self, event: StreamEventView) -> (StreamerView, Seq<StreamActionView>) {
        if !self.expects(event) {
            (self, seq![])
        } else {
            match event {
                StreamEventView::Mic(samples) => StreamerView {
                    buffers: BuffersView { mic: self.buffers.mic + samples, ..self.buffers },
                    ..self
                }.proceed(),
                StreamEventView::Sys(samples) => StreamerView {
                    buffers: BuffersView { sys: self.buffers.sys + samples, ..self.buffers },
                    ..self
                }.proceed(),
                StreamEventView::Missed => self.proceed(),
                StreamEventView::Mixed { frames, speech } => self.through_session(
                    EventView::Chunk { pcm: pcm_bytes(frames), speech },
                ),
                StreamEventView::Opened(ok) => self.through_session(EventView::Opened(ok)),
                StreamEventView::Sent(ok) => self.through_session(EventView::Sent(ok)),
                StreamEventView::Command(command) => self.through_session(
                    EventView::Command(command),
                ),
                StreamEventView::SourceClosed => self.through_session(EventView::SourceClosed),
            }
        }
    }

    /// The streamer after some of the waiting samples of the system were taken.
    pub open spec fn without_sys(self, n: int) -> StreamerView {
        StreamerView {
            buffers: BuffersView { sys: self.buffers.sys.skip(n), ..self.buffers },
            ..self
        }
    }
}

/// One run of the streaming loop, from the "start" command to its end.
pub struct Streamer {
    buffers: AudioBuffers,
    session: VadSession,
    mixing: bool,
}

impl View for Streamer {
    type V = StreamerView;

    closed spec fn view(&self) -> StreamerView {
        StreamerView { buffers: self.buffers@, session: self.session@, mixing: self.mixing }
    }
}

impl Streamer {
    /// A streamer that has seen nothing yet.
    pub fn new() -> (streamer: Streamer)
        ensures
            streamer@ == StreamerView::fresh(),
            streamer@.wf(),
    {
        Streamer { buffers: AudioBuffers::new(), session: VadSession::new(), mixing: false }
    }

    /// How many samples of the system wait.
    pub fn sys_len(&self) -> (n: usize)
        ensures
            n == self@.buffers.sys.len(),
    {
        self.buffers.sys_len()
    }

    /// Takes as many samples of the system as are wanted, or all that wait.
    pub fn take_sys(&mut self, wanted: usize) -> (samples: Vec<u32>)
        requires
            old(self)@.wf(),
        ensures
            final(self)@.wf(),
            ({
                let n = smaller(wanted as int, old(self)@.buffers.sys.len() as int);
                &&& samples@ == old(self)@.buffers.sys.take(n)
                &&& final(self)@ == old(self)@.without_sys(n)
            }),
    {
        self.buffers.take_sys(wanted)
    }

    /// Takes one event and says what is to be done about it.
    pub fn step(&mut self, event: StreamEvent) -> (actions: Vec<StreamAction>)
        requires
            old(self)@.wf(),
        ensures
            final(self)@.wf(),
            (final(self)@, actions_view(actions@)) == old(self)@.step(event@),
    {
        let actions: Vec<StreamAction> = Vec::new();
        assert(actions_view(actions@) =~= seq![]);
        match event {
            StreamEvent::Mixed { frames, speech } => {
                if !self.mixing {
                    return actions;
                }
                let pcm = encode_pcm(&frames);
                self.through_session(Event::Chunk { pcm, speech })
            },
            StreamEvent::Opened(ok) => {
                if !self.is_waiting(Waiting::Opening) {
                    return actions;
                }
                self.through_session(Event::Opened(ok))
            },
            StreamEvent::Sent(ok) => {
                if !self.is_sending() {
                    return actions;
                }
                self.through_session(Event::Sent(ok))
            },
            StreamEvent::Mic(samples) => {
                if !self.is_idle() {
                    return actions;
                }
                self.buffers.push_mic(&samples);
                self.proceed()
            },
            StreamEvent::Sys(samples) => {
                if !self.is_idle() {
                    return actions;
                }
                self.buffers.push_sys(&samples);
                self.proceed()
            },
            StreamEvent::Missed => {
                if !self.is_idle() {
                    return actions;
                }
                self.proceed()
            },
            StreamEvent::Command(command) => {
                if !self.is_idle() {
                    return actions;
                }
                self.through_session(Event::Command(command))
            },
            StreamEvent::SourceClosed => {
                if !self.is_idle() {
                    return actions;
                }
                self.through_session(Event::SourceClosed)
            },
        }
    }

    fn is_waiting(&self, waiting: Waiting) -> (waits: bool)
        ensures
            waits == (!self@.session.finished && self@.session.waiting == waiting),
    {
        !self.session.is_finished() && self.session.waiting() == waiting
    }

    fn is_sending(&self) -> (sends: bool)
        ensures
            sends == (!self@.session.finished && (self@.session.waiting is Flushing
                || self@.session.waiting is Sending)),
    {
        if self.session.is_finished() {
            return false;
        }
        match self.session.waiting() {
            Waiting::Flushing => true,
            Waiting::Sending { .. } => true,
            _ => false,
        }
    }

    fn is_idle(&self) -> (idle: bool)
        ensures
            idle == self@.is_idle(),
    {
        !self.mixing && self.is_waiting(Waiting::Nothing)
    }

    fn proceed(&mut self) -> (actions: Vec<StreamAction>)
        requires
            old(self)@.session.wf(),
            old(self)@.session.waiting is Nothing,
            old(self)@.session.finished ==> old(self)@.buffers.mic.len() == 0,
            !old(self)@.mixing,
        ensures
            final(self)@.wf(),
            (final(self)@, actions_view(actions@)) == old(self)@.proceed(),
    {
        let mut actions: Vec<StreamAction> = Vec::new();
        if self.session.is_finished() {
            actions.push(StreamAction::Finish);
        } else {
            match self.buffers.take_chunk() {
                Some(chunk) => {
                    self.mixing = true;
                    actions.push(StreamAction::Mix(chunk));
                    assert(self@.buffers.mic =~= old(self)@.buffers.mic.skip(
                        chunk@.len() as int,
                    ));
                },
                None => {
                    self.buffers.relieve();
                    actions.push(StreamAction::Await);
                },
            }
        }
        assert(self@ =~= old(self)@.proceed().0);
        assert(actions_view(actions@) =~= old(self)@.proceed().1);
        actions
    }

    fn through_session(&mut self, event: Event) -> (actions: Vec<StreamAction>)
        requires
            old(self)@.wf(),
            !old(self)@.session.finished,
            old(self)@.session.expects(event@),
            event is Command || event is SourceClosed ==> !old(self)@.mixing,
        ensures
            final(self)@.wf(),
            (final(self)@, actions_view(actions@)) == old(self)@.through_session(event@),
    {
        self.mixing = false;
        let effects = self.session.step(event);
        let mut actions = wrap_effects(effects);
        if self.session.waiting() == Waiting::Nothing {
            let ghost first = actions@;
            let mut more = self.proceed();
            let ghost second = more@;
            actions.append(&mut more);
            assert(actions_view(actions@) =~= actions_view(first) + actions_view(second));
        }
        actions
    }
}

fn wrap_effects(effects: Vec<Effect>) -> (actions: Vec<StreamAction>)
    ensures
        actions_view(actions@) == doing(effects_view(effects@)),
{
    let mut actions: Vec<StreamAction> = Vec::new();
    let ghost asked = effects_view(effects@);
    for effect in iter: effects
        invariant
            actions@.len() == iter.index(),
            forall|i: int|
                0 <= i < actions@.len() ==> (#[trigger] actions@[i])@ == StreamActionView::Do(
                    iter.seq()[i]@,
                ),
    {
        actions.push(StreamAction::Do(effect));
    }
    assert(actions_view(actions@) =~= doing(asked));
    actions
}

} // verus!
