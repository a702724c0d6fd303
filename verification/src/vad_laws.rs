//! What voice-gated sessions do over many events.
use vstd::prelude::*;
use crate::vad::{
    Effect, EffectView, Event, EventView, PRE_BUFFER_SIZE, SILENCE_CLOSE_COUNT,
    SPEECH_TRIGGER_COUNT, SessionView, StreamState, VadSession, Waiting, effect_if, effects_view,
    last_of,
};

verus! {

/// A chunk of encoded audio, and whether it holds speech.
pub struct Chunk {
    pub pcm: Seq<u8>,
    pub speech: bool,
}

/// The audio of some chunks.
pub open spec fn audio_of(chunks: Seq<Chunk>) -> Seq<Seq<u8>> {
    chunks.map_values(|c: Chunk| c.pcm)
}

/// The effects that send this audio, in order.
pub open spec fn sends(audio: Seq<Seq<u8>>) -> Seq<EffectView> {
    audio.map_values(|pcm: Seq<u8>| EffectView::SendAudio(pcm))
}

/// The session after some events, and all effects on the way.
pub open spec fn run(session: SessionView, events: Seq<EventView>) -> (SessionView, Seq<EffectView>)
    decreases events.len(),
{
    if events.len() == 0 {
        (session, seq![])
    } else {
        let before = run(session, events.drop_last());
        let after = before.0.step(events.last());
        (after.0, before.1 + after.1)
    }
}

/// The events of chunks that arrive one after the other while the session listens.
pub open spec fn arrivals(chunks: Seq<Chunk>) -> Seq<EventView> {
    chunks.map_values(|c: Chunk| EventView::Chunk { pcm: c.pcm, speech: c.speech })
}

/// The events of chunks that arrive, each of them sent before the next.
pub open spec fn streamed_arrivals(chunks: Seq<Chunk>) -> Seq<EventView>
    decreases chunks.len(),
{
    if chunks.len() == 0 {
        seq![]
    } else {
        streamed_arrivals(chunks.drop_last()).push(
            EventView::Chunk { pcm: chunks.last().pcm, speech: chunks.last().speech },
        ).push(EventView::Sent(true))
    }
}

/// So many sends that succeed.
pub open spec fn all_sent(n: nat) -> Seq<EventView> {
    Seq::new(n, |i: int| EventView::Sent(true))
}

/// How many chunks at the end hold speech (or silence) without a break.
pub open spec fn tail_run(chunks: Seq<Chunk>, speech: bool) -> nat
    decreases chunks.len(),
{
    if chunks.len() > 0 && chunks.last().speech == speech {
        tail_run(chunks.drop_last(), speech) + 1
    } else {
        0
    }
}

/// No stretch of speech (or silence) among the chunks is as long as `n`.
pub open spec fn no_run_of(chunks: Seq<Chunk>, speech: bool, n: nat) -> bool {
    forall|i: int| 0 <= i <= chunks.len() ==> tail_run(#[trigger] chunks.take(i), speech) < n
}

/// A session keeps its invariant whatever happens to it.
pub proof fn law_sessions_stay_well_formed(session: SessionView, events: Seq<EventView>)
    requires
        session.wf(),
    ensures
        run(session, events).0.wf(),
    decreases events.len(),
{
    if events.len() > 0 {
        law_sessions_stay_well_formed(session, events.drop_last());
    }
}

/// Events in two parts do what they do in one.
pub proof fn law_runs_compose(session: SessionView, first: Seq<EventView>, second: Seq<EventView>)
    ensures
        run(session, first + second).0 == run(run(session, first).0, second).0,
        run(session, first + second).1 == run(session, first).1 + run(
            run(session, first).0,
            second,
        ).1,
    decreases second.len(),
{
    if second.len() == 0 {
        assert(first + second =~= first);
        assert(run(session, first).1 + Seq::<EffectView>::empty() =~= run(session, first).1);
    } else {
        law_runs_compose(session, first, second.drop_last());
        assert((first + second).drop_last() =~= first + second.drop_last());
        assert(run(session, first + second).1 =~= run(session, first).1 + run(
            run(session, first).0,
            second,
        ).1);
    }
}

proof fn lemma_one_event(session: SessionView, event: EventView)
    ensures
        run(session, seq![event]) == session.step(event),
{
    let one = seq![event];
    assert(one.drop_last() =~= Seq::<EventView>::empty());
    assert(one.last() == event);
    assert(run(session, one.drop_last()) == (session, Seq::<EffectView>::empty()));
    assert(run(session, one).1 =~= session.step(event).1);
}

/// Whether the session begins to listen: nothing is under way, and no speech was
/// heard yet. It may have kept chunks of before.
pub open spec fn is_ready(session: SessionView) -> bool {
    &&& session.wf()
    &&& session.state is Listening
    &&& session.waiting is Nothing
    &&& session.speech_run == 0
    &&& !session.finished
}

/// However a session comes to listen, it begins to listen anew: when it is created,
/// when silence lasted, when a chunk could not be sent, and when no connection could
/// be opened.
pub proof fn law_listening_begins_anew(session: SessionView, event: EventView)
    requires
        session.wf(),
    ensures
        is_ready(SessionView::fresh()),
        ({
            let after = session.step(event).0;
            let listened = session.state is Listening && session.waiting is Nothing;
            let listens = after.state is Listening && after.waiting is Nothing;
            !listened && listens ==> is_ready(after)
        }),
{
}

/// While no three chunks in a row hold speech, a session that begins to listen goes
/// on listening: it opens nothing and sends nothing, and keeps the last eight chunks.
pub proof fn law_quiet_chunks_open_nothing(session: SessionView, chunks: Seq<Chunk>)
    requires
        is_ready(session),
        no_run_of(chunks, true, SPEECH_TRIGGER_COUNT as nat),
    ensures
        run(session, arrivals(chunks)) == (
            (SessionView {
                speech_run: tail_run(chunks, true) as int,
                pre_buffer: last_of(
                    session.pre_buffer + audio_of(chunks),
                    PRE_BUFFER_SIZE as nat,
                ),
                ..session
            }),
            Seq::<EffectView>::empty(),
        ),
    decreases chunks.len(),
{
    if chunks.len() == 0 {
        assert(session.pre_buffer + audio_of(chunks) =~= session.pre_buffer);
    } else {
        let fewer = chunks.drop_last();
        assert forall|i: int| 0 <= i <= fewer.len() implies tail_run(
            #[trigger] fewer.take(i),
            true,
        ) < SPEECH_TRIGGER_COUNT by {
            assert(fewer.take(i) =~= chunks.take(i));
        }
        law_quiet_chunks_open_nothing(session, fewer);
        assert(arrivals(chunks).drop_last() =~= arrivals(fewer));
        assert(chunks.take(chunks.len() as int) =~= chunks);
        lemma_one_more_kept(session.pre_buffer, fewer, chunks.last());
        assert(fewer.push(chunks.last()) =~= chunks);
        assert(run(session, arrivals(chunks)).1 =~= Seq::<EffectView>::empty());
    }
}

proof fn lemma_one_more_kept(kept: Seq<Seq<u8>>, chunks: Seq<Chunk>, next: Chunk)
    ensures
        last_of(
            last_of(kept + audio_of(chunks), PRE_BUFFER_SIZE as nat).push(next.pcm),
            PRE_BUFFER_SIZE as nat,
        ) == last_of(kept + audio_of(chunks.push(next)), PRE_BUFFER_SIZE as nat),
{
    assert(kept + audio_of(chunks.push(next)) =~= (kept + audio_of(chunks)).push(next.pcm));
    assert(last_of(
        last_of(kept + audio_of(chunks), PRE_BUFFER_SIZE as nat).push(next.pcm),
        PRE_BUFFER_SIZE as nat,
    ) =~= last_of(kept + audio_of(chunks.push(next)), PRE_BUFFER_SIZE as nat));
}

/// From where a session begins to listen, the third chunk of speech in a row opens a
/// connection, and no earlier chunk does. That chunk is kept too.
pub proof fn law_third_speech_chunk_opens(session: SessionView, chunks: Seq<Chunk>, next: Chunk)
    requires
        is_ready(session),
        no_run_of(chunks, true, SPEECH_TRIGGER_COUNT as nat),
    ensures
        ({
            let more = chunks.push(next);
            let opens = tail_run(more, true) == SPEECH_TRIGGER_COUNT;
            run(session, arrivals(more)) == (
                (SessionView {
                    waiting: if opens {
                        Waiting::Opening
                    } else {
                        Waiting::Nothing
                    },
                    speech_run: tail_run(more, true) as int,
                    pre_buffer: last_of(
                        session.pre_buffer + audio_of(more),
                        PRE_BUFFER_SIZE as nat,
                    ),
                    ..session
                }),
                effect_if(opens, EffectView::Open),
            )
        }),
{
    law_quiet_chunks_open_nothing(session, chunks);
    let more = chunks.push(next);
    assert(more.drop_last() =~= chunks);
    assert(arrivals(more).drop_last() =~= arrivals(chunks));
    assert(chunks.take(chunks.len() as int) =~= chunks);
    lemma_one_more_kept(session.pre_buffer, chunks, next);
    let before = run(session, arrivals(chunks)).0;
    let after = before.step(EventView::Chunk { pcm: next.pcm, speech: next.speech });
    assert(run(session, arrivals(more)).1 =~= after.1);
}

/// The events among these that the session took, but for the "start" commands, which
/// change nothing.
pub open spec fn taken(session: SessionView, events: Seq<EventView>) -> Seq<EventView>
    decreases events.len(),
{
    if events.len() == 0 {
        seq![]
    } else {
        let before = taken(session, events.drop_last());
        let event = events.last();
        if run(session, events.drop_last()).0.expects(event) && event != EventView::Command(
            "start"@,
        ) {
            before.push(event)
        } else {
            before
        }
    }
}

/// Whether the last `n` of the events are chunks of speech.
pub open spec fn ends_in_speech(events: Seq<EventView>, n: int) -> bool {
    &&& n <= events.len()
    &&& forall|i: int|
        events.len() - n <= i < events.len() ==> match #[trigger] events[i] {
            EventView::Chunk { speech, .. } => speech,
            _ => false,
        }
}

proof fn lemma_speech_was_heard(session: SessionView, events: Seq<EventView>)
    requires
        is_ready(session),
    ensures
        ({
            let after = run(session, events).0;
            after.state is Listening && !after.connected && !after.finished ==> ends_in_speech(
                taken(session, events),
                after.speech_run,
            )
        }),
    decreases events.len(),
{
    if events.len() > 0 {
        lemma_speech_was_heard(session, events.drop_last());
        law_sessions_stay_well_formed(session, events.drop_last());
    }
}

/// Whatever happens to a session, nothing but speech opens a connection: when one is
/// asked for, the last three events that the session took are chunks of speech.
pub proof fn law_only_speech_opens(session: SessionView, events: Seq<EventView>)
    requires
        is_ready(session),
        events.len() > 0,
        run(session, events.drop_last()).0.step(events.last()).1.contains(EffectView::Open),
    ensures
        ends_in_speech(taken(session, events), SPEECH_TRIGGER_COUNT as int),
{
    lemma_speech_was_heard(session, events);
    law_sessions_stay_well_formed(session, events.drop_last());
}

/// Once a connection is open and nothing fails on it, the chunks kept so far are
/// sent over it, oldest first, before the frontend hears that the stream is on.
pub proof fn law_kept_chunks_are_sent_first(session: SessionView)
    requires
        session.wf(),
        session.waiting is Opening,
        !session.finished,
    ensures
        run(session, seq![EventView::Opened(true)] + all_sent(session.pre_buffer.len())) == (
            (SessionView {
                state: StreamState::Streaming,
                waiting: Waiting::Nothing,
                silence_run: 0,
                pre_buffer: Seq::<Seq<u8>>::empty(),
                connected: true,
                ..session
            }),
            sends(session.pre_buffer).push(EffectView::Announce(StreamState::Streaming)),
        ),
{
    let opened = session.opened(true);
    lemma_one_event(session, EventView::Opened(true));
    lemma_flush(opened.0);
    law_runs_compose(session, seq![EventView::Opened(true)], all_sent(session.pre_buffer.len()));
    assert(sends(session.pre_buffer) =~= seq![
        EffectView::SendAudio(session.pre_buffer.first()),
    ] + sends(session.pre_buffer.drop_first()));
    assert(run(session, seq![EventView::Opened(true)] + all_sent(session.pre_buffer.len())).1
        =~= sends(session.pre_buffer).push(EffectView::Announce(StreamState::Streaming)));
}

proof fn lemma_flush(session: SessionView)
    requires
        session.wf(),
        session.waiting is Flushing,
        !session.finished,
    ensures
        run(session, all_sent(session.pre_buffer.len() + 1)) == (
            (SessionView {
                state: StreamState::Streaming,
                waiting: Waiting::Nothing,
                silence_run: 0,
                pre_buffer: Seq::<Seq<u8>>::empty(),
                ..session
            }),
            sends(session.pre_buffer).push(EffectView::Announce(StreamState::Streaming)),
        ),
    decreases session.pre_buffer.len(),
{
    let events = all_sent(session.pre_buffer.len() + 1);
    let after = session.step(EventView::Sent(true));
    lemma_one_event(session, EventView::Sent(true));
    if session.pre_buffer.len() == 0 {
        assert(events =~= seq![EventView::Sent(true)]);
        assert(after.0 =~= SessionView {
            state: StreamState::Streaming,
            waiting: Waiting::Nothing,
            silence_run: 0,
            pre_buffer: Seq::<Seq<u8>>::empty(),
            ..session
        });
        assert(after.1 =~= sends(session.pre_buffer).push(
            EffectView::Announce(StreamState::Streaming),
        ));
    } else {
        lemma_flush(after.0);
        assert(events =~= seq![EventView::Sent(true)] + all_sent(after.0.pre_buffer.len() + 1));
        law_runs_compose(
            session,
            seq![EventView::Sent(true)],
            all_sent(after.0.pre_buffer.len() + 1),
        );
        assert(run(session, events).1 =~= sends(session.pre_buffer).push(
            EffectView::Announce(StreamState::Streaming),
        ));
    }
}

/// While a connection is up, nothing fails on it, and silence never lasts for
/// thirty-seven chunks, the session goes on streaming and sends every chunk once,
/// in order.
pub proof fn law_streaming_sends_every_chunk(session: SessionView, chunks: Seq<Chunk>)
    requires
        session.wf(),
        session.state is Streaming,
        session.waiting is Nothing,
        session.connected,
        session.silence_run == 0,
        no_run_of(chunks, false, SILENCE_CLOSE_COUNT as nat),
    ensures
        run(session, streamed_arrivals(chunks)) == (
            (SessionView { silence_run: tail_run(chunks, false) as int, ..session }),
            sends(audio_of(chunks)),
        ),
    decreases chunks.len(),
{
    let all = run(session, streamed_arrivals(chunks));
    if chunks.len() == 0 {
        assert(all.1 =~= sends(audio_of(chunks)));
    } else {
        let fewer = chunks.drop_last();
        assert forall|i: int| 0 <= i <= fewer.len() implies tail_run(
            #[trigger] fewer.take(i),
            false,
        ) < SILENCE_CLOSE_COUNT by {
            assert(fewer.take(i) =~= chunks.take(i));
        }
        law_streaming_sends_every_chunk(session, fewer);
        assert(chunks.take(chunks.len() as int) =~= chunks);
        lemma_streamed_chunk(session, chunks);
        assert(all.1 =~= sends(audio_of(chunks)));
    }
}

proof fn lemma_streamed_chunk(session: SessionView, chunks: Seq<Chunk>)
    requires
        chunks.len() > 0,
    ensures
        ({
            let before = run(session, streamed_arrivals(chunks.drop_last()));
            let arrived = before.0.step(
                EventView::Chunk { pcm: chunks.last().pcm, speech: chunks.last().speech },
            );
            let sent = arrived.0.step(EventView::Sent(true));
            run(session, streamed_arrivals(chunks)) == (sent.0, before.1 + arrived.1 + sent.1)
        }),
{
    let head = streamed_arrivals(chunks.drop_last());
    let arrival = EventView::Chunk { pcm: chunks.last().pcm, speech: chunks.last().speech };
    let events = streamed_arrivals(chunks);
    assert(events.drop_last() =~= head.push(arrival));
    assert(head.push(arrival).drop_last() =~= head);
    assert(run(session, head.push(arrival)).0 == run(session, head).0.step(arrival).0);
}

/// The thirty-seventh chunk of silence in a row is sent too, and then closes the
/// connection: the service is told, the connection is given up, and the frontend
/// hears that the companion is idle.
pub proof fn law_lasting_silence_closes(session: SessionView, chunks: Seq<Chunk>, next: Chunk)
    requires
        session.wf(),
        session.state is Streaming,
        session.waiting is Nothing,
        session.connected,
        session.silence_run == 0,
        no_run_of(chunks, false, SILENCE_CLOSE_COUNT as nat),
        tail_run(chunks.push(next), false) == SILENCE_CLOSE_COUNT,
    ensures
        run(session, streamed_arrivals(chunks.push(next))) == (
            (SessionView {
                state: StreamState::Listening,
                speech_run: 0,
                silence_run: SILENCE_CLOSE_COUNT as int,
                connected: false,
                ..session
            }),
            sends(audio_of(chunks.push(next))) + seq![
                EffectView::SendCloseStream,
                EffectView::Disconnect,
                EffectView::Announce(StreamState::Listening),
            ],
        ),
{
    law_streaming_sends_every_chunk(session, chunks);
    let more = chunks.push(next);
    assert(more.drop_last() =~= chunks);
    lemma_streamed_chunk(session, more);
    assert(sends(audio_of(more)) =~= sends(audio_of(chunks)).push(EffectView::SendAudio(next.pcm)));
    assert(run(session, streamed_arrivals(more)).1 =~= sends(audio_of(more)) + seq![
        EffectView::SendCloseStream,
        EffectView::Disconnect,
        EffectView::Announce(StreamState::Listening),
    ]);
}

/// Nothing that is said from the moment of the eight chunks before the connection
/// on is lost, and nothing is sent twice: from where a session begins to listen, as
/// long as nothing fails and silence does not last, the service gets the last eight
/// chunks up to the one that opened the connection and then every later chunk, in
/// order. The session then streams, so that silence can close the connection and the
/// next stretch of speech open another.
pub proof fn law_no_speech_is_lost(
    session: SessionView,
    before: Seq<Chunk>,
    trigger: Chunk,
    after: Seq<Chunk>,
)
    requires
        is_ready(session),
        no_run_of(before, true, SPEECH_TRIGGER_COUNT as nat),
        tail_run(before.push(trigger), true) == SPEECH_TRIGGER_COUNT,
        no_run_of(after, false, SILENCE_CLOSE_COUNT as nat),
    ensures
        ({
            let kept = last_of(
                session.pre_buffer + audio_of(before.push(trigger)),
                PRE_BUFFER_SIZE as nat,
            );
            run(
                session,
                arrivals(before.push(trigger)) + (seq![EventView::Opened(true)] + all_sent(
                    kept.len(),
                )) + streamed_arrivals(after),
            ) == (
                (SessionView {
                    state: StreamState::Streaming,
                    waiting: Waiting::Nothing,
                    speech_run: SPEECH_TRIGGER_COUNT as int,
                    silence_run: tail_run(after, false) as int,
                    pre_buffer: Seq::<Seq<u8>>::empty(),
                    connected: true,
                    finished: false,
                }),
                seq![EffectView::Open] + sends(kept).push(
                    EffectView::Announce(StreamState::Streaming),
                ) + sends(audio_of(after)),
            )
        }),
{
    let chunks = before.push(trigger);
    let kept = last_of(session.pre_buffer + audio_of(chunks), PRE_BUFFER_SIZE as nat);
    let opening = arrivals(chunks);
    let flushing = seq![EventView::Opened(true)] + all_sent(kept.len());
    let streaming = streamed_arrivals(after);
    law_third_speech_chunk_opens(session, before, trigger);
    law_sessions_stay_well_formed(session, opening);
    let listening = run(session, opening).0;
    law_kept_chunks_are_sent_first(listening);
    law_sessions_stay_well_formed(listening, flushing);
    law_runs_compose(session, opening, flushing);
    law_runs_compose(session, opening + flushing, streaming);
    law_streaming_sends_every_chunk(run(listening, flushing).0, after);
}

/// A chunk that cannot be sent while streaming costs the connection and nothing
/// else: the session is as good as new.
pub proof fn law_failed_send_starts_over(session: SessionView)
    requires
        session.wf(),
        session.waiting is Sending,
    ensures
        session.step(EventView::Sent(false)) == (
            SessionView::fresh(),
            seq![EffectView::Disconnect, EffectView::Announce(StreamState::Listening)],
        ),
{
    assert(session.step(EventView::Sent(false)).0 =~= SessionView::fresh());
}

/// A connection that cannot be opened leaves the session listening, with what it
/// kept, until three more chunks in a row hold speech.
pub proof fn law_failed_open_goes_on_listening(session: SessionView, chunks: Seq<Chunk>)
    requires
        session.wf(),
        session.waiting is Opening,
        !session.finished,
        no_run_of(chunks, true, SPEECH_TRIGGER_COUNT as nat),
    ensures
        run(session, seq![EventView::Opened(false)] + arrivals(chunks)) == (
            (SessionView {
                waiting: Waiting::Nothing,
                speech_run: tail_run(chunks, true) as int,
                pre_buffer: last_of(
                    session.pre_buffer + audio_of(chunks),
                    PRE_BUFFER_SIZE as nat,
                ),
                ..session
            }),
            Seq::<EffectView>::empty(),
        ),
{
    lemma_one_event(session, EventView::Opened(false));
    law_runs_compose(session, seq![EventView::Opened(false)], arrivals(chunks));
    law_quiet_chunks_open_nothing(session.step(EventView::Opened(false)).0, chunks);
}

/// Whatever the session does, it has one connection at most, and uses it only
/// while it has it.
pub proof fn law_one_connection_at_a_time(session: SessionView, event: EventView)
    requires
        session.wf(),
    ensures
        ({
            let after = session.step(event);
            &&& after.1.contains(EffectView::Open) ==> !session.connected && !after.0.connected
            &&& (!session.connected && after.0.connected) ==> event == EventView::Opened(true)
            &&& (session.connected && !after.0.connected) <==> after.1.contains(
                EffectView::Disconnect,
            )
            &&& after.1.contains(EffectView::SendCloseStream) ==> session.connected
            &&& after.1.contains(EffectView::SendClose) ==> session.connected
            &&& forall|pcm: Seq<u8>| #[trigger]
                after.1.contains(EffectView::SendAudio(pcm)) ==> after.0.connected
        }),
{
    let after = session.step(event);
    if session.connected && !after.0.connected {
        if event == EventView::Sent(false) {
            assert(after.1[0] == EffectView::Disconnect);
        } else {
            assert(after.1[1] == EffectView::Disconnect);
        }
    }
}

/// What the frontend was told last, if it was told anything.
pub open spec fn last_announced(effects: Seq<EffectView>) -> Option<StreamState>
    decreases effects.len(),
{
    if effects.len() == 0 {
        None
    } else {
        match effects.last() {
            EffectView::Announce(state) => Some(state),
            _ => last_announced(effects.drop_last()),
        }
    }
}

proof fn lemma_last_announced(first: Seq<EffectView>, second: Seq<EffectView>)
    ensures
        last_announced(first + second) == (match last_announced(second) {
            Some(state) => Some(state),
            None => last_announced(first),
        }),
    decreases second.len(),
{
    if second.len() == 0 {
        assert(first + second =~= first);
    } else {
        assert((first + second).drop_last() =~= first + second.drop_last());
        lemma_last_announced(first, second.drop_last());
    }
}

/// The frontend always knows: as long as a session runs, what it announced last is
/// what it does, and before the first announcement it listens.
pub proof fn law_frontend_knows_the_state(events: Seq<EventView>)
    ensures
        ({
            let all = run(SessionView::fresh(), events);
            !all.0.finished ==> all.0.state == (match last_announced(all.1) {
                Some(state) => state,
                None => StreamState::Listening,
            })
        }),
    decreases events.len(),
{
    if events.len() > 0 {
        law_frontend_knows_the_state(events.drop_last());
        law_sessions_stay_well_formed(SessionView::fresh(), events.drop_last());
        let before = run(SessionView::fresh(), events.drop_last());
        let after = before.0.step(events.last());
        lemma_last_announced(before.1, after.1);
        reveal_with_fuel(last_announced, 4);
    }
}

/// Any command but "start" ends a session that waits for nothing, gives its
/// connection up and leaves the frontend told that the companion is idle.
pub proof fn law_other_commands_end_the_session(session: SessionView, command: Seq<char>)
    requires
        session.wf(),
        session.waiting is Nothing,
        !session.finished,
        command != "start"@,
    ensures
        ({
            let after = session.step(EventView::Command(command));
            &&& after.0.finished
            &&& !after.0.connected
            &&& last_announced(after.1) == Some(StreamState::Listening)
        }),
{
    reveal_with_fuel(last_announced, 4);
}

/// A session that is over does nothing more.
pub proof fn law_finished_sessions_do_nothing(session: SessionView, events: Seq<EventView>)
    requires
        session.finished,
    ensures
        run(session, events) == (session, Seq::<EffectView>::empty()),
    decreases events.len(),
{
    if events.len() > 0 {
        law_finished_sessions_do_nothing(session, events.drop_last());
        assert(run(session, events).1 =~= Seq::<EffectView>::empty());
    }
}

/// A new session listens, waits for nothing, has heard nothing, keeps nothing and has
/// no connection.
pub proof fn law_new_sessions_have_nothing(session: VadSession)
    requires
        call_ensures(VadSession::new, (), session),
    ensures
        session@.state is Listening,
        session@.waiting is Nothing,
        session@.speech_run == 0,
        session@.silence_run == 0,
        session@.pre_buffer.len() == 0,
        !session@.connected,
        !session@.finished,
{
}

/// What a session is told is what happened: no event stands for another one.
pub proof fn law_events_are_what_happened(pcm: Vec<u8>, flag: bool, command: String)
    ensures
        (Event::Chunk { pcm, speech: flag })@ == (EventView::Chunk { pcm: pcm@, speech: flag }),
        (Event::Opened(flag))@ == EventView::Opened(flag),
        (Event::Sent(flag))@ == EventView::Sent(flag),
        (Event::Command(command))@ == EventView::Command(command@),
        (Event::SourceClosed)@ == EventView::SourceClosed,
{
}

/// What a session asks for is what is done: no effect stands for another one.
pub proof fn law_effects_are_what_is_done(pcm: Vec<u8>, state: StreamState)
    ensures
        (Effect::Open)@ == EffectView::Open,
        (Effect::SendAudio(pcm))@ == EffectView::SendAudio(pcm@),
        (Effect::SendCloseStream)@ == EffectView::SendCloseStream,
        (Effect::SendClose)@ == EffectView::SendClose,
        (Effect::Disconnect)@ == EffectView::Disconnect,
        (Effect::Announce(state))@ == EffectView::Announce(state),
{
}

/// A session does as it is told, and asks for as many effects as there are.
pub proof fn law_steps_are_carried_out(session: &mut VadSession, event: Event, effects: Vec<Effect>)
    requires
        call_ensures(VadSession::step, (session, event), effects),
    ensures
        final(session)@ == old(session)@.step(event@).0,
        effects@.len() == old(session)@.step(event@).1.len(),
        forall|i: int|
            0 <= i < effects@.len() ==> (#[trigger] effects@[i])@ == old(session)@.step(event@).1[i],
{
    assert forall|i: int| 0 <= i < effects@.len() implies (#[trigger] effects@[i])@ == old(session)@.step(event@).1[i] by {
        assert(effects_view(effects@)[i] == effects@[i]@);
    }
}

/// What comes at the wrong time does nothing: audio, commands and the loss of a source
/// while the session waits for something, reports of what it does not wait for, and
/// anything once it is over.
pub proof fn law_untimely_events_do_nothing(session: SessionView, event: EventView)
    requires
        session.finished || match event {
            EventView::Opened(_) => session.waiting !is Opening,
            EventView::Sent(_) => session.waiting !is Flushing && session.waiting !is Sending,
            _ => session.waiting !is Nothing,
        },
    ensures
        session.step(event).0 == session,
        session.step(event).1.len() == 0,
{
}

/// The "start" command lets a session go on as it is.
pub proof fn law_start_changes_nothing(session: SessionView)
    ensures
        session.step(EventView::Command("start"@)).0 == session,
        session.step(EventView::Command("start"@)).1.len() == 0,
{
}

/// Any command but "start" ends a session that waits for nothing: a connection is
/// closed and given up, the frontend hears that the companion is idle, and nothing
/// else is done.
pub proof fn law_commands_say_goodbye(session: SessionView, command: Seq<char>)
    requires
        session.waiting is Nothing,
        !session.finished,
        command != "start"@,
    ensures
        ({
            let after = session.step(EventView::Command(command));
            &&& after.0.finished
            &&& !after.0.connected
            &&& after.0.waiting is Nothing
            &&& session.connected ==> after.1 == seq![
                EffectView::SendClose,
                EffectView::Disconnect,
                EffectView::Announce(StreamState::Listening),
            ]
            &&& !session.connected ==> after.1 == seq![
                EffectView::Announce(StreamState::Listening),
            ]
        }),
{
    let after = session.step(EventView::Command(command));
    if session.connected {
        assert(after.1 =~= seq![
            EffectView::SendClose,
            EffectView::Disconnect,
            EffectView::Announce(StreamState::Listening),
        ]);
    } else {
        assert(after.1 =~= seq![EffectView::Announce(StreamState::Listening)]);
    }
}

/// A source that is gone ends a session that waits for nothing: a connection is closed
/// and given up, and nothing is announced.
pub proof fn law_lost_sources_end_the_session(session: SessionView)
    requires
        session.waiting is Nothing,
        !session.finished,
    ensures
        ({
            let after = session.step(EventView::SourceClosed);
            &&& after.0.finished
            &&& !after.0.connected
            &&& after.0.waiting is Nothing
            &&& session.connected ==> after.1 == seq![EffectView::SendClose, EffectView::Disconnect]
            &&& !session.connected ==> after.1.len() == 0
        }),
{
    let after = session.step(EventView::SourceClosed);
    if session.connected {
        assert(after.1 =~= seq![EffectView::SendClose, EffectView::Disconnect]);
    }
}

/// Only a command or a lost source ends a session.
pub proof fn law_nothing_else_ends_a_session(session: SessionView, event: EventView)
    requires
        !session.finished,
        session.step(event).0.finished,
    ensures
        session.waiting is Nothing,
        event is SourceClosed || (event is Command && event != EventView::Command("start"@)),
{
}

/// A kept chunk that cannot be sent costs the connection and all that is still kept.
/// The frontend hears that the companion is idle, and then that it streams; there is
/// no connection then.
pub proof fn law_failed_flush_loses_the_connection(session: SessionView)
    requires
        session.waiting is Flushing,
        !session.finished,
    ensures
        ({
            let after = session.step(EventView::Sent(false));
            &&& after.0.state is Streaming
            &&& after.0.waiting is Nothing
            &&& after.0.speech_run == 0
            &&& after.0.silence_run == 0
            &&& after.0.pre_buffer.len() == 0
            &&& !after.0.connected
            &&& !after.0.finished
            &&& after.1 == seq![
                EffectView::Disconnect,
                EffectView::Announce(StreamState::Listening),
                EffectView::Announce(StreamState::Streaming),
            ]
        }),
{
}

/// A session that streams without a connection sends nothing and opens nothing. It
/// counts the silence all the same.
pub proof fn law_nothing_is_sent_without_a_connection(session: SessionView, chunks: Seq<Chunk>)
    requires
        session.wf(),
        session.state is Streaming,
        session.waiting is Nothing,
        !session.connected,
        !session.finished,
        session.silence_run == 0,
        no_run_of(chunks, false, SILENCE_CLOSE_COUNT as nat),
    ensures
        run(session, arrivals(chunks)) == (
            (SessionView { silence_run: tail_run(chunks, false) as int, ..session }),
            Seq::<EffectView>::empty(),
        ),
    decreases chunks.len(),
{
    if chunks.len() > 0 {
        let fewer = chunks.drop_last();
        assert forall|i: int| 0 <= i <= fewer.len() implies tail_run(
            #[trigger] fewer.take(i),
            false,
        ) < SILENCE_CLOSE_COUNT by {
            assert(fewer.take(i) =~= chunks.take(i));
        }
        law_nothing_is_sent_without_a_connection(session, fewer);
        assert(arrivals(chunks).drop_last() =~= arrivals(fewer));
        assert(chunks.take(chunks.len() as int) =~= chunks);
        assert(run(session, arrivals(chunks)).1 =~= Seq::<EffectView>::empty());
    }
}

/// Lasting silence ends streaming without a connection too: the frontend hears that
/// the companion is idle, and the session listens anew.
pub proof fn law_silence_ends_streaming_without_a_connection(
    session: SessionView,
    chunks: Seq<Chunk>,
    next: Chunk,
)
    requires
        session.wf(),
        session.state is Streaming,
        session.waiting is Nothing,
        !session.connected,
        !session.finished,
        session.silence_run == 0,
        no_run_of(chunks, false, SILENCE_CLOSE_COUNT as nat),
        tail_run(chunks.push(next), false) == SILENCE_CLOSE_COUNT,
    ensures
        is_ready(run(session, arrivals(chunks.push(next))).0),
        run(session, arrivals(chunks.push(next))).0.pre_buffer.len() == 0,
        run(session, arrivals(chunks.push(next))).1 == seq![
            EffectView::Announce(StreamState::Listening),
        ],
{
    law_nothing_is_sent_without_a_connection(session, chunks);
    let more = chunks.push(next);
    assert(more.drop_last() =~= chunks);
    assert(arrivals(more).drop_last() =~= arrivals(chunks));
    assert(run(session, arrivals(more)).1 =~= seq![EffectView::Announce(StreamState::Listening)]);
}

/// A session tells what it waits for, and whether it is over, as it is.
pub proof fn law_sessions_tell_where_they_are(
    session: &VadSession,
    waiting: Waiting,
    finished: bool,
)
    requires
        call_ensures(VadSession::waiting, (session,), waiting),
        call_ensures(VadSession::is_finished, (session,), finished),
    ensures
        waiting == session@.waiting,
        finished == session@.finished,
{
}

/// The last elements of a sequence are its end: so many of them, or all where it has
/// fewer.
pub proof fn law_the_last_are_the_end<T>(s: Seq<T>, n: nat)
    ensures
        last_of(s, n).is_suffix_of(s),
        s.len() >= n ==> last_of(s, n).len() == n,
        s.len() < n ==> last_of(s, n) == s,
{
    assert(last_of(s, n) =~= s.subrange(s.len() - last_of(s, n).len(), s.len() as int));
}

} // verus!
