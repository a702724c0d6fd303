//! What the streaming loop does over many turns.
use vstd::prelude::*;
use crate::audio::buffers::{
    AudioBuffers, BuffersView, CHUNK_SIZE, SYS_EXCESS, SYS_LIMIT, chunks_of, smaller,
};
use crate::audio::pcm::pcm_bytes;
use crate::stream::{
    StreamAction, StreamActionView, StreamEvent, StreamEventView, Streamer, StreamerView,
    actions_view, doing,
};
use crate::vad::{Effect, EffectView, EventView, SessionView, StreamState, VadSession};
use crate::vad_laws::{law_commands_say_goodbye, run};

verus! {

/// What the caller of a streamer does to it.
pub enum Turn {
    /// It reports an event.
    Tell(StreamEventView),
    /// It takes samples of the system, as many as these if so many wait.
    TakeSys(nat),
}

/// How many samples are taken where so many are wanted.
pub open spec fn taken_of(streamer: StreamerView, wanted: nat) -> int {
    smaller(wanted as int, streamer.buffers.sys.len() as int)
}

/// What a turn does. Taking samples of the system asks for no action.
pub open spec fn turn(streamer: StreamerView, next: Turn) -> (StreamerView, Seq<StreamActionView>) {
    match next {
        Turn::Tell(event) => streamer.step(event),
        Turn::TakeSys(wanted) => (streamer.without_sys(taken_of(streamer, wanted)), seq![]),
    }
}

/// The streamer after some turns, and all actions on the way.
pub open spec fn run_stream(streamer: StreamerView, turns: Seq<Turn>) -> (
    StreamerView,
    Seq<StreamActionView>,
)
    decreases turns.len(),
{
    if turns.len() == 0 {
        (streamer, seq![])
    } else {
        let before = run_stream(streamer, turns.drop_last());
        let after = turn(before.0, turns.last());
        (after.0, before.1 + after.1)
    }
}

/// The chunks that were handed out to be mixed.
pub open spec fn mixed(actions: Seq<StreamActionView>) -> Seq<Seq<u32>>
    decreases actions.len(),
{
    if actions.len() == 0 {
        seq![]
    } else {
        match actions.last() {
            StreamActionView::Mix(chunk) => mixed(actions.drop_last()).push(chunk),
            _ => mixed(actions.drop_last()),
        }
    }
}

/// What the session asked for.
pub open spec fn asked(actions: Seq<StreamActionView>) -> Seq<EffectView>
    decreases actions.len(),
{
    if actions.len() == 0 {
        seq![]
    } else {
        match actions.last() {
            StreamActionView::Do(effect) => asked(actions.drop_last()).push(effect),
            _ => asked(actions.drop_last()),
        }
    }
}

/// What the session hears of an event of the streamer, if anything.
pub open spec fn heard(event: StreamEventView) -> Option<EventView> {
    match event {
        StreamEventView::Mixed { frames, speech } => Some(
            EventView::Chunk { pcm: pcm_bytes(frames), speech },
        ),
        StreamEventView::Opened(ok) => Some(EventView::Opened(ok)),
        StreamEventView::Sent(ok) => Some(EventView::Sent(ok)),
        StreamEventView::Command(command) => Some(EventView::Command(command)),
        StreamEventView::SourceClosed => Some(EventView::SourceClosed),
        _ => None,
    }
}

/// What the session hears of some turns of the streamer.
pub open spec fn all_heard(streamer: StreamerView, turns: Seq<Turn>) -> Seq<EventView>
    decreases turns.len(),
{
    if turns.len() == 0 {
        seq![]
    } else {
        let before = all_heard(streamer, turns.drop_last());
        match turns.last() {
            Turn::Tell(event) => match heard(event) {
                Some(inner) => if run_stream(streamer, turns.drop_last()).0.expects(event) {
                    before.push(inner)
                } else {
                    before
                },
                None => before,
            },
            Turn::TakeSys(_) => before,
        }
    }
}

/// A streamer keeps its invariant whatever happens to it. In particular, no sample
/// of the microphone is left over when it waits for audio or a command.
pub proof fn law_streamers_stay_well_formed(streamer: StreamerView, turns: Seq<Turn>)
    requires
        streamer.wf(),
    ensures
        run_stream(streamer, turns).0.wf(),
    decreases turns.len(),
{
    if turns.len() > 0 {
        law_streamers_stay_well_formed(streamer, turns.drop_last());
        let before = run_stream(streamer, turns.drop_last()).0;
        match turns.last() {
            Turn::Tell(event) => {
                lemma_step_keeps_wf(before, event);
            },
            Turn::TakeSys(_) => {},
        }
    }
}

/// Samples of the system may be taken at any time: whatever comes next asks for the
/// same actions and leaves the same session and the same samples of the microphone as
/// if none had been taken.
pub proof fn law_taking_samples_disturbs_nothing(
    streamer: StreamerView,
    n: int,
    event: StreamEventView,
)
    ensures
        ({
            let plain = streamer.step(event);
            let after = streamer.without_sys(n).step(event);
            &&& after.1 == plain.1
            &&& after.0.session == plain.0.session
            &&& after.0.mixing == plain.0.mixing
            &&& after.0.buffers.mic == plain.0.buffers.mic
        }),
{
}

/// The events that some turns report.
pub open spec fn told(turns: Seq<Turn>) -> Seq<Turn>
    decreases turns.len(),
{
    if turns.len() == 0 {
        seq![]
    } else {
        match turns.last() {
            Turn::Tell(_) => told(turns.drop_last()).push(turns.last()),
            Turn::TakeSys(_) => told(turns.drop_last()),
        }
    }
}

/// However often samples of the system are taken in between, the actions, the session
/// and the samples of the microphone are those of the same events alone.
pub proof fn law_only_events_count(streamer: StreamerView, turns: Seq<Turn>)
    ensures
        ({
            let plain = run_stream(streamer, told(turns));
            let after = run_stream(streamer, turns);
            &&& after.1 == plain.1
            &&& after.0.session == plain.0.session
            &&& after.0.mixing == plain.0.mixing
            &&& after.0.buffers.mic == plain.0.buffers.mic
        }),
    decreases turns.len(),
{
    if turns.len() > 0 {
        let fewer = turns.drop_last();
        law_only_events_count(streamer, fewer);
        let before = run_stream(streamer, fewer);
        match turns.last() {
            Turn::Tell(event) => {
                let plain = run_stream(streamer, told(fewer)).0;
                assert(told(turns).drop_last() =~= told(fewer));
                lemma_sys_is_ignored(before.0, plain, event);
            },
            Turn::TakeSys(_) => {
                assert(run_stream(streamer, turns).1 =~= before.1);
            },
        }
    }
}

proof fn lemma_sys_is_ignored(one: StreamerView, other: StreamerView, event: StreamEventView)
    requires
        one.session == other.session,
        one.mixing == other.mixing,
        one.buffers.mic == other.buffers.mic,
    ensures
        one.step(event).1 == other.step(event).1,
        one.step(event).0.session == other.step(event).0.session,
        one.step(event).0.mixing == other.step(event).0.mixing,
        one.step(event).0.buffers.mic == other.step(event).0.buffers.mic,
{
}

proof fn lemma_step_keeps_wf(streamer: StreamerView, event: StreamEventView)
    requires
        streamer.wf(),
    ensures
        streamer.step(event).0.wf(),
{
}

proof fn lemma_mixed(first: Seq<StreamActionView>, second: Seq<StreamActionView>)
    ensures
        mixed(first + second) == mixed(first) + mixed(second),
    decreases second.len(),
{
    if second.len() == 0 {
        assert(first + second =~= first);
        assert(mixed(first) + mixed(second) =~= mixed(first));
    } else {
        assert((first + second).drop_last() =~= first + second.drop_last());
        lemma_mixed(first, second.drop_last());
        assert(mixed(first + second) =~= mixed(first) + mixed(second));
    }
}

proof fn lemma_asked(first: Seq<StreamActionView>, second: Seq<StreamActionView>)
    ensures
        asked(first + second) == asked(first) + asked(second),
    decreases second.len(),
{
    if second.len() == 0 {
        assert(first + second =~= first);
        assert(asked(first) + asked(second) =~= asked(first));
    } else {
        assert((first + second).drop_last() =~= first + second.drop_last());
        lemma_asked(first, second.drop_last());
        assert(asked(first + second) =~= asked(first) + asked(second));
    }
}

proof fn lemma_doing(effects: Seq<EffectView>)
    ensures
        mixed(doing(effects)) == Seq::<Seq<u32>>::empty(),
        asked(doing(effects)) == effects,
    decreases effects.len(),
{
    if effects.len() == 0 {
        assert(asked(doing(effects)) =~= effects);
    } else {
        assert(doing(effects).drop_last() =~= doing(effects.drop_last()));
        lemma_doing(effects.drop_last());
        assert(asked(doing(effects)) =~= effects);
    }
}

proof fn lemma_proceed(streamer: StreamerView)
    requires
        streamer.session.finished ==> streamer.buffers.mic.len() == 0,
    ensures
        mixed(streamer.proceed().1) + chunks_of(streamer.proceed().0.buffers.mic) == chunks_of(
            streamer.buffers.mic,
        ),
        asked(streamer.proceed().1) == Seq::<EffectView>::empty(),
        streamer.proceed().0.session == streamer.session,
{
    let actions = streamer.proceed().1;
    assert(actions.len() == 1);
    assert(actions.drop_last() =~= Seq::<StreamActionView>::empty());
    assert(mixed(actions.drop_last()) =~= Seq::<Seq<u32>>::empty());
    assert(asked(actions.drop_last()) =~= Seq::<EffectView>::empty());
    if !streamer.session.finished && streamer.buffers.mic.len() > 0 {
        let n = smaller(CHUNK_SIZE as int, streamer.buffers.mic.len() as int);
        let chunk = chunks_of(streamer.buffers.mic).first();
        assert(chunk =~= streamer.buffers.mic.take(n));
        assert(mixed(actions) =~= seq![chunk]);
    } else {
        assert(streamer.proceed().0.buffers.mic.len() == 0);
        assert(streamer.proceed().0.buffers.mic =~= streamer.buffers.mic);
        assert(mixed(actions) + chunks_of(streamer.proceed().0.buffers.mic) =~= chunks_of(
            streamer.buffers.mic,
        ));
    }
}

proof fn lemma_through_session(streamer: StreamerView, event: EventView)
    requires
        streamer.wf(),
        streamer.session.expects(event),
        event is Command || event is SourceClosed ==> !streamer.mixing,
    ensures
        ({
            let after = streamer.through_session(event);
            &&& mixed(after.1) + chunks_of(after.0.buffers.mic) == chunks_of(streamer.buffers.mic)
            &&& asked(after.1) == streamer.session.step(event).1
            &&& after.0.session == streamer.session.step(event).0
        }),
{
    let inner = streamer.session.step(event);
    let next = StreamerView { session: inner.0, mixing: false, ..streamer };
    lemma_doing(inner.1);
    if next.session.waiting is Nothing {
        lemma_proceed(next);
        lemma_mixed(doing(inner.1), next.proceed().1);
        lemma_asked(doing(inner.1), next.proceed().1);
        assert(Seq::<Seq<u32>>::empty() + mixed(next.proceed().1) =~= mixed(next.proceed().1));
        assert(inner.1 + Seq::<EffectView>::empty() =~= inner.1);
    } else {
        assert(mixed(doing(inner.1)) + chunks_of(streamer.buffers.mic) =~= chunks_of(
            streamer.buffers.mic,
        ));
    }
}

/// Whether the turn reports how an action went, or takes samples for one.
pub open spec fn is_report(next: Turn) -> bool {
    match next {
        Turn::Tell(event) => event is Mixed || event is Opened || event is Sent,
        Turn::TakeSys(_) => true,
    }
}

/// However mixing and sending go, the samples of the microphone are handed out once,
/// in order and in full chunks: what was handed out and what still waits are the
/// chunks of what waited before.
pub proof fn law_every_sample_is_mixed_once(streamer: StreamerView, turns: Seq<Turn>)
    requires
        streamer.wf(),
        forall|i: int| 0 <= i < turns.len() ==> is_report(#[trigger] turns[i]),
    ensures
        ({
            let after = run_stream(streamer, turns);
            mixed(after.1) + chunks_of(after.0.buffers.mic) == chunks_of(streamer.buffers.mic)
        }),
    decreases turns.len(),
{
    let all = run_stream(streamer, turns);
    if turns.len() == 0 {
        assert(mixed(all.1) + chunks_of(all.0.buffers.mic) =~= chunks_of(streamer.buffers.mic));
    } else {
        let fewer = turns.drop_last();
        assert forall|i: int| 0 <= i < fewer.len() implies is_report(#[trigger] fewer[i]) by {
            assert(fewer[i] == turns[i]);
        }
        law_every_sample_is_mixed_once(streamer, fewer);
        law_streamers_stay_well_formed(streamer, fewer);
        let before = run_stream(streamer, fewer);
        let after = turn(before.0, turns.last());
        assert(is_report(turns[turns.len() - 1]));
        lemma_mixed(before.1, after.1);
        assert(mixed(after.1) + chunks_of(after.0.buffers.mic) == chunks_of(before.0.buffers.mic))
            by {
            match turns.last() {
                Turn::Tell(event) => {
                    if before.0.expects(event) {
                        lemma_through_session(before.0, heard(event).unwrap());
                    } else {
                        assert(mixed(after.1) + chunks_of(after.0.buffers.mic) =~= chunks_of(
                            after.0.buffers.mic,
                        ));
                    }
                },
                Turn::TakeSys(_) => {
                    assert(mixed(after.1) + chunks_of(after.0.buffers.mic) =~= chunks_of(
                        after.0.buffers.mic,
                    ));
                },
            }
        }
        assert(mixed(before.1) + (mixed(after.1) + chunks_of(after.0.buffers.mic)) =~= mixed(
            before.1,
        ) + mixed(after.1) + chunks_of(after.0.buffers.mic));
    }
}

/// Audio of the microphone is handed out completely before anything else is taken:
/// from one delivery until the streamer waits again, what is mixed are the chunks of
/// that delivery.
pub proof fn law_a_delivery_is_mixed_completely(
    streamer: StreamerView,
    samples: Seq<u32>,
    turns: Seq<Turn>,
)
    requires
        streamer.wf(),
        streamer.is_idle(),
        forall|i: int| 0 <= i < turns.len() ==> is_report(#[trigger] turns[i]),
        run_stream(streamer.step(StreamEventView::Mic(samples)).0, turns).0.is_idle(),
    ensures
        mixed(
            streamer.step(StreamEventView::Mic(samples)).1 + run_stream(
                streamer.step(StreamEventView::Mic(samples)).0,
                turns,
            ).1,
        ) == chunks_of(samples),
{
    let delivered = streamer.step(StreamEventView::Mic(samples));
    let rest = run_stream(delivered.0, turns);
    lemma_step_keeps_wf(streamer, StreamEventView::Mic(samples));
    law_every_sample_is_mixed_once(delivered.0, turns);
    law_streamers_stay_well_formed(delivered.0, turns);
    lemma_mixed(delivered.1, rest.1);
    assert(streamer.buffers.mic + samples =~= samples);
    let filled = StreamerView {
        buffers: BuffersView { mic: streamer.buffers.mic + samples, ..streamer.buffers },
        ..streamer
    };
    lemma_proceed(filled);
    assert(chunks_of(rest.0.buffers.mic) =~= Seq::<Seq<u32>>::empty());
    assert(mixed(rest.1) + chunks_of(rest.0.buffers.mic) =~= mixed(rest.1));
}

/// The loop does what its session asks for, no more and no less: over any turns, the
/// effects are those of the session on what it hears.
pub proof fn law_the_session_decides(streamer: StreamerView, turns: Seq<Turn>)
    requires
        streamer.wf(),
    ensures
        ({
            let after = run_stream(streamer, turns);
            let session = run(streamer.session, all_heard(streamer, turns));
            &&& after.0.session == session.0
            &&& asked(after.1) == session.1
        }),
    decreases turns.len(),
{
    if turns.len() > 0 {
        let fewer = turns.drop_last();
        law_the_session_decides(streamer, fewer);
        law_streamers_stay_well_formed(streamer, fewer);
        let before = run_stream(streamer, fewer);
        let after = turn(before.0, turns.last());
        lemma_asked(before.1, after.1);
        assert(asked(before.1) + Seq::<EffectView>::empty() =~= asked(before.1));
        match turns.last() {
            Turn::Tell(event) => {
                if before.0.expects(event) {
                    lemma_asked_by_step(before.0, event);
                    if heard(event) is Some {
                        let inner = heard(event).unwrap();
                        let all = all_heard(streamer, fewer).push(inner);
                        assert(all.drop_last() =~= all_heard(streamer, fewer));
                        assert(all.last() == inner);
                    }
                }
            },
            Turn::TakeSys(_) => {},
        }
    }
}

proof fn lemma_asked_by_step(streamer: StreamerView, event: StreamEventView)
    requires
        streamer.wf(),
        streamer.expects(event),
    ensures
        ({
            let after = streamer.step(event);
            match heard(event) {
                Some(inner) => {
                    &&& asked(after.1) == streamer.session.step(inner).1
                    &&& after.0.session == streamer.session.step(inner).0
                },
                None => {
                    &&& asked(after.1) == Seq::<EffectView>::empty()
                    &&& after.0.session == streamer.session
                },
            }
        }),
{
    let buffers = streamer.buffers;
    match event {
        StreamEventView::Mic(samples) => {
            lemma_proceed(
                StreamerView {
                    buffers: BuffersView { mic: buffers.mic + samples, ..buffers },
                    ..streamer
                },
            );
        },
        StreamEventView::Sys(samples) => {
            lemma_proceed(
                StreamerView {
                    buffers: BuffersView { sys: buffers.sys + samples, ..buffers },
                    ..streamer
                },
            );
        },
        StreamEventView::Missed => {
            lemma_proceed(streamer);
        },
        _ => {
            lemma_through_session(streamer, heard(event).unwrap());
        },
    }
}

/// Whether the samples of the system that a turn delivers, if any, are no more than
/// the safety valve lets go at once.
pub open spec fn is_moderate(next: Turn) -> bool {
    match next {
        Turn::Tell(StreamEventView::Sys(samples)) => samples.len() <= SYS_EXCESS,
        _ => true,
    }
}

/// The waiting samples of the system stay within their limit for ever, however the
/// deliveries of both sources alternate, as long as none is excessive.
pub proof fn law_the_backlog_is_bounded(streamer: StreamerView, turns: Seq<Turn>)
    requires
        streamer.wf(),
        streamer.buffers.sys.len() <= SYS_LIMIT,
        forall|i: int| 0 <= i < turns.len() ==> is_moderate(#[trigger] turns[i]),
    ensures
        run_stream(streamer, turns).0.buffers.sys.len() <= SYS_LIMIT,
    decreases turns.len(),
{
    if turns.len() > 0 {
        let fewer = turns.drop_last();
        assert forall|i: int| 0 <= i < fewer.len() implies is_moderate(#[trigger] fewer[i]) by {
            assert(fewer[i] == turns[i]);
        }
        law_the_backlog_is_bounded(streamer, fewer);
        law_streamers_stay_well_formed(streamer, fewer);
        assert(is_moderate(turns[turns.len() - 1]));
    }
}

/// The samples of the system that waited at first and those that came since, in
/// order.
pub open spec fn sys_delivered(streamer: StreamerView, turns: Seq<Turn>) -> Seq<u32>
    decreases turns.len(),
{
    if turns.len() == 0 {
        streamer.buffers.sys
    } else {
        let before = sys_delivered(streamer, turns.drop_last());
        match turns.last() {
            Turn::Tell(StreamEventView::Sys(samples)) => if run_stream(
                streamer,
                turns.drop_last(),
            ).0.is_idle() {
                before + samples
            } else {
                before
            },
            _ => before,
        }
    }
}

/// How many samples of the system were taken or dropped.
pub open spec fn sys_gone(streamer: StreamerView, turns: Seq<Turn>) -> int {
    sys_delivered(streamer, turns).len() - run_stream(streamer, turns).0.buffers.sys.len()
}

/// Samples of the system go in the order in which they came, and none twice: those
/// that wait are always the newest, what went stays gone, and samples are taken from
/// where the earlier ones ended.
pub proof fn law_system_samples_go_in_order(streamer: StreamerView, turns: Seq<Turn>)
    requires
        streamer.wf(),
    ensures
        0 <= sys_gone(streamer, turns),
        run_stream(streamer, turns).0.buffers.sys == sys_delivered(streamer, turns).skip(
            sys_gone(streamer, turns),
        ),
        turns.len() > 0 ==> {
            let before = turns.drop_last();
            &&& sys_gone(streamer, before) <= sys_gone(streamer, turns)
            &&& turns.last() matches Turn::TakeSys(wanted) ==> sys_gone(streamer, turns)
                == sys_gone(streamer, before) + taken_of(run_stream(streamer, before).0, wanted)
        },
    decreases turns.len(),
{
    let all = sys_delivered(streamer, turns);
    let waiting = run_stream(streamer, turns).0.buffers.sys;
    if turns.len() > 0 {
        let fewer = turns.drop_last();
        law_system_samples_go_in_order(streamer, fewer);
        law_streamers_stay_well_formed(streamer, fewer);
        let before = run_stream(streamer, fewer).0;
        match turns.last() {
            Turn::Tell(event) => {
                lemma_sys_after_step(before, event);
            },
            Turn::TakeSys(_) => {},
        }
    }
    assert(waiting =~= all.skip(all.len() - waiting.len()));
}

proof fn lemma_sys_after_step(streamer: StreamerView, event: StreamEventView)
    ensures
        ({
            let all = match event {
                StreamEventView::Sys(samples) => if streamer.is_idle() {
                    streamer.buffers.sys + samples
                } else {
                    streamer.buffers.sys
                },
                _ => streamer.buffers.sys,
            };
            let left = streamer.step(event).0.buffers.sys;
            left == all || (all.len() > SYS_LIMIT && left == all.skip(SYS_EXCESS as int))
        }),
{
}

/// A new streamer has nothing under way and nothing waiting, and its session is new.
pub proof fn law_new_streamers_have_nothing(streamer: Streamer, session: VadSession)
    requires
        call_ensures(Streamer::new, (), streamer),
        call_ensures(VadSession::new, (), session),
    ensures
        streamer@.buffers.mic.len() == 0,
        streamer@.buffers.sys.len() == 0,
        !streamer@.mixing,
        streamer@.session == session@,
{
}

/// What a streamer is told is what happened: no event stands for another one.
pub proof fn law_stream_events_are_what_happened(
    samples: Vec<u32>,
    frames: Vec<(i16, i16)>,
    flag: bool,
    command: String,
)
    ensures
        (StreamEvent::Mic(samples))@ == StreamEventView::Mic(samples@),
        (StreamEvent::Sys(samples))@ == StreamEventView::Sys(samples@),
        (StreamEvent::Missed)@ == StreamEventView::Missed,
        (StreamEvent::Mixed { frames, speech: flag })@ == (StreamEventView::Mixed {
            frames: frames@,
            speech: flag,
        }),
        (StreamEvent::Opened(flag))@ == StreamEventView::Opened(flag),
        (StreamEvent::Sent(flag))@ == StreamEventView::Sent(flag),
        (StreamEvent::Command(command))@ == StreamEventView::Command(command@),
        (StreamEvent::SourceClosed)@ == StreamEventView::SourceClosed,
{
}

/// What a streamer asks for is what is done: no action stands for another one.
pub proof fn law_stream_actions_are_what_is_done(samples: Vec<u32>, effect: Effect)
    ensures
        (StreamAction::Mix(samples))@ == StreamActionView::Mix(samples@),
        (StreamAction::Do(effect))@ == StreamActionView::Do(effect@),
        (StreamAction::Await)@ == StreamActionView::Await,
        (StreamAction::Finish)@ == StreamActionView::Finish,
{
}

/// A streamer does as it is told, and asks for as many actions as there are.
pub proof fn law_stream_steps_are_carried_out(
    streamer: &mut Streamer,
    event: StreamEvent,
    actions: Vec<StreamAction>,
)
    requires
        call_ensures(Streamer::step, (streamer, event), actions),
    ensures
        final(streamer)@ == old(streamer)@.step(event@).0,
        actions@.len() == old(streamer)@.step(event@).1.len(),
        forall|i: int|
            0 <= i < actions@.len() ==> (#[trigger] actions@[i])@ == old(streamer)@.step(
                event@,
            ).1[i],
{
    assert forall|i: int| 0 <= i < actions@.len() implies (#[trigger] actions@[i])@ == old(streamer)@.step(event@).1[i] by {
        assert(actions_view(actions@)[i] == actions@[i]@);
    }
}

/// Whether an event comes at the right time: a report when its action is under way,
/// and anything else when nothing is.
pub open spec fn is_timely(streamer: StreamerView, event: StreamEventView) -> bool {
    match event {
        StreamEventView::Mixed { .. } => streamer.mixing,
        StreamEventView::Opened(_) => {
            &&& !streamer.session.finished
            &&& streamer.session.waiting is Opening
        },
        StreamEventView::Sent(_) => {
            &&& !streamer.session.finished
            &&& streamer.session.waiting is Flushing || streamer.session.waiting is Sending
        },
        _ => {
            &&& !streamer.mixing
            &&& !streamer.session.finished
            &&& streamer.session.waiting is Nothing
        },
    }
}

/// What comes at the wrong time does nothing.
pub proof fn law_untimely_stream_events_do_nothing(streamer: StreamerView, event: StreamEventView)
    requires
        !is_timely(streamer, event),
    ensures
        streamer.step(event).0 == streamer,
        streamer.step(event).1.len() == 0,
{
}

/// What the session does about an event of the streamer. Samples that are delivered
/// or missed do not concern it.
pub open spec fn session_does(session: SessionView, event: StreamEventView) -> (
    SessionView,
    Seq<EffectView>,
) {
    match event {
        StreamEventView::Mixed { frames, speech } => session.step(
            EventView::Chunk { pcm: pcm_bytes(frames), speech },
        ),
        StreamEventView::Opened(ok) => session.step(EventView::Opened(ok)),
        StreamEventView::Sent(ok) => session.step(EventView::Sent(ok)),
        StreamEventView::Command(command) => session.step(EventView::Command(command)),
        StreamEventView::SourceClosed => session.step(EventView::SourceClosed),
        _ => (session, Seq::empty()),
    }
}

/// The samples of the microphone that are there once an event has delivered its own.
pub open spec fn mic_there(streamer: StreamerView, event: StreamEventView) -> Seq<u32> {
    match event {
        StreamEventView::Mic(samples) => streamer.buffers.mic + samples,
        _ => streamer.buffers.mic,
    }
}

/// The samples of the system that are there once an event has delivered its own.
pub open spec fn sys_there(streamer: StreamerView, event: StreamEventView) -> Seq<u32> {
    match event {
        StreamEventView::Sys(samples) => streamer.buffers.sys + samples,
        _ => streamer.buffers.sys,
    }
}

/// Every event that comes at the right time is answered. First comes what the session
/// asks for. While the session waits, that is all. Otherwise the last action says how
/// it goes on: the loop is left once the session is over, or the next samples of the
/// microphone are mixed, up to a full chunk of them, or there are none and audio is
/// awaited.
pub proof fn law_every_event_is_answered(streamer: StreamerView, event: StreamEventView)
    requires
        streamer.wf(),
        is_timely(streamer, event),
    ensures
        ({
            let does = session_does(streamer.session, event);
            let after = streamer.step(event);
            let mic = mic_there(streamer, event);
            let n = does.1.len() as int;
            &&& after.0.session == does.0
            &&& n <= after.1.len()
            &&& forall|i: int|
                0 <= i < n ==> #[trigger] after.1[i] == StreamActionView::Do(does.1[i])
            &&& does.0.waiting !is Nothing ==> {
                &&& after.1.len() == n
                &&& !after.0.mixing
                &&& after.0.buffers.mic == mic
            }
            &&& does.0.waiting is Nothing && does.0.finished ==> {
                &&& after.1.len() == n + 1
                &&& after.1.last() == StreamActionView::Finish
                &&& !after.0.mixing
            }
            &&& does.0.waiting is Nothing && !does.0.finished && mic.len() > 0 ==> {
                &&& after.1.len() == n + 1
                &&& after.0.mixing
                &&& after.1.last() matches StreamActionView::Mix(chunk) && {
                    &&& chunk + after.0.buffers.mic == mic
                    &&& mic.len() >= CHUNK_SIZE ==> chunk.len() == CHUNK_SIZE
                    &&& mic.len() < CHUNK_SIZE ==> chunk == mic
                }
            }
            &&& does.0.waiting is Nothing && !does.0.finished && mic.len() == 0 ==> {
                &&& after.1.len() == n + 1
                &&& !after.0.mixing
                &&& after.1.last() == StreamActionView::Await
                &&& after.0.buffers.mic.len() == 0
            }
        }),
{
    let mic = mic_there(streamer, event);
    if mic.len() > 0 {
        let k = smaller(CHUNK_SIZE as int, mic.len() as int);
        assert(chunks_of(mic).first() =~= mic.take(k));
        assert(mic.take(k) + mic.skip(k) =~= mic);
        if mic.len() < CHUNK_SIZE {
            assert(mic.take(k) =~= mic);
        }
    }
}

/// Samples of the system are kept as they come, until audio is awaited again. Where
/// more than the limit wait then, the oldest of them go.
pub proof fn law_system_samples_are_kept(streamer: StreamerView, event: StreamEventView)
    requires
        streamer.wf(),
        is_timely(streamer, event),
    ensures
        ({
            let after = streamer.step(event);
            let sys = sys_there(streamer, event);
            let awaits = after.1.len() > 0 && after.1.last() is Await;
            &&& sys.len() <= SYS_LIMIT || !awaits ==> after.0.buffers.sys == sys
            &&& sys.len() > SYS_LIMIT && awaits ==> {
                &&& after.0.buffers.sys.len() == sys.len() - SYS_EXCESS
                &&& sys.take(SYS_EXCESS as int) + after.0.buffers.sys == sys
            }
        }),
{
    law_every_event_is_answered(streamer, event);
    let sys = sys_there(streamer, event);
    if sys.len() > SYS_LIMIT {
        assert(sys.take(SYS_EXCESS as int) + sys.skip(SYS_EXCESS as int) =~= sys);
    }
}

/// Whenever a session ends the caller is told to leave the loop, with the last action
/// and with no other one, and it is told so at no other time.
pub proof fn law_the_end_is_told(streamer: StreamerView, event: StreamEventView)
    requires
        streamer.wf(),
    ensures
        ({
            let after = streamer.step(event);
            let ends = !streamer.session.finished && after.0.session.finished;
            &&& ends ==> after.1.len() > 0 && after.1.last() == StreamActionView::Finish
            &&& forall|i: int|
                0 <= i < after.1.len() && #[trigger] after.1[i] == StreamActionView::Finish ==> ends
                    && i == after.1.len() - 1
        }),
{
    if is_timely(streamer, event) {
        law_every_event_is_answered(streamer, event);
        if streamer.session.finished {
            assert(!streamer.mixing);
        }
    } else {
        law_untimely_stream_events_do_nothing(streamer, event);
    }
}

/// Any command but "start" ends a loop that is idle: a connection is closed and given
/// up, the frontend hears that the companion is idle, and the loop is left.
pub proof fn law_commands_leave_the_loop(streamer: StreamerView, command: Seq<char>)
    requires
        streamer.wf(),
        streamer.session.waiting is Nothing,
        !streamer.session.finished,
        !streamer.mixing,
        command != "start"@,
    ensures
        ({
            let after = streamer.step(StreamEventView::Command(command));
            &&& after.0.session.finished
            &&& streamer.session.connected ==> after.1 == seq![
                StreamActionView::Do(EffectView::SendClose),
                StreamActionView::Do(EffectView::Disconnect),
                StreamActionView::Do(EffectView::Announce(StreamState::Listening)),
                StreamActionView::Finish,
            ]
            &&& !streamer.session.connected ==> after.1 == seq![
                StreamActionView::Do(EffectView::Announce(StreamState::Listening)),
                StreamActionView::Finish,
            ]
        }),
{
    law_every_event_is_answered(streamer, StreamEventView::Command(command));
    law_commands_say_goodbye(streamer.session, command);
    let after = streamer.step(StreamEventView::Command(command));
    if streamer.session.connected {
        assert(after.1 =~= seq![
            StreamActionView::Do(EffectView::SendClose),
            StreamActionView::Do(EffectView::Disconnect),
            StreamActionView::Do(EffectView::Announce(StreamState::Listening)),
            StreamActionView::Finish,
        ]);
    } else {
        assert(after.1 =~= seq![
            StreamActionView::Do(EffectView::Announce(StreamState::Listening)),
            StreamActionView::Finish,
        ]);
    }
}

/// Samples of the system are handed out oldest first, as many as are wanted or all
/// there are, and nothing else about the streamer changes.
pub proof fn law_the_oldest_samples_are_taken(
    streamer: &mut Streamer,
    wanted: usize,
    samples: Vec<u32>,
)
    requires
        call_ensures(Streamer::take_sys, (streamer, wanted), samples),
    ensures
        samples@ + final(streamer)@.buffers.sys == old(streamer)@.buffers.sys,
        samples@.len() == wanted || (samples@.len() < wanted && final(streamer)@.buffers.sys.len() == 0),
        final(streamer)@.buffers.mic == old(streamer)@.buffers.mic,
        final(streamer)@.session == old(streamer)@.session,
        final(streamer)@.mixing == old(streamer)@.mixing,
{
    assert(samples@ + final(streamer)@.buffers.sys =~= old(streamer)@.buffers.sys);
}

/// A streamer tells how many samples of the system wait, and so do its buffers.
pub proof fn law_waiting_samples_are_counted(
    streamer: &Streamer,
    buffers: &AudioBuffers,
    in_streamer: usize,
    in_buffers: usize,
)
    requires
        call_ensures(Streamer::sys_len, (streamer,), in_streamer),
        call_ensures(AudioBuffers::sys_len, (buffers,), in_buffers),
    ensures
        in_streamer == streamer@.buffers.sys.len(),
        in_buffers == buffers@.sys.len(),
{
}

} // verus!
