//! The samples that wait to be streamed, and the clock of the streaming loop.
use vstd::prelude::*;
use std::collections::VecDeque;

verus! {

/// So many samples of the microphone make a chunk.
pub const CHUNK_SIZE: usize = 640;

/// More waiting samples of the microphone than these are too many.
pub const MIC_LIMIT: usize = 32000;

/// So many of the oldest are dropped then.
pub const MIC_EXCESS: usize = 16000;

/// More waiting samples of the system than these are too many.
pub const SYS_LIMIT: usize = 64000;

/// So many of the oldest are dropped then.
pub const SYS_EXCESS: usize = 32000;

/// The smaller of two numbers.
pub open spec fn smaller(a: int, b: int) -> int {
    if a <= b {
        a
    } else {
        b
    }
}

/// What is left when too many samples wait: without the `excess` oldest ones.
pub open spec fn relieved(samples: Seq<u32>, limit: nat, excess: nat) -> Seq<u32> {
    if samples.len() > limit {
        samples.skip(excess as int)
    } else {
        samples
    }
}

/// The samples in chunks, as they are taken.
pub open spec fn chunks_of(samples: Seq<u32>) -> Seq<Seq<u32>>
    decreases samples.len(),
{
    if samples.len() == 0 {
        seq![]
    } else {
        let n = smaller(CHUNK_SIZE as int, samples.len() as int);
        seq![samples.take(n)] + chunks_of(samples.skip(n))
    }
}

fn drop_oldest(queue: &mut VecDeque<u32>, n: usize)
    requires
        n <= old(queue)@.len(),
    ensures
        final(queue)@ == old(queue)@.skip(n as int),
{
    let mut i: usize = 0;
    while i < n
        invariant
            i <= n <= old(queue)@.len(),
            queue@ == old(queue)@.skip(i as int),
        decreases n - i,
    {
        let _dropped = queue.pop_front();
        assert(queue@ =~= old(queue)@.skip(i + 1));
        i += 1;
    }
}

fn take_oldest(queue: &mut VecDeque<u32>, n: usize) -> (taken: Vec<u32>)
    ensures
        taken@ == old(queue)@.take(smaller(n as int, old(queue)@.len() as int)),
        final(queue)@ == old(queue)@.skip(smaller(n as int, old(queue)@.len() as int)),
{
    let mut taken: Vec<u32> = Vec::new();
    while taken.len() < n && queue.len() > 0
        invariant
            taken.len() <= n,
            taken.len() <= old(queue)@.len(),
            taken@ == old(queue)@.take(taken@.len() as int),
            queue@ == old(queue)@.skip(taken@.len() as int),
        decreases n - taken.len(),
    {
        match queue.pop_front() {
            Some(sample) => taken.push(sample),
            None => {},
        }
        assert(taken@ =~= old(queue)@.take(taken@.len() as int));
        assert(queue@ =~= old(queue)@.skip(taken@.len() as int));
    }
    taken
}

fn put_all(queue: &mut VecDeque<u32>, samples: &Vec<u32>)
    ensures
        final(queue)@ == old(queue)@ + samples@,
{
    let mut i: usize = 0;
    while i < samples.len()
        invariant
            i <= samples.len(),
            queue@ == old(queue)@ + samples@.take(i as int),
        decreases samples.len() - i,
    {
        queue.push_back(samples[i]);
        assert(queue@ =~= old(queue)@ + samples@.take(i + 1));
        i += 1;
    }
    assert(samples@.take(i as int) =~= samples@);
}

/// The samples that wait, oldest first.
#[verifier::ext_equal]
pub struct BuffersView {
    pub mic: Seq<u32>,
    pub sys: Seq<u32>,
}

impl BuffersView {
    /// Both queues after the safety valve was opened.
    pub open spec fn relieve(self) -> BuffersView {
        BuffersView {
            mic: relieved(self.mic, MIC_LIMIT as nat, MIC_EXCESS as nat),
            sys: relieved(self.sys, SYS_LIMIT as nat, SYS_EXCESS as nat),
        }
    }
}

/// The samples of the microphone and of the system that wait to be streamed.
pub struct AudioBuffers {
    mic: VecDeque<u32>,
    sys: VecDeque<u32>,
}

impl View for AudioBuffers {
    type V = BuffersView;

    closed spec fn view(&self) -> BuffersView {
        BuffersView { mic: self.mic@, sys: self.sys@ }
    }
}

impl AudioBuffers {
    /// Buffers with nothing in them.
    pub fn new() -> (buffers: AudioBuffers)
        ensures
            buffers@ == (BuffersView { mic: seq![], sys: seq![] }),
    {
        AudioBuffers { mic: VecDeque::new(), sys: VecDeque::new() }
    }

    /// Adds samples of the microphone.
    pub fn push_mic(&mut self, samples: &Vec<u32>)
        ensures
            final(self)@ == (BuffersView { mic: old(self)@.mic + samples@, sys: old(self)@.sys }),
    {
        put_all(&mut self.mic, samples);
    }

    /// Adds samples of the system.
    pub fn push_sys(&mut self, samples: &Vec<u32>)
        ensures
            final(self)@ == (BuffersView { mic: old(self)@.mic, sys: old(self)@.sys + samples@ }),
    {
        put_all(&mut self.sys, samples);
    }

    /// How many samples of the system wait.
    pub fn sys_len(&self) -> (n: usize)
        ensures
            n == self@.sys.len(),
    {
        self.sys.len()
    }

    /// Takes the next chunk of the microphone, or nothing where nothing waits.
    pub fn take_chunk(&mut self) -> (chunk: Option<Vec<u32>>)
        ensures
            match chunk {
                Some(samples) => {
                    &&& chunks_of(old(self)@.mic).len() > 0
                    &&& samples@ == chunks_of(old(self)@.mic).first()
                    &&& chunks_of(final(self)@.mic) == chunks_of(old(self)@.mic).drop_first()
                    &&& old(self)@.mic == samples@ + final(self)@.mic
                },
                None => old(self)@.mic.len() == 0 && final(self)@.mic.len() == 0,
            },
            final(self)@.sys == old(self)@.sys,
    {
        if self.mic.len() == 0 {
            return None;
        }
        let samples = take_oldest(&mut self.mic, CHUNK_SIZE);
        proof {
            let n = smaller(CHUNK_SIZE as int, old(self)@.mic.len() as int);
            assert(samples@ + old(self)@.mic.skip(n) =~= old(self)@.mic);
            assert(chunks_of(old(self)@.mic).drop_first() =~= chunks_of(old(self)@.mic.skip(n)));
        }
        Some(samples)
    }

    /// Takes as many samples of the system as are wanted, or all that wait.
    pub fn take_sys(&mut self, wanted: usize) -> (samples: Vec<u32>)
        ensures
            ({
                let n = smaller(wanted as int, old(self)@.sys.len() as int);
                &&& samples@ == old(self)@.sys.take(n)
                &&& final(self)@ == (BuffersView {
                    mic: old(self)@.mic,
                    sys: old(self)@.sys.skip(n),
                })
            }),
    {
        take_oldest(&mut self.sys, wanted)
    }

    /// Drops the oldest samples where too many wait.
    pub fn relieve(&mut self)
        ensures
            final(self)@ == old(self)@.relieve(),
    {
        if self.mic.len() > MIC_LIMIT {
            drop_oldest(&mut self.mic, MIC_EXCESS);
        }
        if self.sys.len() > SYS_LIMIT {
            drop_oldest(&mut self.sys, SYS_EXCESS);
        }
    }
}

/// All chunks one after the other.
pub open spec fn joined(chunks: Seq<Seq<u32>>) -> Seq<u32>
    decreases chunks.len(),
{
    if chunks.len() == 0 {
        seq![]
    } else {
        chunks.first() + joined(chunks.drop_first())
    }
}

/// Chunks hold every sample once, in order. None is empty, none is longer than a
/// chunk may be, and only the last one may be shorter.
pub proof fn law_chunks_hold_every_sample(samples: Seq<u32>)
    ensures
        joined(chunks_of(samples)) == samples,
        forall|i: int|
            0 <= i < chunks_of(samples).len() ==> 0 < (#[trigger] chunks_of(samples)[i]).len()
                <= CHUNK_SIZE,
        forall|i: int|
            0 <= i < chunks_of(samples).len() - 1 ==> (#[trigger] chunks_of(samples)[i]).len()
                == CHUNK_SIZE,
    decreases samples.len(),
{
    if samples.len() > 0 {
        let n = smaller(CHUNK_SIZE as int, samples.len() as int);
        let rest = samples.skip(n);
        law_chunks_hold_every_sample(rest);
        let chunks = chunks_of(samples);
        assert(chunks.drop_first() =~= chunks_of(rest));
        assert(samples.take(n) + rest =~= samples);
        assert forall|i: int| 0 <= i < chunks.len() implies 0 < (#[trigger] chunks[i]).len()
            <= CHUNK_SIZE by {
            if i > 0 {
                assert(chunks[i] == chunks_of(rest)[i - 1]);
            }
        }
        assert forall|i: int| 0 <= i < chunks.len() - 1 implies (#[trigger] chunks[i]).len()
            == CHUNK_SIZE by {
            if i > 0 {
                assert(chunks[i] == chunks_of(rest)[i - 1]);
            } else {
                assert(chunks_of(rest).len() > 0);
            }
        }
    }
}

/// The safety valve keeps the waiting samples of the system within their limit,
/// however long the microphone is silent, as long as no block of them is larger
/// than what the valve lets go.
pub proof fn law_waiting_samples_are_bounded(buffers: BuffersView, block: Seq<u32>)
    requires
        buffers.sys.len() <= SYS_LIMIT,
        block.len() <= SYS_EXCESS,
    ensures
        (BuffersView { mic: buffers.mic, sys: buffers.sys + block }).relieve().sys.len()
            <= SYS_LIMIT,
{
}

/// The valve drops the oldest samples only: what is left is the end of what was
/// there.
pub proof fn law_relief_drops_the_oldest(buffers: BuffersView)
    ensures
        buffers.relieve().mic.is_suffix_of(buffers.mic),
        buffers.relieve().sys.is_suffix_of(buffers.sys),
{
    assert(buffers.relieve().mic =~= buffers.mic.subrange(
        buffers.mic.len() - buffers.relieve().mic.len(),
        buffers.mic.len() as int,
    ));
    assert(buffers.relieve().sys =~= buffers.sys.subrange(
        buffers.sys.len() - buffers.relieve().sys.len(),
        buffers.sys.len() as int,
    ));
}

/// What a turn of the streaming loop does to the level meters before it waits.
#[derive(Debug, Clone, Copy, PartialEq, Eq, Structural)]
pub struct MeterTurn {
    /// The peaks start again from zero.
    pub reset_peaks: bool,
    /// The frontend is told the peaks.
    pub report_peaks: bool,
}

/// Counts the turns of the streaming loop.
pub struct LoopClock {
    turns: u64,
}

impl View for LoopClock {
    type V = nat;

    closed spec fn view(&self) -> nat {
        self.turns as nat
    }
}

impl LoopClock {
    /// A clock before the first turn.
    pub fn new() -> (clock: LoopClock)
        ensures
            clock@ == 0,
    {
        LoopClock { turns: 0 }
    }

    /// How many turns there were.
    pub fn turns(&self) -> (turns: u64)
        ensures
            turns == self@,
    {
        self.turns
    }

    /// Begins a turn. Peaks start again with every hundredth and are reported with
    /// every tenth.
    pub fn turn(&mut self) -> (meters: MeterTurn)
        requires
            old(self)@ < u64::MAX,
        ensures
            final(self)@ == old(self)@ + 1,
            meters.reset_peaks == (final(self)@ % 100 == 0),
            meters.report_peaks == (final(self)@ % 10 == 0),
    {
        self.turns = self.turns + 1;
        MeterTurn { reset_peaks: self.turns % 100 == 0, report_peaks: self.turns % 10 == 0 }
    }
}

/// The valve opens for each queue by itself, where more wait than its limit, and lets a
/// fixed number of the oldest go.
pub proof fn law_the_valve_lets_the_excess_go(buffers: BuffersView)
    ensures
        buffers.mic.len() <= 32000 ==> buffers.relieve().mic == buffers.mic,
        buffers.mic.len() > 32000 ==> buffers.mic.take(16000) + buffers.relieve().mic
            == buffers.mic,
        buffers.sys.len() <= 64000 ==> buffers.relieve().sys == buffers.sys,
        buffers.sys.len() > 64000 ==> buffers.sys.take(32000) + buffers.relieve().sys
            == buffers.sys,
{
    if buffers.mic.len() > 32000 {
        assert(buffers.mic.take(16000) + buffers.relieve().mic =~= buffers.mic);
    }
    if buffers.sys.len() > 64000 {
        assert(buffers.sys.take(32000) + buffers.relieve().sys =~= buffers.sys);
    }
}

/// The smaller of two numbers is one of them, and neither is smaller than it.
pub proof fn law_smaller_is_the_smaller(a: int, b: int)
    ensures
        smaller(a, b) == a || smaller(a, b) == b,
        smaller(a, b) <= a,
        smaller(a, b) <= b,
{
}

/// Samples join the end of their own queue, and leave the other one alone.
pub proof fn law_samples_join_the_end(
    mic: &mut AudioBuffers,
    sys: &mut AudioBuffers,
    samples: &Vec<u32>,
)
    requires
        call_ensures(AudioBuffers::push_mic, (mic, samples), ()),
        call_ensures(AudioBuffers::push_sys, (sys, samples), ()),
    ensures
        final(mic)@.mic == old(mic)@.mic + samples@,
        final(mic)@.sys == old(mic)@.sys,
        final(sys)@.sys == old(sys)@.sys + samples@,
        final(sys)@.mic == old(sys)@.mic,
{
}

/// A chunk is taken from the front of the microphone's queue: a full one where there are
/// samples enough, and otherwise all there are. The other queue is left alone.
pub proof fn law_chunks_are_taken_from_the_front(
    buffers: &mut AudioBuffers,
    chunk: Option<Vec<u32>>,
)
    requires
        call_ensures(AudioBuffers::take_chunk, (buffers,), chunk),
    ensures
        chunk is None <==> old(buffers)@.mic.len() == 0,
        chunk matches Some(samples) ==> {
            &&& samples@ + final(buffers)@.mic == old(buffers)@.mic
            &&& old(buffers)@.mic.len() >= 640 ==> samples@.len() == 640
            &&& old(buffers)@.mic.len() < 640 ==> final(buffers)@.mic.len() == 0
        },
        final(buffers)@.sys == old(buffers)@.sys,
{
}

/// Samples of the system are taken oldest first, as many as are wanted or all there are.
pub proof fn law_system_samples_are_taken_from_the_front(
    buffers: &mut AudioBuffers,
    wanted: usize,
    samples: Vec<u32>,
)
    requires
        call_ensures(AudioBuffers::take_sys, (buffers, wanted), samples),
    ensures
        samples@ + final(buffers)@.sys == old(buffers)@.sys,
        samples@.len() == wanted || (samples@.len() < wanted && final(buffers)@.sys.len() == 0),
        final(buffers)@.mic == old(buffers)@.mic,
{
    assert(samples@ + final(buffers)@.sys =~= old(buffers)@.sys);
}

/// New buffers are empty.
pub proof fn law_new_buffers_are_empty(buffers: AudioBuffers)
    requires
        call_ensures(AudioBuffers::new, (), buffers),
    ensures
        buffers@.mic.len() == 0,
        buffers@.sys.len() == 0,
{
}

/// The valve is opened as the limits say.
pub proof fn law_buffers_are_relieved(buffers: &mut AudioBuffers)
    requires
        call_ensures(AudioBuffers::relieve, (buffers,), ()),
    ensures
        final(buffers)@ == old(buffers)@.relieve(),
{
}

/// The clock counts every turn. Peaks are reported with every tenth and start again with
/// every hundredth, and with no other.
pub proof fn law_the_clock_counts(clock: &mut LoopClock, meters: MeterTurn)
    requires
        call_ensures(LoopClock::turn, (clock,), meters),
    ensures
        final(clock)@ == old(clock)@ + 1,
        meters.report_peaks <==> (old(clock)@ + 1) % 10 == 0,
        meters.reset_peaks <==> (old(clock)@ + 1) % 100 == 0,
        meters.reset_peaks ==> meters.report_peaks,
{
}

/// A new clock has counted nothing, and a clock tells what it has counted.
pub proof fn law_the_clock_starts_at_zero(new: LoopClock, clock: &LoopClock, turns: u64)
    requires
        call_ensures(LoopClock::new, (), new),
        call_ensures(LoopClock::turns, (clock,), turns),
    ensures
        new@ == 0,
        turns == clock@,
{
}

} // verus!
