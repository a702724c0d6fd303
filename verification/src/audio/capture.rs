//! Capture of the microphone and of what the system plays.
use vstd::prelude::*;

verus! {

/// The bit pattern of 1.0.
pub const UNIT_GAIN: u32 = 0x3f80_0000;

/// The bit pattern of positive infinity. What lies above it is no number.
pub const INFINITY_BITS: u32 = 0x7f80_0000;

/// How loud a sample is, on a scale that orders samples as their absolute values
/// are ordered. What is no number is silent.
pub open spec fn loudness(sample: u32) -> u32 {
    let bits = sample % 0x8000_0000;
    if bits > INFINITY_BITS {
        0
    } else {
        bits as u32
    }
}

/// How many complete frames there are.
pub open spec fn frame_count(data: Seq<u32>, channels: nat) -> nat {
    data.len() / channels
}

/// The sample of one channel in one frame.
pub open spec fn sample_at(data: Seq<u32>, channels: nat, frame: int, channel: int) -> u32 {
    data[frame * channels + channel]
}

/// One channel by itself.
pub open spec fn channel_of(data: Seq<u32>, channels: nat, channel: int) -> Seq<u32> {
    Seq::new(frame_count(data, channels), |frame: int| sample_at(data, channels, frame, channel))
}

/// `peak` is how loud the loudest sample is, and zero where there is none.
pub open spec fn is_peak(samples: Seq<u32>, peak: u32) -> bool {
    &&& forall|i: int| 0 <= i < samples.len() ==> loudness(#[trigger] samples[i]) <= peak
    &&& peak > 0 ==> exists|i: int|
        0 <= i < samples.len() && loudness(#[trigger] samples[i]) == peak
}

/// How loud the loudest sample is, and zero where there is none.
pub open spec fn peak_of(samples: Seq<u32>) -> u32
    decreases samples.len(),
{
    if samples.len() == 0 {
        0
    } else {
        let before = peak_of(samples.drop_last());
        if loudness(samples.last()) > before {
            loudness(samples.last())
        } else {
            before
        }
    }
}

/// `channel` is the loudest channel, and the last of them where several are
/// equally loud.
pub open spec fn is_dominant(data: Seq<u32>, channels: nat, channel: int) -> bool {
    &&& 0 <= channel < channels
    &&& forall|c: int|
        0 <= c < channels ==> peak_of(#[trigger] channel_of(data, channels, c)) <= peak_of(
            channel_of(data, channels, channel),
        )
    &&& forall|c: int|
        channel < c < channels ==> peak_of(#[trigger] channel_of(data, channels, c)) < peak_of(
            channel_of(data, channels, channel),
        )
}

fn loudness_of(sample: u32) -> (loud: u32)
    ensures
        loud == loudness(sample),
{
    let bits: u32 = sample % 0x8000_0000;
    if bits > INFINITY_BITS {
        0
    } else {
        bits
    }
}

proof fn lemma_sample_in_range(len: nat, channels: nat, frame: int, channel: int)
    requires
        0 <= frame < len / channels,
        0 <= channel < channels,
    ensures
        0 <= frame * channels + channel < len,
{
    assert(0 <= frame * channels && frame * channels + channels <= len) by (nonlinear_arith)
        requires
            0 <= frame < len / channels,
            0 < channels,
    ;
}

/// The peak of a sequence is the loudness of its loudest sample.
pub proof fn law_peak_is_the_loudest(samples: Seq<u32>)
    ensures
        is_peak(samples, peak_of(samples)),
    decreases samples.len(),
{
    if samples.len() > 0 {
        let fewer = samples.drop_last();
        law_peak_is_the_loudest(fewer);
        assert forall|i: int| 0 <= i < samples.len() implies loudness(#[trigger] samples[i])
            <= peak_of(samples) by {
            if i < fewer.len() {
                assert(samples[i] == fewer[i]);
            }
        }
        if peak_of(samples) > 0 {
            if loudness(samples.last()) > peak_of(fewer) {
                assert(loudness(samples[samples.len() - 1]) == peak_of(samples));
            } else {
                let i = choose|i: int|
                    0 <= i < fewer.len() && loudness(#[trigger] fewer[i]) == peak_of(fewer);
                assert(loudness(samples[i]) == peak_of(samples));
            }
        }
    }
}

/// Takes one channel out of interleaved samples. What follows the last complete
/// frame is left out.
pub fn take_channel(data: &Vec<u32>, channels: usize, channel: usize) -> (samples: Vec<u32>)
    requires
        channel < channels,
    ensures
        samples@ == channel_of(data@, channels as nat, channel as int),
{
    let mut samples: Vec<u32> = Vec::new();
    let frames: usize = data.len() / channels;
    let mut at: usize = channel;
    let mut frame: usize = 0;
    while frame < frames
        invariant
            channel < channels,
            frames == data@.len() / channels as nat,
            frame <= frames,
            frame < frames ==> at == frame * channels + channel,
            samples@ == channel_of(data@, channels as nat, channel as int).take(frame as int),
        decreases frames - frame,
    {
        proof {
            lemma_sample_in_range(data@.len(), channels as nat, frame as int, channel as int);
        }
        samples.push(data[at]);
        let ghost done = frame;
        frame += 1;
        if frame < frames {
            proof {
                lemma_sample_in_range(data@.len(), channels as nat, frame as int, channel as int);
                assert(frame * channels == done * channels + channels) by (nonlinear_arith)
                    requires
                        frame == done + 1,
                ;
                assert(at + channels < data.len());
            }
            at = at + channels;
        }
        assert(samples@ =~= channel_of(data@, channels as nat, channel as int).take(frame as int));
    }
    assert(samples@ =~= channel_of(data@, channels as nat, channel as int));
    samples
}

fn peak(samples: &Vec<u32>) -> (loud: u32)
    ensures
        loud == peak_of(samples@),
{
    let mut loud: u32 = 0;
    let mut i: usize = 0;
    while i < samples.len()
        invariant
            i <= samples.len(),
            loud == peak_of(samples@.take(i as int)),
        decreases samples.len() - i,
    {
        let next: u32 = loudness_of(samples[i]);
        assert(samples@.take(i + 1).drop_last() =~= samples@.take(i as int));
        if next > loud {
            loud = next;
        }
        i += 1;
    }
    assert(samples@.take(i as int) =~= samples@);
    loud
}

/// Finds the loudest channel of interleaved samples, the last of them where
/// several are equally loud.
pub fn dominant_channel(data: &Vec<u32>, channels: usize) -> (channel: usize)
    requires
        channels > 0,
    ensures
        is_dominant(data@, channels as nat, channel as int),
{
    let mut best: usize = 0;
    let mut best_peak: u32 = peak(&take_channel(data, channels, 0));
    let mut next: usize = 1;
    while next < channels
        invariant
            best < next <= channels,
            best_peak == peak_of(channel_of(data@, channels as nat, best as int)),
            forall|c: int|
                0 <= c < next ==> peak_of(#[trigger] channel_of(data@, channels as nat, c))
                    <= best_peak,
            forall|c: int|
                best < c < next ==> peak_of(#[trigger] channel_of(data@, channels as nat, c))
                    < best_peak,
        decreases channels - next,
    {
        let next_peak: u32 = peak(&take_channel(data, channels, next));
        if next_peak >= best_peak {
            best = next;
            best_peak = next_peak;
        }
        next += 1;
    }
    best
}

/// There is one dominant channel and no other.
pub proof fn law_one_channel_dominates(data: Seq<u32>, channels: nat, a: int, b: int)
    requires
        is_dominant(data, channels, a),
        is_dominant(data, channels, b),
    ensures
        a == b,
{
    assert(peak_of(channel_of(data, channels, a)) == peak_of(channel_of(data, channels, b)));
}

/// The system's audio on one channel: its loudest one.
pub fn system_mono(data: &Vec<u32>, channels: u16) -> (samples: Vec<u32>)
    requires
        channels > 0,
    ensures
        exists|channel: int|
            is_dominant(data@, channels as nat, channel) && samples@ == #[trigger] channel_of(
                data@,
                channels as nat,
                channel,
            ),
{
    let channel: usize = dominant_channel(data, channels as usize);
    let samples = take_channel(data, channels as usize, channel);
    assert(samples@ == channel_of(data@, channels as nat, channel as int));
    samples
}

/// The microphone's audio, as far as it can be brought on one channel without
/// arithmetic.
pub enum MicAudio {
    /// One sample per frame.
    Mono(Vec<u32>),
    /// The left and right samples, whose mean is the sample of the frame.
    Stereo(Vec<u32>, Vec<u32>),
}

/// The microphone's audio on one channel. Two channels are to be averaged, of more
/// than two the first one counts.
pub fn mic_mono(data: Vec<u32>, channels: u16) -> (audio: MicAudio)
    requires
        channels > 0,
    ensures
        match audio {
            MicAudio::Mono(samples) => {
                &&& channels != 2
                &&& channels == 1 ==> samples@ == data@
                &&& channels > 2 ==> samples@ == channel_of(data@, channels as nat, 0)
            },
            MicAudio::Stereo(left, right) => {
                &&& channels == 2
                &&& left@ == channel_of(data@, 2, 0)
                &&& right@ == channel_of(data@, 2, 1)
            },
        },
{
    if channels == 2 {
        MicAudio::Stereo(take_channel(&data, 2, 0), take_channel(&data, 2, 1))
    } else if channels == 1 {
        MicAudio::Mono(data)
    } else {
        MicAudio::Mono(take_channel(&data, channels as usize, 0))
    }
}

/// What a device delivers.
#[derive(Debug, Clone, Copy, PartialEq, Eq, Structural)]
pub struct StreamConfig {
    pub sample_rate: u32,
    pub channels: u16,
}

/// Why no capture could be started.
pub enum CaptureFault {
    NoInputDevice,
    NoOutputDevice,
    /// The audio system said this.
    Backend(String),
}

impl CaptureFault {
    /// What is said about the fault.
    pub open spec fn spec_message(self) -> Seq<char> {
        match self {
            CaptureFault::NoInputDevice => "Failed to get default input device"@,
            CaptureFault::NoOutputDevice => "Failed to get default output device"@,
            CaptureFault::Backend(message) => message@,
        }
    }

    /// What is said about the fault.
    pub fn message(self) -> (text: String)
        ensures
            text@ == self.spec_message(),
    {
        match self {
            CaptureFault::NoInputDevice => "Failed to get default input device".to_owned(),
            CaptureFault::NoOutputDevice => "Failed to get default output device".to_owned(),
            CaptureFault::Backend(message) => message,
        }
    }
}

/// The capture of both sources: which devices it prefers, the gain it gives the
/// microphone, and whether its streams run.
pub struct AudioCapture {
    pub preferred_input: Option<String>,
    pub preferred_output: Option<String>,
    /// The bit pattern of the gain.
    pub mic_gain: u32,
    pub active: bool,
}

impl AudioCapture {
    /// A capture that does not run, on the default devices and with no gain.
    pub fn new() -> (capture: AudioCapture)
        ensures
            capture == (AudioCapture {
                preferred_input: None,
                preferred_output: None,
                mic_gain: UNIT_GAIN,
                active: false,
            }),
    {
        AudioCapture {
            preferred_input: None,
            preferred_output: None,
            mic_gain: UNIT_GAIN,
            active: false,
        }
    }

    /// Takes note of how opening the streams of the microphone and of the system
    /// went. The system's audio comes on one channel, however many the device has.
    pub fn start(&mut self, opened: Result<(StreamConfig, StreamConfig), CaptureFault>) -> (started:
        Result<((u32, u16), (u32, u16)), String>)
        ensures
            match opened {
                Ok((mic, sys)) => {
                    &&& started == Ok::<((u32, u16), (u32, u16)), String>(
                        ((mic.sample_rate, mic.channels), (sys.sample_rate, 1u16)),
                    )
                    &&& *final(self) == (AudioCapture { active: true, ..*old(self) })
                },
                Err(fault) => {
                    &&& started matches Err(message) && message@ == fault.spec_message()
                    &&& *final(self) == *old(self)
                },
            },
    {
        match opened {
            Ok((mic, sys)) => {
                self.active = true;
                Ok(((mic.sample_rate, mic.channels), (sys.sample_rate, 1)))
            },
            Err(fault) => Err(fault.message()),
        }
    }

    /// Takes note that the streams were stopped.
    pub fn stop(&mut self)
        ensures
            *final(self) == (AudioCapture { active: false, ..*old(self) }),
    {
        self.active = false;
    }

    /// Whether the streams run.
    pub fn is_active(&self) -> (active: bool)
        ensures
            active == self.active,
    {
        self.active
    }

    /// Stops the capture and changes the devices that it prefers. It is to be
    /// started again.
    pub fn set_devices(&mut self, input: Option<String>, output: Option<String>)
        ensures
            *final(self) == (AudioCapture {
                preferred_input: input,
                preferred_output: output,
                active: false,
                ..*old(self)
            }),
    {
        self.stop();
        self.preferred_input = input;
        self.preferred_output = output;
    }

    /// Changes the gain, where the new one differs enough. Streams that run have
    /// the old gain; they are stopped, and the capture is to be started again.
    /// Whether it differs enough is up to the caller; a gain never differs from
    /// itself.
    pub fn set_gain(&mut self, gain: u32, differs: bool) -> (restart: bool)
        ensures
            (*final(self), restart) == gain_set(*old(self), gain, differs),
    {
        if !differs || gain == self.mic_gain {
            return false;
        }
        self.mic_gain = gain;
        if self.active {
            self.stop();
            true
        } else {
            false
        }
    }
}

/// The capture when its gain is set, and whether it is to be started again.
pub open spec fn gain_set(capture: AudioCapture, gain: u32, differs: bool) -> (AudioCapture, bool) {
    if differs && gain != capture.mic_gain {
        (AudioCapture { mic_gain: gain, active: false, ..capture }, capture.active)
    } else {
        (capture, false)
    }
}

/// Setting a gain a second time changes nothing and starts nothing, whether or not
/// the capture could be started after the first time. Where the first gain did not
/// differ enough nothing has changed, so that the second does not differ either.
pub proof fn law_the_same_gain_changes_nothing(
    capture: AudioCapture,
    gain: u32,
    differs: bool,
    restarted: bool,
    differs_again: bool,
)
    requires
        !differs ==> !differs_again,
    ensures
        ({
            let first = gain_set(capture, gain, differs);
            let between = if first.1 && restarted {
                AudioCapture { active: true, ..first.0 }
            } else {
                first.0
            };
            gain_set(between, gain, differs_again) == (between, false)
        }),
{
}

/// Samples are as loud as their absolute values are large: of two numbers, infinite ones
/// included, the one with the larger bits behind the sign is the louder one. The sign
/// does not count, and what is no number is as silent as zero.
pub proof fn law_loudness_orders_samples(a: u32, b: u32)
    ensures
        a % 0x8000_0000 <= 0x7f80_0000 && b % 0x8000_0000 <= 0x7f80_0000 ==> (loudness(a)
            < loudness(b) <==> a % 0x8000_0000 < b % 0x8000_0000),
        a % 0x8000_0000 == b % 0x8000_0000 ==> loudness(a) == loudness(b),
        a % 0x8000_0000 > 0x7f80_0000 ==> loudness(a) == loudness(0),
        loudness(0) == 0,
{
}

/// A channel is its samples, one of each complete frame and in order.
pub proof fn law_channels_are_interleaved(data: Seq<u32>, channels: nat, channel: int, frame: int)
    requires
        0 <= channel < channels,
    ensures
        channel_of(data, channels, channel).len() == data.len() / channels,
        0 <= frame < data.len() / channels ==> {
            &&& 0 <= frame * channels + channel < data.len()
            &&& channel_of(data, channels, channel)[frame] == data[frame * channels + channel]
        },
{
    if 0 <= frame < data.len() / channels {
        lemma_sample_in_range(data.len(), channels, frame, channel);
    }
}

/// No sample of any channel is louder than the loudest one of the dominant channel.
pub proof fn law_nothing_is_louder(
    data: Seq<u32>,
    channels: nat,
    dominant: int,
    other: int,
    frame: int,
)
    requires
        is_dominant(data, channels, dominant),
        0 <= other < channels,
        0 <= frame < data.len() / channels,
    ensures
        exists|loudest: int|
            {
                &&& 0 <= loudest < data.len() / channels
                &&& loudness(data[frame * channels + other]) <= loudness(
                    #[trigger] data[loudest * channels + dominant],
                )
            },
{
    let mine = channel_of(data, channels, dominant);
    let theirs = channel_of(data, channels, other);
    law_peak_is_the_loudest(mine);
    law_peak_is_the_loudest(theirs);
    assert(loudness(theirs[frame]) <= peak_of(theirs));
    if peak_of(mine) > 0 {
        let loudest = choose|i: int|
            0 <= i < mine.len() && loudness(#[trigger] mine[i]) == peak_of(mine);
        assert(mine[loudest] == data[loudest * channels + dominant]);
    } else {
        assert(mine[frame] == data[frame * channels + dominant]);
    }
}

/// The dominant channel is the last one of its loudness: it has a sample that is louder
/// than every sample of every later channel.
pub proof fn law_later_channels_are_quieter(
    data: Seq<u32>,
    channels: nat,
    dominant: int,
    later: int,
)
    requires
        is_dominant(data, channels, dominant),
        dominant < later < channels,
    ensures
        exists|loudest: int|
            {
                &&& 0 <= loudest < data.len() / channels
                &&& forall|frame: int|
                    0 <= frame < data.len() / channels ==> loudness(
                        #[trigger] data[frame * channels + later],
                    ) < loudness(#[trigger] data[loudest * channels + dominant])
            },
{
    let mine = channel_of(data, channels, dominant);
    let theirs = channel_of(data, channels, later);
    law_peak_is_the_loudest(mine);
    law_peak_is_the_loudest(theirs);
    assert(peak_of(theirs) < peak_of(mine));
    let loudest = choose|i: int|
        0 <= i < mine.len() && loudness(#[trigger] mine[i]) == peak_of(mine);
    assert(mine[loudest] == data[loudest * channels + dominant]);
    assert forall|frame: int| 0 <= frame < data.len() / channels implies loudness(
        #[trigger] data[frame * channels + later],
    ) < loudness(data[loudest * channels + dominant]) by {
        assert(theirs[frame] == data[frame * channels + later]);
        assert(loudness(theirs[frame]) <= peak_of(theirs));
    }
}

/// The loudest channel is found, whatever the samples are.
pub proof fn law_the_loudest_channel_is_found(data: &Vec<u32>, channels: usize, channel: usize)
    requires
        channels > 0,
        call_ensures(dominant_channel, (data, channels), channel),
    ensures
        is_dominant(data@, channels as nat, channel as int),
        channel < channels,
{
}

/// One channel is taken out of interleaved samples whole.
pub proof fn law_a_channel_is_taken_whole(
    data: &Vec<u32>,
    channels: usize,
    channel: usize,
    samples: Vec<u32>,
)
    requires
        channel < channels,
        call_ensures(take_channel, (data, channels, channel), samples),
    ensures
        samples@.len() == data@.len() / channels as nat,
        forall|frame: int|
            0 <= frame < samples@.len() ==> #[trigger] samples@[frame] == data@[frame * channels
                + channel],
{
}

/// The system's audio is one of its channels, and no channel is louder than it.
pub proof fn law_the_system_is_heard_at_its_loudest(
    data: &Vec<u32>,
    channels: u16,
    samples: Vec<u32>,
)
    requires
        channels > 0,
        call_ensures(system_mono, (data, channels), samples),
    ensures
        samples@.len() == data@.len() / channels as nat,
        exists|channel: int| #[trigger]
            is_dominant(data@, channels as nat, channel) && forall|frame: int|
                0 <= frame < samples@.len() ==> #[trigger] samples@[frame] == data@[frame * channels
                    + channel],
{
    let channel = choose|channel: int|
        is_dominant(data@, channels as nat, channel) && samples@ == #[trigger] channel_of(
            data@,
            channels as nat,
            channel,
        );
    assert(is_dominant(data@, channels as nat, channel));
}

/// The microphone's audio comes as it is from one channel, as both samples of each frame
/// from two, and as the first sample of each frame from more.
pub proof fn law_the_microphone_is_heard(data: Vec<u32>, channels: u16, audio: MicAudio)
    requires
        channels > 0,
        call_ensures(mic_mono, (data, channels), audio),
    ensures
        channels == 1 ==> (audio matches MicAudio::Mono(samples) && samples@ == data@),
        channels == 2 ==> (audio matches MicAudio::Stereo(left, right) && {
            &&& left@.len() == data@.len() / 2
            &&& right@.len() == data@.len() / 2
            &&& forall|i: int| 0 <= i < left@.len() ==> #[trigger] left@[i] == data@[2 * i]
            &&& forall|i: int| 0 <= i < right@.len() ==> #[trigger] right@[i] == data@[2 * i + 1]
        }),
        channels > 2 ==> (audio matches MicAudio::Mono(samples) && {
            &&& samples@.len() == data@.len() / channels as nat
            &&& forall|i: int|
                0 <= i < samples@.len() ==> #[trigger] samples@[i] == data@[i * channels]
        }),
{
    match audio {
        MicAudio::Mono(samples) => {
            if channels > 2 {
                assert forall|i: int| 0 <= i < samples@.len() implies #[trigger] samples@[i]
                    == data@[i * channels] by {
                    law_channels_are_interleaved(data@, channels as nat, 0, i);
                }
            }
        },
        MicAudio::Stereo(left, right) => {
            assert forall|i: int| 0 <= i < left@.len() implies #[trigger] left@[i] == data@[2
                * i] by {
                law_channels_are_interleaved(data@, 2, 0, i);
                assert(i * 2 + 0 == 2 * i);
            }
            assert forall|i: int| 0 <= i < right@.len() implies #[trigger] right@[i] == data@[2 * i
                + 1] by {
                law_channels_are_interleaved(data@, 2, 1, i);
                assert(i * 2 + 1 == 2 * i + 1);
            }
        },
    }
}

/// A fault is told in words: in those of the audio system, where it is the audio
/// system's.
pub proof fn law_faults_are_told(fault: CaptureFault, text: String)
    requires
        call_ensures(CaptureFault::message, (fault,), text),
    ensures
        fault is NoInputDevice ==> text@ == "Failed to get default input device"@,
        fault is NoOutputDevice ==> text@ == "Failed to get default output device"@,
        fault matches CaptureFault::Backend(message) ==> text@ == message@,
{
}

/// A new capture does not run, prefers no device and has the gain one.
pub proof fn law_new_captures_rest(capture: AudioCapture)
    requires
        call_ensures(AudioCapture::new, (), capture),
    ensures
        !capture.active,
        capture.preferred_input is None,
        capture.preferred_output is None,
        capture.mic_gain == 0x3f80_0000,
{
}

/// A capture runs once both streams are open, and is otherwise left as it is and says
/// why. The system's audio comes on one channel. Devices and gain stay.
pub proof fn law_captures_start(
    capture: &mut AudioCapture,
    opened: Result<(StreamConfig, StreamConfig), CaptureFault>,
    started: Result<((u32, u16), (u32, u16)), String>,
)
    requires
        call_ensures(AudioCapture::start, (capture, opened), started),
    ensures
        started is Ok <==> opened is Ok,
        opened matches Ok((mic, sys)) ==> {
            &&& final(capture).active
            &&& started matches Ok((heard, played)) && {
                &&& heard == (mic.sample_rate, mic.channels)
                &&& played == (sys.sample_rate, 1u16)
            }
        },
        opened is Err ==> *final(capture) == *old(capture),
        opened matches Err(CaptureFault::Backend(message)) ==> started matches Err(said) && said@
            == message@,
        opened matches Err(CaptureFault::NoInputDevice) ==> started matches Err(said) && said@
            == "Failed to get default input device"@,
        opened matches Err(CaptureFault::NoOutputDevice) ==> started matches Err(said) && said@
            == "Failed to get default output device"@,
        final(capture).preferred_input == old(capture).preferred_input,
        final(capture).preferred_output == old(capture).preferred_output,
        final(capture).mic_gain == old(capture).mic_gain,
{
}

/// A capture that is stopped does not run, and is otherwise as it was.
pub proof fn law_captures_stop(capture: &mut AudioCapture)
    requires
        call_ensures(AudioCapture::stop, (capture,), ()),
    ensures
        !final(capture).active,
        final(capture).preferred_input == old(capture).preferred_input,
        final(capture).preferred_output == old(capture).preferred_output,
        final(capture).mic_gain == old(capture).mic_gain,
{
}

/// The devices that are asked for are those that are preferred, and the capture is to be
/// started with them.
pub proof fn law_devices_are_taken_over(
    capture: &mut AudioCapture,
    input: Option<String>,
    output: Option<String>,
)
    requires
        call_ensures(AudioCapture::set_devices, (capture, input, output), ()),
    ensures
        final(capture).preferred_input == input,
        final(capture).preferred_output == output,
        !final(capture).active,
        final(capture).mic_gain == old(capture).mic_gain,
{
}

/// A gain that differs enough and is not the present one is taken over, whatever it is.
/// A capture that runs is stopped for it and is to be started again; one that does not
/// run is not. Any other gain changes nothing.
pub proof fn law_gains_are_taken_over(
    capture: &mut AudioCapture,
    gain: u32,
    differs: bool,
    restart: bool,
)
    requires
        call_ensures(AudioCapture::set_gain, (capture, gain, differs), restart),
    ensures
        differs && gain != old(capture).mic_gain ==> {
            &&& final(capture).mic_gain == gain
            &&& restart == old(capture).active
            &&& !final(capture).active
        },
        !differs || gain == old(capture).mic_gain ==> {
            &&& *final(capture) == *old(capture)
            &&& !restart
        },
        final(capture).preferred_input == old(capture).preferred_input,
        final(capture).preferred_output == old(capture).preferred_output,
{
}

/// The same of the gain by itself.
pub proof fn law_a_gain_that_differs_is_set(capture: AudioCapture, gain: u32, differs: bool)
    ensures
        ({
            let (after, restart) = gain_set(capture, gain, differs);
            if differs && gain != capture.mic_gain {
                &&& after.mic_gain == gain
                &&& !after.active
                &&& restart == capture.active
            } else {
                &&& after.mic_gain == capture.mic_gain
                &&& after.active == capture.active
                &&& !restart
            }
        }),
        gain_set(capture, gain, differs).0.preferred_input == capture.preferred_input,
        gain_set(capture, gain, differs).0.preferred_output == capture.preferred_output,
{
}

/// Whether a capture runs is told as it is.
pub proof fn law_activity_is_told(capture: &AudioCapture, active: bool)
    requires
        call_ensures(AudioCapture::is_active, (capture,), active),
    ensures
        active == capture.active,
{
}

} // verus!
