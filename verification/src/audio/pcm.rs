//! Two-channel 16-bit little-endian PCM.
use vstd::prelude::*;

verus! {

/// The unsigned number with the same 16 bits.
pub open spec fn bits16(sample: i16) -> int {
    if sample >= 0 {
        sample as int
    } else {
        sample + 0x1_0000
    }
}

/// A sample as two bytes, the low one first.
pub open spec fn sample_bytes(sample: i16) -> Seq<u8> {
    seq![(bits16(sample) % 256) as u8, (bits16(sample) / 256) as u8]
}

/// A frame as four bytes: the microphone's sample, then the system's.
pub open spec fn frame_bytes(frame: (i16, i16)) -> Seq<u8> {
    sample_bytes(frame.0) + sample_bytes(frame.1)
}

/// The frames as bytes, one after the other.
pub open spec fn pcm_bytes(frames: Seq<(i16, i16)>) -> Seq<u8>
    decreases frames.len(),
{
    if frames.len() == 0 {
        seq![]
    } else {
        pcm_bytes(frames.drop_last()) + frame_bytes(frames.last())
    }
}

/// The sample whose two bytes these are.
pub open spec fn sample_of(low: u8, high: u8) -> int {
    let bits = low + 256 * high;
    if bits < 0x8000 {
        bits
    } else {
        bits - 0x1_0000
    }
}

fn push_sample(bytes: &mut Vec<u8>, sample: i16)
    ensures
        final(bytes)@ == old(bytes)@ + sample_bytes(sample),
{
    let bits: u16 = sample as u16;
    let low: u8 = (bits & 0xff) as u8;
    let high: u8 = (bits >> 8) as u8;
    proof {
        assert(sample >= 0 ==> sample as u16 == sample) by (bit_vector);
        assert(sample < 0 ==> sample as u16 == sample + 0x1_0000) by (bit_vector);
        assert(bits & 0xff == bits % 256) by (bit_vector);
        assert(bits >> 8 == bits / 256) by (bit_vector);
    }
    bytes.push(low);
    bytes.push(high);
    assert(bytes@ =~= old(bytes)@ + sample_bytes(sample));
}

/// Encodes frames of a microphone and a system sample each.
pub fn encode_pcm(frames: &Vec<(i16, i16)>) -> (bytes: Vec<u8>)
    ensures
        bytes@ == pcm_bytes(frames@),
{
    let mut bytes: Vec<u8> = Vec::new();
    let mut i: usize = 0;
    while i < frames.len()
        invariant
            i <= frames.len(),
            bytes@ == pcm_bytes(frames@.take(i as int)),
        decreases frames.len() - i,
    {
        push_sample(&mut bytes, frames[i].0);
        push_sample(&mut bytes, frames[i].1);
        assert(frames@.take(i + 1).drop_last() =~= frames@.take(i as int));
        assert(bytes@ =~= pcm_bytes(frames@.take(i + 1)));
        i += 1;
    }
    assert(frames@.take(i as int) =~= frames@);
    bytes
}

/// A frame takes four bytes, and each of them holds what it should: the samples
/// can be read back from the bytes.
pub proof fn law_pcm_reads_back(frames: Seq<(i16, i16)>, i: int)
    requires
        0 <= i < frames.len(),
    ensures
        pcm_bytes(frames).len() == 4 * frames.len(),
        sample_of(pcm_bytes(frames)[4 * i], pcm_bytes(frames)[4 * i + 1]) == frames[i].0,
        sample_of(pcm_bytes(frames)[4 * i + 2], pcm_bytes(frames)[4 * i + 3]) == frames[i].1,
    decreases frames.len(),
{
    let head = pcm_bytes(frames.drop_last());
    lemma_pcm_len(frames.drop_last());
    lemma_pcm_len(frames);
    if i < frames.len() - 1 {
        law_pcm_reads_back(frames.drop_last(), i);
    } else {
        assert(pcm_bytes(frames)[4 * i] == frame_bytes(frames.last())[0]);
        assert(pcm_bytes(frames)[4 * i + 1] == frame_bytes(frames.last())[1]);
        assert(pcm_bytes(frames)[4 * i + 2] == frame_bytes(frames.last())[2]);
        assert(pcm_bytes(frames)[4 * i + 3] == frame_bytes(frames.last())[3]);
    }
}

proof fn lemma_pcm_len(frames: Seq<(i16, i16)>)
    ensures
        pcm_bytes(frames).len() == 4 * frames.len(),
    decreases frames.len(),
{
    if frames.len() > 0 {
        lemma_pcm_len(frames.drop_last());
    }
}

/// Encoding takes four bytes for each frame and keeps both samples of every frame: the
/// microphone's stands first, and the low byte of each sample before its high byte.
pub proof fn law_encoded_frames_read_back(frames: &Vec<(i16, i16)>, bytes: Vec<u8>, i: int)
    requires
        call_ensures(encode_pcm, (frames,), bytes),
    ensures
        bytes@.len() == 4 * frames@.len(),
        0 <= i < frames@.len() ==> {
            let mic = bytes@[4 * i] + 256 * bytes@[4 * i + 1];
            let sys = bytes@[4 * i + 2] + 256 * bytes@[4 * i + 3];
            &&& mic == frames@[i].0 || mic == frames@[i].0 + 0x1_0000
            &&& sys == frames@[i].1 || sys == frames@[i].1 + 0x1_0000
        },
{
    lemma_pcm_len(frames@);
    if 0 <= i < frames@.len() {
        law_pcm_reads_back(frames@, i);
    }
}

} // verus!
