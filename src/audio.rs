//! Integer side of tone playback through the NS4168 amplifier: sample
//! counts, the wave table, and little-endian 16-bit PCM framing.

use vstd::prelude::*;

verus! {

/// Output sample rate of the I2S channel.
pub const SAMPLE_RATE: u32 = 44100;

/// Number of entries of the tone wave table.
pub const WAVE_LEN: usize = 16;

/// Gain applied to a centred wave-table entry.
pub const WAVE_GAIN: i32 = 200;

/// The wave table: one period of a sine, unsigned, centred on 128.
pub open spec fn tone_wave() -> Seq<u8> {
    seq![177u8, 219, 246, 255, 246, 219, 177, 128, 79, 37, 10, 1, 10, 37, 79, 128]
}

/// The bit pattern of `s` read as an unsigned 16-bit value.
pub open spec fn unsigned_of(s: i16) -> int {
    if s < 0 {
        s + 65536
    } else {
        s as int
    }
}

/// The two little-endian bytes of the sample `s`.
pub open spec fn sample_le(s: i16) -> Seq<u8> {
    seq![(unsigned_of(s) % 256) as u8, (unsigned_of(s) / 256) as u8]
}

/// The little-endian bytes of the samples `s`, in order.
pub open spec fn pcm_le(s: Seq<i16>) -> Seq<u8>
    decreases s.len(),
{
    if s.len() == 0 {
        Seq::empty()
    } else {
        pcm_le(s.drop_last()) + sample_le(s.last())
    }
}

/// Number of samples that fill `duration_ms` milliseconds at `SAMPLE_RATE`.
pub fn sample_count(duration_ms: u32) -> (r: u64)
    ensures
        r == SAMPLE_RATE * duration_ms / 1000,
{
    let d = duration_ms as u64;
    assert(44100 * d <= 44100 * 0xffff_ffff) by (nonlinear_arith)
        requires
            d <= 0xffff_ffff,
    ;
    (SAMPLE_RATE as u64) * d / 1000
}

/// The signed sample for wave-table position `index`, taken modulo the
/// table's length: the entry, centred on zero and scaled by `WAVE_GAIN`.
pub fn wave_sample(index: usize) -> (r: i16)
    ensures
        r == (tone_wave()[(index % WAVE_LEN) as int] - 128) * WAVE_GAIN,
{
    let wave: [u8; 16] = [177, 219, 246, 255, 246, 219, 177, 128, 79, 37, 10, 1, 10, 37, 79, 128];
    assert(wave@ =~= tone_wave());
    let v = wave[index % WAVE_LEN];
    ((v as i32 - 128) * WAVE_GAIN) as i16
}

fn sample_bytes(s: i16) -> (r: (u8, u8))
    ensures
        seq![r.0, r.1] == sample_le(s),
{
    let u: u16 = if s < 0 {
        (s as i32 + 65536) as u16
    } else {
        s as u16
    };
    ((u % 256) as u8, (u / 256) as u8)
}

/// Appends the sample `s` to `buf` as a stereo frame: the same little-endian
/// sample for the left and the right channel.
pub fn push_stereo_frame(buf: &mut Vec<u8>, s: i16)
    ensures
        final(buf)@ == old(buf)@ + sample_le(s) + sample_le(s),
{
    let (lo, hi) = sample_bytes(s);
    buf.push(lo);
    buf.push(hi);
    buf.push(lo);
    buf.push(hi);
    assert(final(buf)@ =~= old(buf)@ + sample_le(s) + sample_le(s));
}

/// The little-endian bytes of `samples`, two per sample, in order.
pub fn pcm_bytes(samples: &[i16]) -> (r: Vec<u8>)
    ensures
        r@ == pcm_le(samples@),
        r@.len() == 2 * samples@.len(),
{
    let mut r: Vec<u8> = Vec::new();
    let mut i: usize = 0;
    while i < samples.len()
        invariant
            i <= samples@.len(),
            r@ == pcm_le(samples@.subrange(0, i as int)),
            r@.len() == 2 * i,
        decreases samples@.len() - i,
    {
        let (lo, hi) = sample_bytes(samples[i]);
        r.push(lo);
        r.push(hi);
        proof {
            let s = samples@.subrange(0, i + 1);
            assert(s.drop_last() =~= samples@.subrange(0, i as int));
            assert(r@ =~= pcm_le(s));
        }
        i = i + 1;
    }
    assert(samples@.subrange(0, samples@.len() as int) =~= samples@);
    r
}

} // verus!
