//! Serialization of decoded PCM audio into the little-endian byte stream
//! that the external transcoder consumes on its input pipe.

use vstd::prelude::*;

verus! {

/// The two's-complement value of a 16-bit sample, as an integer in
/// `[0, 65536)`.
pub open spec fn sample_val(n: i16) -> int {
    if n >= 0 {
        n as int
    } else {
        n as int + 0x10000
    }
}

/// Low byte of a sample in little-endian order.
pub open spec fn sample_lo(n: i16) -> u8 {
    (sample_val(n) % 256) as u8
}

/// High byte of a sample in little-endian order.
pub open spec fn sample_hi(n: i16) -> u8 {
    (sample_val(n) / 256) as u8
}

/// The little-endian byte stream for a sequence of 16-bit samples:
/// two bytes per sample, low byte first, samples in order.
pub open spec fn le_bytes_of(s: Seq<i16>) -> Seq<u8>
    decreases s.len(),
{
    if s.len() == 0 {
        Seq::empty()
    } else {
        le_bytes_of(s.drop_last()) + seq![sample_lo(s.last()), sample_hi(s.last())]
    }
}

/// Encodes one sample as its two little-endian bytes.
fn encode_sample(n: i16) -> (r: (u8, u8))
    ensures
        r.0 == sample_lo(n),
        r.1 == sample_hi(n),
{
    let m: u32 = if n >= 0 {
        n as u32
    } else {
        (n as i32 + 0x10000) as u32
    };
    assert(m == sample_val(n));
    ((m % 256) as u8, (m / 256) as u8)
}

/// Serializes a batch of decoded samples to the little-endian byte stream,
/// in sample order.
pub fn encode_samples_le(samples: &Vec<i16>) -> (out: Vec<u8>)
    ensures
        out@ == le_bytes_of(samples@),
        out@.len() == 2 * samples@.len(),
{
    let mut out: Vec<u8> = Vec::new();
    let mut i: usize = 0;
    while i < samples.len()
        invariant
            i <= samples.len(),
            out@ == le_bytes_of(samples@.take(i as int)),
            out@.len() == 2 * i,
        decreases samples.len() - i,
    {
        let (lo, hi) = encode_sample(samples[i]);
        out.push(lo);
        out.push(hi);
        proof {
            let t = samples@.take(i + 1 as int);
            assert(t.drop_last() =~= samples@.take(i as int));
            assert(t.last() == samples@[i as int]);
        }
        i = i + 1;
    }
    proof {
        assert(samples@.take(samples@.len() as int) =~= samples@);
    }
    out
}

} // verus!
