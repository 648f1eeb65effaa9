//! The WAV encoder: serialise a finished mono sample sequence and its
//! sample rate into a self-contained RIFF/WAVE byte buffer holding
//! 16-bit signed little-endian integer PCM.
//!
//! The byte layout is pinned down by spec functions: a 44-byte header
//! (RIFF chunk, format chunk, data chunk descriptor) followed by two
//! bytes per sample. A decoding spec function inverts the data region,
//! which yields the round-trip law.

use vstd::prelude::*;

use crate::errors::AudioError;

verus! {

/// The two bytes of a 16-bit value, least significant first.
pub open spec fn le_bytes_16(x: u16) -> Seq<u8> {
    seq![(x & 0xff) as u8, ((x >> 8) & 0xff) as u8]
}

/// The four bytes of a 32-bit value, least significant first.
pub open spec fn le_bytes_32(x: u32) -> Seq<u8> {
    seq![
        (x & 0xff) as u8,
        ((x >> 8) & 0xff) as u8,
        ((x >> 16) & 0xff) as u8,
        ((x >> 24) & 0xff) as u8,
    ]
}

/// One PCM16 sample on the wire: its two's-complement bytes, little
/// endian.
pub open spec fn sample_bytes(x: i16) -> Seq<u8> {
    le_bytes_16(x as u16)
}

/// The data region: every sample in order, two bytes each.
pub open spec fn pcm16_bytes(samples: Seq<i16>) -> Seq<u8>
    decreases samples.len(),
{
    if samples.len() == 0 {
        Seq::<u8>::empty()
    } else {
        sample_bytes(samples[0]) + pcm16_bytes(samples.subrange(1, samples.len() as int))
    }
}

/// The sample a little-endian byte pair denotes.
pub open spec fn sample_of_bytes(lo: u8, hi: u8) -> i16 {
    (((hi as u16) << 8) | (lo as u16)) as i16
}

/// Read a data region back: consecutive byte pairs, little endian; a
/// trailing odd byte (which a well-formed region never has) is ignored.
pub open spec fn decode_pcm16(bytes: Seq<u8>) -> Seq<i16>
    decreases bytes.len(),
{
    if bytes.len() < 2 {
        Seq::<i16>::empty()
    } else {
        seq![sample_of_bytes(bytes[0], bytes[1])] + decode_pcm16(
            bytes.subrange(2, bytes.len() as int),
        )
    }
}

/// The 44-byte canonical header for mono 16-bit integer PCM holding `n`
/// samples: RIFF descriptor, format chunk (PCM, one channel, the given
/// rate, byte rate, block alignment two, sixteen bits), data chunk
/// descriptor sized to exactly the encoded data.
pub open spec fn wav_header_bytes(sample_rate: u32, n: nat) -> Seq<u8> {
    seq![0x52u8, 0x49u8, 0x46u8, 0x46u8] + le_bytes_32(((36 + 2 * n) as u32)) + seq![
        0x57u8,
        0x41u8,
        0x56u8,
        0x45u8,
    ] + seq![0x66u8, 0x6du8, 0x74u8, 0x20u8] + le_bytes_32(16) + le_bytes_16(1) + le_bytes_16(1)
        + le_bytes_32(sample_rate) + le_bytes_32(((2 * sample_rate) as u32)) + le_bytes_16(2)
        + le_bytes_16(16) + seq![0x64u8, 0x61u8, 0x74u8, 0x61u8] + le_bytes_32(((2 * n) as u32))
}

/// The whole artifact: header, then the data region.
pub open spec fn wav_bytes(samples: Seq<i16>, sample_rate: u32) -> Seq<u8> {
    wav_header_bytes(sample_rate, samples.len()) + pcm16_bytes(samples)
}

/// When encoding succeeds: a positive rate whose byte rate fits the
/// 32-bit header field, and few enough samples for the 32-bit RIFF size
/// field.
pub open spec fn encodable(samples: Seq<i16>, sample_rate: u32) -> bool {
    &&& sample_rate > 0
    &&& 2 * sample_rate <= u32::MAX
    &&& 36 + 2 * samples.len() <= u32::MAX
}

/// Append the little-endian bytes of a 16-bit value.
fn push_le_16(out: &mut Vec<u8>, x: u16)
    ensures
        final(out)@ == old(out)@ + le_bytes_16(x),
{
    let ghost pre = out@;
    out.push((x & 0xff) as u8);
    out.push(((x >> 8) & 0xff) as u8);
    proof {
        assert(out@ =~= pre + le_bytes_16(x));
    }
}

/// Append the little-endian bytes of a 32-bit value.
fn push_le_32(out: &mut Vec<u8>, x: u32)
    ensures
        final(out)@ == old(out)@ + le_bytes_32(x),
{
    let ghost pre = out@;
    out.push((x & 0xff) as u8);
    out.push(((x >> 8) & 0xff) as u8);
    out.push(((x >> 16) & 0xff) as u8);
    out.push(((x >> 24) & 0xff) as u8);
    proof {
        assert(out@ =~= pre + le_bytes_32(x));
    }
}

/// Appending one sample extends the data region by that sample's bytes.
pub proof fn lemma_pcm16_bytes_push(s: Seq<i16>, x: i16)
    ensures
        pcm16_bytes(s.push(x)) == pcm16_bytes(s) + sample_bytes(x),
    decreases s.len(),
{
    if s.len() == 0 {
        let p = s.push(x);
        assert(p.subrange(1, p.len() as int) =~= Seq::<i16>::empty());
        assert(pcm16_bytes(p.subrange(1, p.len() as int)) == Seq::<u8>::empty());
        assert(pcm16_bytes(s.push(x)) =~= pcm16_bytes(s) + sample_bytes(x));
    } else {
        let tail = s.subrange(1, s.len() as int);
        assert(s.push(x).subrange(1, s.push(x).len() as int) =~= tail.push(x));
        lemma_pcm16_bytes_push(tail, x);
        assert(pcm16_bytes(s.push(x)) =~= pcm16_bytes(s) + sample_bytes(x));
    }
}

/// The data region holds exactly two bytes per sample.
pub proof fn lemma_pcm16_bytes_len(s: Seq<i16>)
    ensures
        pcm16_bytes(s).len() == 2 * s.len(),
    decreases s.len(),
{
    if s.len() > 0 {
        lemma_pcm16_bytes_len(s.subrange(1, s.len() as int));
    }
}

/// A sample survives the trip through its two wire bytes.
pub proof fn lemma_sample_bytes_round_trip(x: i16)
    ensures
        sample_of_bytes(sample_bytes(x)[0], sample_bytes(x)[1]) == x,
{
    assert((((((x as u16 >> 8) & 0xff) as u8 as u16) << 8) | ((x as u16 & 0xff) as u8
        as u16)) as i16 == x) by (bit_vector);
}

/// Law: decoding the data region produced for a sample sequence yields
/// that sequence back — same count, same values, same order.
pub proof fn lemma_pcm16_round_trip(s: Seq<i16>)
    ensures
        decode_pcm16(pcm16_bytes(s)) == s,
    decreases s.len(),
{
    if s.len() > 0 {
        let tail = s.subrange(1, s.len() as int);
        let b = pcm16_bytes(s);
        lemma_pcm16_bytes_len(tail);
        lemma_sample_bytes_round_trip(s[0]);
        assert(b.subrange(2, b.len() as int) =~= pcm16_bytes(tail));
        lemma_pcm16_round_trip(tail);
        assert(decode_pcm16(b) =~= s);
    }
}

/// The fixed shape of the artifact: a 44-byte header, two bytes of data
/// per sample after it, and the data region sitting exactly at offset
/// 44.
pub proof fn lemma_wav_layout(samples: Seq<i16>, sample_rate: u32)
    ensures
        wav_header_bytes(sample_rate, samples.len()).len() == 44,
        wav_bytes(samples, sample_rate).len() == 44 + 2 * samples.len(),
        wav_bytes(samples, sample_rate).subrange(
            44,
            wav_bytes(samples, sample_rate).len() as int,
        ) == pcm16_bytes(samples),
{
    lemma_pcm16_bytes_len(samples);
    assert(wav_bytes(samples, sample_rate).subrange(
        44,
        wav_bytes(samples, sample_rate).len() as int,
    ) =~= pcm16_bytes(samples));
}

/// Law: round trip through the whole artifact — the bytes after the
/// 44-byte header of an encoded buffer decode back to exactly the
/// samples that were encoded.
pub proof fn lemma_wav_round_trip(samples: Seq<i16>, sample_rate: u32)
    ensures
        decode_pcm16(
            wav_bytes(samples, sample_rate).subrange(
                44,
                wav_bytes(samples, sample_rate).len() as int,
            ),
        ) == samples,
{
    lemma_wav_layout(samples, sample_rate);
    lemma_pcm16_round_trip(samples);
}

/// Serialise quantised mono samples into a complete WAV byte buffer at
/// the given rate. Succeeds with exactly the canonical bytes whenever
/// the rate is positive and the size fields fit their 32-bit slots
/// (an empty input yields a valid file of 44 header bytes); fails with
/// `EncodingError` otherwise, in particular for a rate of zero.
pub fn samples_to_wav(samples: &Vec<i16>, sample_rate: u32) -> (r: Result<Vec<u8>, AudioError>)
    ensures
        encodable(samples@, sample_rate) ==> (r matches Ok(b) && b@ == wav_bytes(
            samples@,
            sample_rate,
        )),
        !encodable(samples@, sample_rate) ==> r == Err::<Vec<u8>, AudioError>(
            AudioError::EncodingError,
        ),
{
    if sample_rate == 0 || sample_rate > u32::MAX / 2 {
        return Err(AudioError::EncodingError);
    }
    let n: usize = samples.len();
    if n > ((u32::MAX - 36) / 2) as usize {
        return Err(AudioError::EncodingError);
    }
    let data_len: u32 = (n as u32) * 2;
    let riff_len: u32 = 36 + data_len;
    let byte_rate: u32 = sample_rate * 2;
    let mut out: Vec<u8> = Vec::new();
    out.push(0x52);
    out.push(0x49);
    out.push(0x46);
    out.push(0x46);
    push_le_32(&mut out, riff_len);
    out.push(0x57);
    out.push(0x41);
    out.push(0x56);
    out.push(0x45);
    out.push(0x66);
    out.push(0x6d);
    out.push(0x74);
    out.push(0x20);
    push_le_32(&mut out, 16);
    push_le_16(&mut out, 1);
    push_le_16(&mut out, 1);
    push_le_32(&mut out, sample_rate);
    push_le_32(&mut out, byte_rate);
    push_le_16(&mut out, 2);
    push_le_16(&mut out, 16);
    out.push(0x64);
    out.push(0x61);
    out.push(0x74);
    out.push(0x61);
    push_le_32(&mut out, data_len);
    proof {
        assert(out@ =~= wav_header_bytes(sample_rate, samples@.len()));
    }
    let ghost header = out@;
    let mut i: usize = 0;
    while i < n
        invariant
            i <= n == samples@.len(),
            out@ == header + pcm16_bytes(samples@.subrange(0, i as int)),
        decreases n - i,
    {
        let x: u16 = samples[i] as u16;
        out.push((x & 0xff) as u8);
        out.push(((x >> 8) & 0xff) as u8);
        proof {
            lemma_pcm16_bytes_push(samples@.subrange(0, i as int), samples@[i as int]);
            assert(samples@.subrange(0, i as int).push(samples@[i as int]) =~= samples@.subrange(
                0,
                i as int + 1,
            ));
            assert(out@ =~= header + pcm16_bytes(samples@.subrange(0, i as int + 1)));
        }
        i += 1;
    }
    proof {
        assert(samples@.subrange(0, samples@.len() as int) =~= samples@);
    }
    Ok(out)
}

} // verus!
