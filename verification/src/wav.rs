//! Streaming WAV framing: the RIFF/WAVE header placed in front of the
//! 16-bit PCM stream, and little-endian packing of the samples.

use vstd::prelude::*;

verus! {

/// The four bytes of `x` in little-endian order.
pub open spec fn le32(x: u32) -> Seq<u8> {
    seq![
        (x % 256) as u8,
        ((x / 256) % 256) as u8,
        ((x / 65536) % 256) as u8,
        (x / 16777216) as u8,
    ]
}

/// The two bytes of `x` in little-endian order.
pub open spec fn le16(x: u16) -> Seq<u8> {
    seq![(x % 256) as u8, (x / 256) as u8]
}

/// The value of four little-endian bytes.
pub open spec fn from_le32(b: Seq<u8>) -> int {
    b[0] + b[1] * 256 + b[2] * 65536 + b[3] * 16777216
}

/// The value of two little-endian bytes.
pub open spec fn from_le16(b: Seq<u8>) -> int {
    b[0] + b[1] * 256
}

/// ASCII "RIFF".
pub open spec fn tag_riff() -> Seq<u8> {
    seq![0x52u8, 0x49u8, 0x46u8, 0x46u8]
}

/// ASCII "WAVE".
pub open spec fn tag_wave() -> Seq<u8> {
    seq![0x57u8, 0x41u8, 0x56u8, 0x45u8]
}

/// ASCII "fmt " (with its trailing space).
pub open spec fn tag_fmt() -> Seq<u8> {
    seq![0x66u8, 0x6du8, 0x74u8, 0x20u8]
}

/// ASCII "data".
pub open spec fn tag_data() -> Seq<u8> {
    seq![0x64u8, 0x61u8, 0x74u8, 0x61u8]
}

/// Bytes per second of 16-bit PCM with `channels` channels.
pub open spec fn byte_rate(sample_rate: u32, channels: u16) -> int {
    sample_rate * channels * 2
}

/// The 44-byte header of a WAV stream of unknown length: both the RIFF chunk
/// size and the data chunk size read 0xFFFF_FFFF, the format is PCM (1),
/// 16 bits per sample.
pub open spec fn wav_header(sample_rate: u32, channels: u16) -> Seq<u8> {
    tag_riff() + le32(0xFFFF_FFFFu32) + tag_wave()
        + tag_fmt() + le32(16u32) + le16(1u16) + le16(channels)
        + le32(sample_rate) + le32(byte_rate(sample_rate, channels) as u32)
        + le16((channels * 2) as u16) + le16(16u16)
        + tag_data() + le32(0xFFFF_FFFFu32)
}

fn push_le32(out: &mut Vec<u8>, x: u32)
    ensures
        final(out)@ == old(out)@ + le32(x),
{
    out.push((x % 256) as u8);
    out.push(((x / 256) % 256) as u8);
    out.push(((x / 65536) % 256) as u8);
    out.push((x / 16777216) as u8);
}

fn push_le16(out: &mut Vec<u8>, x: u16)
    ensures
        final(out)@ == old(out)@ + le16(x),
{
    out.push((x % 256) as u8);
    out.push((x / 256) as u8);
}

fn push_tag(out: &mut Vec<u8>, a: u8, b: u8, c: u8, d: u8)
    ensures
        final(out)@ == old(out)@ + seq![a, b, c, d],
{
    out.push(a);
    out.push(b);
    out.push(c);
    out.push(d);
}

/// Write a WAV header suitable for streaming (data chunk size = 0xFFFF_FFFF).
///
/// The byte rate `sample_rate * channels * 2` and the block alignment
/// `channels * 2` must fit their header fields.
pub fn streaming_wav_header(sample_rate: u32, channels: u16) -> (h: Vec<u8>)
    requires
        byte_rate(sample_rate, channels) <= u32::MAX,
        channels * 2 <= u16::MAX,
    ensures
        h@ == wav_header(sample_rate, channels),
        h@.len() == 44,
{
    assert(sample_rate * channels * 2 <= u32::MAX);
    let byte_rate: u32 = sample_rate * (channels as u32) * 2;
    let block_align: u16 = channels * 2;
    let mut h: Vec<u8> = Vec::with_capacity(44);

    push_tag(&mut h, 0x52, 0x49, 0x46, 0x46);
    push_le32(&mut h, 0xFFFF_FFFF);
    push_tag(&mut h, 0x57, 0x41, 0x56, 0x45);

    push_tag(&mut h, 0x66, 0x6d, 0x74, 0x20);
    push_le32(&mut h, 16);
    push_le16(&mut h, 1);
    push_le16(&mut h, channels);
    push_le32(&mut h, sample_rate);
    push_le32(&mut h, byte_rate);
    push_le16(&mut h, block_align);
    push_le16(&mut h, 16);

    push_tag(&mut h, 0x64, 0x61, 0x74, 0x61);
    push_le32(&mut h, 0xFFFF_FFFF);

    assert(h@ =~= wav_header(sample_rate, channels));
    h
}

/// 16-bit samples as little-endian bytes, two per sample, in order.
pub open spec fn pcm_bytes(samples: Seq<i16>) -> Seq<u8>
    decreases samples.len(),
{
    if samples.len() == 0 {
        Seq::empty()
    } else {
        pcm_bytes(samples.drop_last()) + le16(samples.last() as u16)
    }
}

/// Packs 16-bit PCM samples into interleaved little-endian bytes.
pub fn pcm_to_le_bytes(samples: &[i16]) -> (out: Vec<u8>)
    requires
        samples@.len() * 2 <= usize::MAX,
    ensures
        out@ == pcm_bytes(samples@),
        out@.len() == samples@.len() * 2,
{
    let n = samples.len();
    let mut out: Vec<u8> = Vec::with_capacity(n * 2);
    let mut i: usize = 0;
    while i < n
        invariant
            n == samples@.len(),
            i <= n,
            out@ == pcm_bytes(samples@.take(i as int)),
            out@.len() == i * 2,
        decreases n - i,
    {
        let u: u16 = samples[i] as u16;
        out.push((u % 256) as u8);
        out.push((u / 256) as u8);
        assert(samples@.take(i + 1).drop_last() =~= samples@.take(i as int));
        i = i + 1;
    }
    assert(samples@.take(n as int) =~= samples@);
    out
}

/// Little-endian encoding loses nothing: the bytes read back as the value.
pub proof fn law_le_roundtrip(x: u32, y: u16)
    ensures
        from_le32(le32(x)) == x,
        from_le16(le16(y)) == y,
{
    assert(x == x % 256 + ((x / 256) % 256) * 256 + ((x / 65536) % 256) * 65536 + (x / 16777216)
        * 16777216) by (bit_vector);
    assert(y == y % 256 + (y / 256) * 256) by (bit_vector);
}

/// A player reading the streaming header finds the format it describes: PCM,
/// the given channel count and sample rate, 16 bits per sample, the byte
/// rate and block alignment that follow from them, and the streaming
/// (unknown) chunk sizes.
pub proof fn law_wav_header_fields(sample_rate: u32, channels: u16)
    requires
        byte_rate(sample_rate, channels) <= u32::MAX,
        channels * 2 <= u16::MAX,
    ensures
        ({
            let h = wav_header(sample_rate, channels);
            &&& h.len() == 44
            &&& h.subrange(0, 4) == tag_riff()
            &&& from_le32(h.subrange(4, 8)) == 0xFFFF_FFFF
            &&& h.subrange(8, 12) == tag_wave()
            &&& h.subrange(12, 16) == tag_fmt()
            &&& from_le32(h.subrange(16, 20)) == 16
            &&& from_le16(h.subrange(20, 22)) == 1
            &&& from_le16(h.subrange(22, 24)) == channels
            &&& from_le32(h.subrange(24, 28)) == sample_rate
            &&& from_le32(h.subrange(28, 32)) == byte_rate(sample_rate, channels)
            &&& from_le16(h.subrange(32, 34)) == channels * 2
            &&& from_le16(h.subrange(34, 36)) == 16
            &&& h.subrange(36, 40) == tag_data()
            &&& from_le32(h.subrange(40, 44)) == 0xFFFF_FFFF
        }),
{
    let h = wav_header(sample_rate, channels);
    let br = byte_rate(sample_rate, channels) as u32;
    let ba = (channels * 2) as u16;
    law_le_roundtrip(0xFFFF_FFFFu32, 1u16);
    law_le_roundtrip(16u32, channels);
    law_le_roundtrip(sample_rate, ba);
    law_le_roundtrip(br, 16u16);
    assert(h.subrange(4, 8) =~= le32(0xFFFF_FFFFu32));
    assert(h.subrange(16, 20) =~= le32(16u32));
    assert(h.subrange(20, 22) =~= le16(1u16));
    assert(h.subrange(22, 24) =~= le16(channels));
    assert(h.subrange(24, 28) =~= le32(sample_rate));
    assert(h.subrange(28, 32) =~= le32(br));
    assert(h.subrange(32, 34) =~= le16(ba));
    assert(h.subrange(34, 36) =~= le16(16u16));
    assert(h.subrange(40, 44) =~= le32(0xFFFF_FFFFu32));
    assert(h.subrange(0, 4) =~= tag_riff());
    assert(h.subrange(8, 12) =~= tag_wave());
    assert(h.subrange(12, 16) =~= tag_fmt());
    assert(h.subrange(36, 40) =~= tag_data());
}

} // verus!
