//! Sample rates and sizes shared by acquisition and the per-listener pipelines.

use vstd::prelude::*;

verus! {

/// Raw I/Q rate of the tuner, in samples per second.
pub const WIDE_SAMPLE_RATE: u32 = 2_400_000;
/// Decimation of the digital down-converter (2.4 MHz → 240 kHz).
pub const DDC_DECIMATE: usize = 10;
/// Rate after the down-converter: `WIDE_SAMPLE_RATE / DDC_DECIMATE`.
pub const NARROW_RATE: u32 = 240_000;
/// Decimation of the demodulated audio (240 kHz → 48 kHz).
pub const AUDIO_DECIMATE: usize = 5;
/// Audio rate of the PCM stream: `NARROW_RATE / AUDIO_DECIMATE`.
pub const AUDIO_RATE: u32 = 48_000;
/// Capacity of the pipe between a listener's demodulator and its encoder.
pub const PIPE_CAPACITY: usize = 524_288;
/// Tuner gain at startup, in tenths of a dB (15.0 dB).
pub const DEFAULT_GAIN_TENTHS_DB: u32 = 150;
/// Bytes of one I/Q chunk: 100 ms of interleaved 8-bit I and Q.
pub const CHUNK_BYTES: usize = 480_000;
/// Chunks staged between the tuner reader and the fan-out (2 s).
pub const RING_CAPACITY: usize = 20;
/// Largest distance from the centre frequency that a listener may be tuned to
/// without retuning the hardware: half the band less a 150 kHz guard.
pub const MAX_TUNE_OFFSET_HZ: u32 = 1_050_000;

/// The derived rates and sizes agree with the quantities they are derived from.
pub proof fn law_rates_consistent()
    ensures
        NARROW_RATE as int == WIDE_SAMPLE_RATE as int / DDC_DECIMATE as int,
        AUDIO_RATE as int == NARROW_RATE as int / AUDIO_DECIMATE as int,
        PIPE_CAPACITY == 512 * 1024,
        CHUNK_BYTES as int == WIDE_SAMPLE_RATE as int / 10 * 2,
        MAX_TUNE_OFFSET_HZ == WIDE_SAMPLE_RATE / 2 - 150_000,
{
}

} // verus!
