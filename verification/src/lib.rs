//! Verified core of a live SDR audio tap: an rtl_tcp tuner feeds 2.4 MHz I/Q
//! chunks to a staging ring; each listener asks for `MODE:FREQ_MHZ`, gets a
//! down-converted, demodulated 48 kHz PCM stream framed as streaming WAV, and
//! its Opus packets are forwarded to the hub.
//!
//! This crate holds the integer and protocol logic of that pipeline: source
//! parsing and the retune decision, the rtl_tcp greeting and command codec,
//! the staging ring, boxcar decimation bookkeeping, WAV/PCM framing, packet
//! forwarding, control-request validation and module configuration.

pub mod backend;
pub mod boxcar;
pub mod config;
pub mod control;
pub mod encoder;
pub mod rates;
pub mod ring;
pub mod rtltcp;
pub mod session;
pub mod source;
pub mod text;
pub mod tuner;
pub mod wav;
