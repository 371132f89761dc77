//! Forwarding of the encoder's Ogg/Opus packets to the hub: the two Opus
//! header packets are not audio and are skipped, audio packets are numbered
//! from zero, and forwarding stops as soon as the hub refuses a frame.

use vstd::prelude::*;

verus! {

/// ASCII "OpusHead", the identification header packet.
pub open spec fn opus_head() -> Seq<u8> {
    seq![0x4fu8, 0x70u8, 0x75u8, 0x73u8, 0x48u8, 0x65u8, 0x61u8, 0x64u8]
}

/// ASCII "OpusTags", the comment header packet.
pub open spec fn opus_tags() -> Seq<u8> {
    seq![0x4fu8, 0x70u8, 0x75u8, 0x73u8, 0x54u8, 0x61u8, 0x67u8, 0x73u8]
}

/// `data` begins with `prefix`.
pub open spec fn starts_with(data: Seq<u8>, prefix: Seq<u8>) -> bool {
    data.len() >= prefix.len() && data.take(prefix.len() as int) == prefix
}

/// A packet that carries an Opus header rather than audio.
pub open spec fn is_header_packet(data: Seq<u8>) -> bool {
    starts_with(data, opus_head()) || starts_with(data, opus_tags())
}

/// Number of audio frames between two progress reports.
pub const HEARTBEAT_FRAMES: u64 = 250;

/// Whether a packet begins with `OpusHead` or `OpusTags`.
pub fn is_opus_header(data: &[u8]) -> (r: bool)
    ensures
        r == is_header_packet(data@),
{
    if data.len() < 8 {
        return false;
    }
    let same_start = data[0] == 0x4f && data[1] == 0x70 && data[2] == 0x75 && data[3] == 0x73;
    let head = data[4] == 0x48 && data[5] == 0x65 && data[6] == 0x61 && data[7] == 0x64;
    let tags = data[4] == 0x54 && data[5] == 0x61 && data[6] == 0x67 && data[7] == 0x73;
    let r = same_start && (head || tags);
    proof {
        let t = data@.take(8);
        assert(t[0] == data@[0] && t[1] == data@[1] && t[2] == data@[2] && t[3] == data@[3]);
        assert(t[4] == data@[4] && t[5] == data@[5] && t[6] == data@[6] && t[7] == data@[7]);
        if r {
            if head {
                assert(t =~= opus_head());
            } else {
                assert(t =~= opus_tags());
            }
        }
    }
    r
}

/// Why forwarding ended.
#[derive(Debug, Clone, Copy, PartialEq, Eq, Structural)]
pub enum ExitReason {
    /// The hub refused a frame.
    HubDisconnected,
    /// The encoder's Ogg stream could not be read.
    OggReadError,
    /// The encoder closed its output.
    FfmpegEof,
}

impl ExitReason {
    /// The reason as it is logged.
    pub fn as_str(&self) -> (r: &'static str)
        ensures
            r@ == match *self {
                ExitReason::HubDisconnected => "hub_disconnected"@,
                ExitReason::OggReadError => "ogg_read_error"@,
                ExitReason::FfmpegEof => "ffmpeg_eof"@,
            },
    {
        match self {
            ExitReason::HubDisconnected => "hub_disconnected",
            ExitReason::OggReadError => "ogg_read_error",
            ExitReason::FfmpegEof => "ffmpeg_eof",
        }
    }
}

/// What to do with a packet.
#[derive(Debug, Clone, Copy, PartialEq, Eq, Structural)]
pub enum PacketAction {
    /// An Opus header: drop it.
    Skip,
    /// Audio: send it to the hub as frame `frame_index`; `first` marks the
    /// first audio packet of the stream.
    Forward { frame_index: u64, first: bool },
}

/// What follows the hub's answer to a frame.
#[derive(Debug, Clone, Copy, PartialEq, Eq, Structural)]
pub enum DeliveryOutcome {
    /// Stop forwarding.
    Stop(ExitReason),
    /// Go on; `heartbeat` asks for a progress report.
    Continue { heartbeat: bool },
}

/// Numbering state of the packets forwarded to one listener.
pub struct OpusForwarder {
    frame_index: u64,
    first_packet: bool,
}

impl OpusForwarder {
    /// Frames forwarded so far, which is also the index of the next one.
    pub closed spec fn frames(self) -> u64 {
        self.frame_index
    }

    /// No audio packet forwarded yet.
    pub closed spec fn awaiting_first(self) -> bool {
        self.first_packet
    }

    /// The state before the first packet.
    pub fn new() -> (r: Self)
        ensures
            r.frames() == 0,
            r.awaiting_first(),
    {
        OpusForwarder { frame_index: 0, first_packet: true }
    }

    /// Frames forwarded so far.
    pub fn frame_index(&self) -> (r: u64)
        ensures
            r == self.frames(),
    {
        self.frame_index
    }

    /// Decides on one packet read from the encoder.
    pub fn on_packet(&mut self, data: &[u8]) -> (r: PacketAction)
        ensures
            final(self).frames() == old(self).frames(),
            is_header_packet(data@) ==> r == PacketAction::Skip && final(self).awaiting_first()
                == old(self).awaiting_first(),
            !is_header_packet(data@) ==> r == (PacketAction::Forward {
                frame_index: old(self).frames(),
                first: old(self).awaiting_first(),
            }) && !final(self).awaiting_first(),
    {
        if is_opus_header(data) {
            PacketAction::Skip
        } else {
            let first = self.first_packet;
            self.first_packet = false;
            PacketAction::Forward { frame_index: self.frame_index, first }
        }
    }

    /// Takes the hub's answer to the frame just sent: a refusal ends the
    /// stream, a delivery counts the frame.
    pub fn on_delivery(&mut self, delivered: bool) -> (r: DeliveryOutcome)
        requires
            old(self).frames() < u64::MAX,
        ensures
            final(self).awaiting_first() == old(self).awaiting_first(),
            !delivered ==> r == DeliveryOutcome::Stop(ExitReason::HubDisconnected)
                && final(self).frames() == old(self).frames(),
            delivered ==> final(self).frames() == old(self).frames() + 1 && r
                == (DeliveryOutcome::Continue {
                heartbeat: final(self).frames() % HEARTBEAT_FRAMES == 0,
            }),
    {
        if !delivered {
            return DeliveryOutcome::Stop(ExitReason::HubDisconnected);
        }
        self.frame_index = self.frame_index + 1;
        DeliveryOutcome::Continue { heartbeat: self.frame_index % HEARTBEAT_FRAMES == 0 }
    }
}

} // verus!
