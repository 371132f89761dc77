//! The rtl_tcp wire protocol: the 12-byte greeting a server sends on connect,
//! and the 5-byte commands a client sends (one opcode byte, one big-endian
//! 32-bit parameter).

use vstd::prelude::*;

verus! {

/// The four bytes of `x` in big-endian (network) order.
pub open spec fn be32(x: u32) -> Seq<u8> {
    seq![
        (x / 16777216) as u8,
        ((x / 65536) % 256) as u8,
        ((x / 256) % 256) as u8,
        (x % 256) as u8,
    ]
}

/// The value of four big-endian bytes.
pub open spec fn from_be32(b: Seq<u8>) -> int {
    b[0] * 16777216 + b[1] * 65536 + b[2] * 256 + b[3]
}

/// ASCII "RTL0", the magic that opens the greeting.
pub open spec fn rtl_magic() -> Seq<u8> {
    seq![0x52u8, 0x54u8, 0x4cu8, 0x30u8]
}

/// What the greeting announces after its magic.
#[derive(Debug, Clone, Copy, PartialEq, Eq, Structural)]
pub struct RtlHeader {
    /// Tuner type code (bytes 4..8, big-endian).
    pub tuner_type: u32,
    /// Number of gain steps the tuner offers (bytes 8..12, big-endian).
    pub gain_count: u32,
}

/// A greeting that is not an rtl_tcp greeting.
#[derive(Debug)]
pub enum RtlTcpError {
    /// The first four bytes, which should have read "RTL0".
    BadMagic(Vec<u8>),
}

/// Checks the 12-byte greeting: "RTL0", tuner type, gain count.
pub fn parse_header(header: &[u8]) -> (r: Result<RtlHeader, RtlTcpError>)
    requires
        header@.len() == 12,
    ensures
        header@.take(4) == rtl_magic() <==> r is Ok,
        r matches Ok(h) ==> h.tuner_type == from_be32(header@.subrange(4, 8))
            && h.gain_count == from_be32(header@.subrange(8, 12)),
        r matches Err(RtlTcpError::BadMagic(m)) ==> m@ == header@.take(4),
{
    if header[0] == 0x52 && header[1] == 0x54 && header[2] == 0x4c && header[3] == 0x30 {
        assert(header@.take(4) =~= rtl_magic());
        let tuner_type = read_be32(header, 4);
        let gain_count = read_be32(header, 8);
        Ok(RtlHeader { tuner_type, gain_count })
    } else {
        let mut m: Vec<u8> = Vec::new();
        m.push(header[0]);
        m.push(header[1]);
        m.push(header[2]);
        m.push(header[3]);
        assert(m@ =~= header@.take(4));
        assert(header@.take(4) != rtl_magic()) by {
            if header@.take(4) == rtl_magic() {
                assert(header@.take(4)[0] == header@[0]);
                assert(header@.take(4)[1] == header@[1]);
                assert(header@.take(4)[2] == header@[2]);
                assert(header@.take(4)[3] == header@[3]);
            }
        }
        Err(RtlTcpError::BadMagic(m))
    }
}

fn read_be32(b: &[u8], at: usize) -> (r: u32)
    requires
        at + 4 <= b@.len(),
    ensures
        r == from_be32(b@.subrange(at as int, at + 4)),
{
    (b[at] as u32) * 16777216 + (b[at + 1] as u32) * 65536 + (b[at + 2] as u32) * 256
        + (b[at + 3] as u32)
}

/// A command to the rtl_tcp server.
#[derive(Debug, Clone, Copy, PartialEq, Eq, Structural)]
pub enum RtlCommand {
    /// Tune the centre frequency, in Hz.
    SetFrequency(u32),
    /// Set the I/Q sample rate, in samples per second.
    SetSampleRate(u32),
    /// Manual (`true`) or automatic tuner gain.
    SetGainMode(bool),
    /// Tuner gain in tenths of a dB (150 = 15.0 dB).
    SetGain(u32),
    /// Switch the RTL2832's digital AGC on or off.
    SetAgcMode(bool),
}

/// The opcode byte of a command.
pub open spec fn opcode(c: RtlCommand) -> u8 {
    match c {
        RtlCommand::SetFrequency(_) => 0x01,
        RtlCommand::SetSampleRate(_) => 0x02,
        RtlCommand::SetGainMode(_) => 0x03,
        RtlCommand::SetGain(_) => 0x04,
        RtlCommand::SetAgcMode(_) => 0x08,
    }
}

/// The parameter of a command; a flag is 1 when set and 0 when not.
pub open spec fn param(c: RtlCommand) -> u32 {
    match c {
        RtlCommand::SetFrequency(hz) => hz,
        RtlCommand::SetSampleRate(hz) => hz,
        RtlCommand::SetGainMode(manual) => if manual { 1 } else { 0 },
        RtlCommand::SetGain(tenths_db) => tenths_db,
        RtlCommand::SetAgcMode(on) => if on { 1 } else { 0 },
    }
}

/// The five bytes that carry a command.
pub open spec fn command_bytes(c: RtlCommand) -> Seq<u8> {
    seq![opcode(c)] + be32(param(c))
}

impl RtlCommand {
    /// The opcode byte of this command.
    pub fn opcode(&self) -> (r: u8)
        ensures
            r == opcode(*self),
    {
        match self {
            RtlCommand::SetFrequency(_) => 0x01,
            RtlCommand::SetSampleRate(_) => 0x02,
            RtlCommand::SetGainMode(_) => 0x03,
            RtlCommand::SetGain(_) => 0x04,
            RtlCommand::SetAgcMode(_) => 0x08,
        }
    }

    /// The parameter of this command.
    pub fn param(&self) -> (r: u32)
        ensures
            r == param(*self),
    {
        match self {
            RtlCommand::SetFrequency(hz) => *hz,
            RtlCommand::SetSampleRate(hz) => *hz,
            RtlCommand::SetGainMode(manual) => if *manual { 1 } else { 0 },
            RtlCommand::SetGain(tenths_db) => *tenths_db,
            RtlCommand::SetAgcMode(on) => if *on { 1 } else { 0 },
        }
    }

    /// The five bytes to write to the server for this command.
    pub fn encode(&self) -> (r: Vec<u8>)
        ensures
            r@ == command_bytes(*self),
    {
        let p = self.param();
        let mut buf: Vec<u8> = Vec::with_capacity(5);
        buf.push(self.opcode());
        buf.push((p / 16777216) as u8);
        buf.push(((p / 65536) % 256) as u8);
        buf.push(((p / 256) % 256) as u8);
        buf.push((p % 256) as u8);
        assert(buf@ =~= command_bytes(*self));
        buf
    }
}

/// Big-endian encoding loses nothing: the four bytes read back as the value.
pub proof fn law_be32_roundtrip(x: u32)
    ensures
        from_be32(be32(x)) == x,
        be32(x).len() == 4,
{
    assert(x == (x / 16777216) * 16777216 + ((x / 65536) % 256) * 65536 + ((x / 256) % 256) * 256
        + x % 256) by (bit_vector);
}

/// The commands sent after connecting, in order: sample rate, centre
/// frequency, manual gain mode, gain, digital AGC off.
pub open spec fn startup_sequence(sample_rate: u32, center_hz: u32, gain_tenths_db: u32) -> Seq<
    RtlCommand,
> {
    seq![
        RtlCommand::SetSampleRate(sample_rate),
        RtlCommand::SetFrequency(center_hz),
        RtlCommand::SetGainMode(true),
        RtlCommand::SetGain(gain_tenths_db),
        RtlCommand::SetAgcMode(false),
    ]
}

/// The commands that configure a freshly connected tuner.
pub fn startup_commands(sample_rate: u32, center_hz: u32, gain_tenths_db: u32) -> (r: Vec<
    RtlCommand,
>)
    ensures
        r@ == startup_sequence(sample_rate, center_hz, gain_tenths_db),
{
    let mut v: Vec<RtlCommand> = Vec::with_capacity(5);
    v.push(RtlCommand::SetSampleRate(sample_rate));
    v.push(RtlCommand::SetFrequency(center_hz));
    v.push(RtlCommand::SetGainMode(true));
    v.push(RtlCommand::SetGain(gain_tenths_db));
    v.push(RtlCommand::SetAgcMode(false));
    assert(v@ =~= startup_sequence(sample_rate, center_hz, gain_tenths_db));
    v
}

/// The tuner settings that the commands control.
pub struct TunerSettings {
    pub sample_rate: u32,
    pub center_hz: u32,
    pub manual_gain: bool,
    pub gain_tenths_db: u32,
    pub agc: bool,
}

/// The settings after the server carries out one command: each command sets
/// the one setting it names and leaves the others.
pub open spec fn apply_command(s: TunerSettings, c: RtlCommand) -> TunerSettings {
    match c {
        RtlCommand::SetFrequency(hz) => TunerSettings { center_hz: hz, ..s },
        RtlCommand::SetSampleRate(hz) => TunerSettings { sample_rate: hz, ..s },
        RtlCommand::SetGainMode(manual) => TunerSettings { manual_gain: manual, ..s },
        RtlCommand::SetGain(g) => TunerSettings { gain_tenths_db: g, ..s },
        RtlCommand::SetAgcMode(on) => TunerSettings { agc: on, ..s },
    }
}

/// The settings after the server carries out `cs` in order.
pub open spec fn apply_commands(s: TunerSettings, cs: Seq<RtlCommand>) -> TunerSettings
    decreases cs.len(),
{
    if cs.len() == 0 {
        s
    } else {
        apply_command(apply_commands(s, cs.drop_last()), cs.last())
    }
}

/// Whatever state a tuner was left in, the startup sequence leaves it at the
/// requested sample rate, centre frequency and gain, in manual gain mode,
/// with the digital AGC off: a reconnect restores the latest requested
/// centre and gain, not defaults.
pub proof fn law_startup_configures(
    sample_rate: u32,
    center_hz: u32,
    gain_tenths_db: u32,
    before: TunerSettings,
)
    ensures
        apply_commands(before, startup_sequence(sample_rate, center_hz, gain_tenths_db)) == (
        TunerSettings {
            sample_rate,
            center_hz,
            manual_gain: true,
            gain_tenths_db,
            agc: false,
        }),
        startup_sequence(sample_rate, center_hz, gain_tenths_db).len() == 5,
{
    let q = startup_sequence(sample_rate, center_hz, gain_tenths_db);
    assert(q.drop_last().drop_last().drop_last().drop_last().drop_last() =~= Seq::<
        RtlCommand,
    >::empty());
    reveal_with_fuel(apply_commands, 6);
}

} // verus!
