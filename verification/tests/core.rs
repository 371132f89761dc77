use sdr_tap::backend::DspBackend;
use sdr_tap::boxcar::{BoxcarCounter, BoxcarPlan};
use sdr_tap::config::{ArgumentError, AudioTapConfig, ModuleArgs, DEFAULT_RTLTCP_PORT};
use sdr_tap::control::{check_gain, retune_target, ControlError};
use sdr_tap::encoder::{is_opus_header, DeliveryOutcome, ExitReason, OpusForwarder, PacketAction};
use sdr_tap::rates::{
    AUDIO_DECIMATE, AUDIO_RATE, CHUNK_BYTES, DDC_DECIMATE, MAX_TUNE_OFFSET_HZ, NARROW_RATE,
    RING_CAPACITY, WIDE_SAMPLE_RATE,
};
use sdr_tap::ring::IqRing;
use sdr_tap::rtltcp::{parse_header, startup_commands, RtlCommand, RtlHeader, RtlTcpError};
use sdr_tap::session::{end_reason, AudioTapSession, EndSessionReason, SessionEvent};
use sdr_tap::source::{needs_retune, split_source, Mode};
use sdr_tap::text::{lowercase_equals, uppercase_equals};
use sdr_tap::tuner::{after_chunk, RECONNECT_DELAY_SECS};
use sdr_tap::wav::{pcm_to_le_bytes, streaming_wav_header};

#[test]
fn wav_header_mono_48k_exact_bytes() {
    let h = streaming_wav_header(48_000, 1);
    let expected: Vec<u8> = vec![
        b'R', b'I', b'F', b'F', 0xFF, 0xFF, 0xFF, 0xFF, b'W', b'A', b'V', b'E', b'f', b'm', b't',
        b' ', 16, 0, 0, 0, 1, 0, 1, 0, 0x80, 0xBB, 0, 0, 0x00, 0x77, 0x01, 0x00, 2, 0, 16, 0,
        b'd', b'a', b't', b'a', 0xFF, 0xFF, 0xFF, 0xFF,
    ];
    assert_eq!(h, expected);
    assert_eq!(h.len(), 44);
}

#[test]
fn wav_header_fields_read_back() {
    let h = streaming_wav_header(44_100, 2);
    let le32 = |at: usize| u32::from_le_bytes([h[at], h[at + 1], h[at + 2], h[at + 3]]);
    let le16 = |at: usize| u16::from_le_bytes([h[at], h[at + 1]]);
    assert_eq!(le16(20), 1);
    assert_eq!(le16(22), 2);
    assert_eq!(le32(24), 44_100);
    assert_eq!(le32(28), 44_100 * 2 * 2);
    assert_eq!(le16(32), 4);
    assert_eq!(le16(34), 16);
    assert_eq!(le32(4), 0xFFFF_FFFF);
    assert_eq!(le32(40), 0xFFFF_FFFF);
}

#[test]
fn pcm_samples_pack_little_endian() {
    let bytes = pcm_to_le_bytes(&[0, 1, -1, 32767, -32768, 0x1234]);
    assert_eq!(
        bytes,
        vec![0, 0, 1, 0, 0xFF, 0xFF, 0xFF, 0x7F, 0x00, 0x80, 0x34, 0x12]
    );
    assert!(pcm_to_le_bytes(&[]).is_empty());
}

#[test]
fn backend_parse_ignores_ascii_case() {
    assert_eq!(DspBackend::parse("legacy"), Some(DspBackend::Legacy));
    assert_eq!(DspBackend::parse("LeGaCy"), Some(DspBackend::Legacy));
    assert_eq!(DspBackend::parse("futuresdr"), Some(DspBackend::FutureSdr));
    assert_eq!(DspBackend::parse("FutureSDR"), Some(DspBackend::FutureSdr));
    assert_eq!(DspBackend::parse("future-sdr"), Some(DspBackend::FutureSdr));
    assert_eq!(DspBackend::parse("FSDR"), Some(DspBackend::FutureSdr));
    assert_eq!(DspBackend::parse("future_sdr"), None);
    assert_eq!(DspBackend::parse(""), None);
    assert_eq!(DspBackend::parse(" legacy"), None);
    assert_eq!(DspBackend::parse("légacy"), None);
}

#[test]
fn backend_names_round_trip() {
    assert_eq!(DspBackend::Legacy.as_str(), "legacy");
    assert_eq!(DspBackend::FutureSdr.as_str(), "futuresdr");
    for b in [DspBackend::Legacy, DspBackend::FutureSdr] {
        assert_eq!(DspBackend::parse(b.as_str()), Some(b));
    }
    assert_eq!(DspBackend::default(), DspBackend::Legacy);
}

#[test]
fn source_splits_at_first_colon() {
    assert_eq!(split_source("FM:101.1"), Some((Mode::Fm, "101.1")));
    assert_eq!(split_source("wfm:98.5"), Some((Mode::Fm, "98.5")));
    assert_eq!(split_source("WFM:98.5"), Some((Mode::Fm, "98.5")));
    assert_eq!(split_source("AM:1.080"), Some((Mode::Am, "1.080")));
    assert_eq!(split_source("am:"), Some((Mode::Am, "")));
    assert_eq!(split_source("FM:1:2"), Some((Mode::Fm, "1:2")));
    assert_eq!(split_source("FM101.1"), None);
    assert_eq!(split_source("XM:101.1"), None);
    assert_eq!(split_source(":101.1"), None);
    assert_eq!(split_source("FM :101.1"), None);
    assert_eq!(split_source("ÄM:1.0"), None);
    assert_eq!(split_source("FM:ünïcode"), Some((Mode::Fm, "ünïcode")));
}

#[test]
fn retune_needed_beyond_usable_half_band() {
    assert_eq!(MAX_TUNE_OFFSET_HZ, 1_050_000);
    assert!(!needs_retune(98_000_000, 98_000_000));
    assert!(!needs_retune(99_050_000, 98_000_000));
    assert!(needs_retune(99_050_001, 98_000_000));
    assert!(!needs_retune(96_950_000, 98_000_000));
    assert!(needs_retune(96_949_999, 98_000_000));
    assert!(needs_retune(101_100_000, 98_000_000));
    assert!(needs_retune(0, u32::MAX));
}

#[test]
fn rtl_greeting_is_checked() {
    let ok = [b'R', b'T', b'L', b'0', 0, 0, 0, 5, 0, 0, 0, 29];
    assert_eq!(
        parse_header(&ok).unwrap(),
        RtlHeader {
            tuner_type: 5,
            gain_count: 29
        }
    );
    let big = [b'R', b'T', b'L', b'0', 0x12, 0x34, 0x56, 0x78, 0xFF, 0xFF, 0xFF, 0xFF];
    let h = parse_header(&big).unwrap();
    assert_eq!(h.tuner_type, 0x1234_5678);
    assert_eq!(h.gain_count, u32::MAX);
    let bad = [b'H', b'T', b'T', b'P', 0, 0, 0, 0, 0, 0, 0, 0];
    match parse_header(&bad) {
        Err(RtlTcpError::BadMagic(m)) => assert_eq!(m, b"HTTP".to_vec()),
        Ok(_) => panic!("bad magic accepted"),
    }
    let almost = [b'R', b'T', b'L', b'1', 0, 0, 0, 0, 0, 0, 0, 0];
    assert!(parse_header(&almost).is_err());
}

#[test]
fn rtl_commands_encode_big_endian() {
    assert_eq!(
        RtlCommand::SetFrequency(98_000_000).encode(),
        vec![0x01, 0x05, 0xD7, 0x5C, 0x80]
    );
    assert_eq!(
        RtlCommand::SetSampleRate(2_400_000).encode(),
        vec![0x02, 0x00, 0x24, 0x9F, 0x00]
    );
    assert_eq!(RtlCommand::SetGainMode(true).encode(), vec![0x03, 0, 0, 0, 1]);
    assert_eq!(RtlCommand::SetGainMode(false).encode(), vec![0x03, 0, 0, 0, 0]);
    assert_eq!(RtlCommand::SetGain(150).encode(), vec![0x04, 0, 0, 0, 150]);
    assert_eq!(RtlCommand::SetAgcMode(false).encode(), vec![0x08, 0, 0, 0, 0]);
    assert_eq!(RtlCommand::SetAgcMode(true).encode(), vec![0x08, 0, 0, 0, 1]);
    for c in [
        RtlCommand::SetFrequency(0xDEAD_BEEF),
        RtlCommand::SetGain(u32::MAX),
        RtlCommand::SetSampleRate(1),
    ] {
        let b = c.encode();
        assert_eq!(b[0], c.opcode());
        assert_eq!(u32::from_be_bytes([b[1], b[2], b[3], b[4]]), c.param());
    }
}

#[test]
fn rtl_startup_sequence() {
    assert_eq!(
        startup_commands(2_400_000, 98_000_000, 150),
        vec![
            RtlCommand::SetSampleRate(2_400_000),
            RtlCommand::SetFrequency(98_000_000),
            RtlCommand::SetGainMode(true),
            RtlCommand::SetGain(150),
            RtlCommand::SetAgcMode(false),
        ]
    );
}

#[test]
fn tuner_applies_pending_requests_between_chunks() {
    assert!(after_chunk(None, None).is_empty());
    assert_eq!(
        after_chunk(Some(99_500_000), None),
        vec![RtlCommand::SetFrequency(99_500_000)]
    );
    assert_eq!(
        after_chunk(Some(99_500_000), Some(280)),
        vec![RtlCommand::SetFrequency(99_500_000), RtlCommand::SetGain(280)]
    );
    assert_eq!(after_chunk(None, Some(0)), vec![RtlCommand::SetGain(0)]);
    assert_eq!(RECONNECT_DELAY_SECS, 2);
}

#[test]
fn ring_keeps_newest_chunks_in_order() {
    let mut ring: IqRing<u32> = IqRing::new();
    assert_eq!(ring.pop(), None);
    for k in 0..25u32 {
        ring.push(k);
        assert!(ring.len() <= RING_CAPACITY);
    }
    assert_eq!(ring.len(), 20);
    for k in 5..25u32 {
        assert_eq!(ring.pop(), Some(k));
    }
    assert_eq!(ring.pop(), None);
    assert_eq!(ring.len(), 0);
}

#[test]
fn ring_below_capacity_drops_nothing() {
    let mut ring: IqRing<&str> = IqRing::new();
    ring.push("a");
    ring.push("b");
    assert_eq!(ring.pop(), Some("a"));
    ring.push("c");
    assert_eq!(ring.len(), 2);
    assert_eq!(ring.pop(), Some("b"));
    assert_eq!(ring.pop(), Some("c"));
}

#[test]
fn boxcar_plan_respects_output_room() {
    let c = BoxcarCounter::new(5);
    assert_eq!(c.plan(12, 1), BoxcarPlan { consumed: 9, produced: 1 });
    assert_eq!(c.plan(12, 10), BoxcarPlan { consumed: 12, produced: 2 });
    assert_eq!(c.plan(4, 0), BoxcarPlan { consumed: 4, produced: 0 });
    assert_eq!(c.plan(5, 0), BoxcarPlan { consumed: 4, produced: 0 });
    assert_eq!(c.plan(0, 3), BoxcarPlan { consumed: 0, produced: 0 });
    let one = BoxcarCounter::new(1);
    assert_eq!(one.plan(7, 3), BoxcarPlan { consumed: 3, produced: 3 });
}

#[test]
fn boxcar_advance_closes_every_factor_samples() {
    let mut c = BoxcarCounter::new(DDC_DECIMATE);
    let mut closed = 0;
    for _ in 0..23 {
        if c.advance() {
            closed += 1;
        }
    }
    assert_eq!(closed, 2);
    assert_eq!(c.count(), 3);
    assert_eq!(c.factor(), 10);
    let p = c.plan(100, 4);
    assert_eq!(p, BoxcarPlan { consumed: 46, produced: 4 });
    let mut produced = 0;
    for _ in 0..p.consumed {
        if c.advance() {
            produced += 1;
        }
    }
    assert_eq!(produced, p.produced);
    assert_eq!(c.count(), 9);
}

#[test]
fn control_requests_are_validated() {
    assert_eq!(retune_target(Some(99_500_000), Some(1)), Ok(99_500_000));
    assert_eq!(retune_target(None, Some(101_100_000)), Ok(101_100_000));
    assert_eq!(retune_target(None, None), Err(ControlError::MissingFrequency));
    assert_eq!(retune_target(Some(23_999_999), None), Err(ControlError::FrequencyOutOfRange));
    assert_eq!(retune_target(Some(24_000_000), None), Ok(24_000_000));
    assert_eq!(retune_target(Some(1_800_000_000), None), Ok(1_800_000_000));
    assert_eq!(
        retune_target(None, Some(1_800_000_001)),
        Err(ControlError::FrequencyOutOfRange)
    );
    assert_eq!(check_gain(500), Ok(500));
    assert_eq!(check_gain(0), Ok(0));
    assert_eq!(check_gain(501), Err(ControlError::GainOutOfRange));
    assert_eq!(ControlError::MissingFrequency.message(), "must provide hz or mhz");
    assert_eq!(
        ControlError::FrequencyOutOfRange.message(),
        "target frequency out of RTL-SDR range"
    );
    assert_eq!(
        ControlError::GainOutOfRange.message(),
        "tenths_db out of plausible range (max 500)"
    );
}

#[test]
fn session_ends_on_signal_or_read_error() {
    assert_eq!(end_reason(SessionEvent::Message), None);
    assert_eq!(end_reason(SessionEvent::ReadFailed), Some(EndSessionReason::ReadError));
    assert_eq!(end_reason(SessionEvent::Interrupt), Some(EndSessionReason::UserInterrupt));
    assert_eq!(end_reason(SessionEvent::Terminate), Some(EndSessionReason::UserInterrupt));
    assert_eq!(AudioTapSession::new(), AudioTapSession {});
    assert_eq!(AudioTapSession::default(), AudioTapSession {});
}

#[test]
fn opus_headers_are_recognised() {
    assert!(is_opus_header(b"OpusHead\x01\x01"));
    assert!(is_opus_header(b"OpusTags"));
    assert!(!is_opus_header(b"OpusTag"));
    assert!(!is_opus_header(b"OpusHeaX"));
    assert!(!is_opus_header(b"\xfc\xff\xfe"));
    assert!(!is_opus_header(b""));
}

#[test]
fn forwarder_numbers_audio_frames() {
    let mut f = OpusForwarder::new();
    assert_eq!(f.on_packet(b"OpusHead...."), PacketAction::Skip);
    assert_eq!(f.on_packet(b"OpusTags...."), PacketAction::Skip);
    assert_eq!(
        f.on_packet(&[0xfc, 1, 2]),
        PacketAction::Forward { frame_index: 0, first: true }
    );
    assert_eq!(f.on_delivery(true), DeliveryOutcome::Continue { heartbeat: false });
    assert_eq!(
        f.on_packet(&[0xfc, 3]),
        PacketAction::Forward { frame_index: 1, first: false }
    );
    for _ in 1..249 {
        assert_eq!(f.on_delivery(true), DeliveryOutcome::Continue { heartbeat: false });
    }
    assert_eq!(f.frame_index(), 249);
    assert_eq!(f.on_delivery(true), DeliveryOutcome::Continue { heartbeat: true });
    assert_eq!(f.on_delivery(false), DeliveryOutcome::Stop(ExitReason::HubDisconnected));
    assert_eq!(f.frame_index(), 250);
    assert_eq!(ExitReason::HubDisconnected.as_str(), "hub_disconnected");
    assert_eq!(ExitReason::OggReadError.as_str(), "ogg_read_error");
    assert_eq!(ExitReason::FfmpegEof.as_str(), "ffmpeg_eof");
}

fn args() -> ModuleArgs {
    ModuleArgs {
        tap_id: Some("my-sdr-tap".to_string()),
        api_token: Some("SECRET-REDACTED".to_string()),
        center_hz: Some(98_000_000),
        hub: None,
        server_name: None,
        rtltcp_host: None,
        rtltcp_port: None,
        healthcheck_port: None,
    }
}

#[test]
fn config_defaults() {
    let c = AudioTapConfig::new();
    assert_eq!(c.tap_id, None);
    assert_eq!(c.api_token, None);
    assert_eq!(c.hub_endpoint, "api.zako.ac");
    assert_eq!(c.server_name, None);
    assert_eq!(c.rtltcp_host, "localhost");
    assert_eq!(c.rtltcp_port, DEFAULT_RTLTCP_PORT);
    assert_eq!(c.rtltcp_port, 1234);
    assert_eq!(c.center_hz, 0);
    assert_eq!(c.healthcheck_port, None);
}

#[test]
fn config_takes_arguments() {
    let mut c = AudioTapConfig::new();
    assert_eq!(c.apply_arguments(args()), Ok(()));
    assert_eq!(c.tap_id.as_deref(), Some("my-sdr-tap"));
    assert_eq!(c.center_hz, 98_000_000);
    assert_eq!(c.hub_endpoint, "api.zako.ac");
    assert_eq!(c.rtltcp_port, 1234);

    let mut a = args();
    a.hub = Some("hub.example".to_string());
    a.rtltcp_host = Some("10.0.0.2".to_string());
    a.rtltcp_port = Some(4321);
    a.server_name = Some("sni.example".to_string());
    a.healthcheck_port = Some(8080);
    let mut c = AudioTapConfig::new();
    assert_eq!(c.apply_arguments(a), Ok(()));
    assert_eq!(c.hub_endpoint, "hub.example");
    assert_eq!(c.rtltcp_host, "10.0.0.2");
    assert_eq!(c.rtltcp_port, 4321);
    assert_eq!(c.server_name.as_deref(), Some("sni.example"));
    assert_eq!(c.healthcheck_port, Some(8080));
}

#[test]
fn config_reports_missing_required_values_in_order() {
    let mut c = AudioTapConfig::new();
    let mut a = args();
    a.tap_id = None;
    a.api_token = None;
    assert_eq!(c.apply_arguments(a), Err(ArgumentError::MissingTapId));
    assert_eq!(c.tap_id, None);

    let mut a = args();
    a.api_token = None;
    a.center_hz = None;
    assert_eq!(c.apply_arguments(a), Err(ArgumentError::MissingApiToken));
    assert_eq!(c.tap_id.as_deref(), Some("my-sdr-tap"));
    assert_eq!(c.api_token, None);

    let mut a = args();
    a.center_hz = None;
    a.rtltcp_port = Some(9);
    assert_eq!(c.apply_arguments(a), Err(ArgumentError::MissingCenterMhz));
    assert_eq!(c.api_token.as_deref(), Some("SECRET-REDACTED"));
    assert_eq!(c.center_hz, 0);
    assert_eq!(c.rtltcp_port, 1234);
    assert_eq!(ArgumentError::MissingTapId.message(), "tap-id required");
    assert_eq!(ArgumentError::MissingApiToken.message(), "api-token required");
    assert_eq!(ArgumentError::MissingCenterMhz.message(), "center-mhz required");
}

#[test]
fn rates_are_consistent() {
    assert_eq!(NARROW_RATE, WIDE_SAMPLE_RATE / DDC_DECIMATE as u32);
    assert_eq!(AUDIO_RATE, NARROW_RATE / AUDIO_DECIMATE as u32);
    assert_eq!(AUDIO_RATE, 48_000);
    assert_eq!(CHUNK_BYTES, WIDE_SAMPLE_RATE as usize / 10 * 2);
}

#[test]
fn boxcar_chunk_boundaries_do_not_matter() {
    let mut whole = BoxcarCounter::new(AUDIO_DECIMATE);
    let mut closed_whole = 0;
    for _ in 0..23 {
        if whole.advance() {
            closed_whole += 1;
        }
    }
    let mut split = BoxcarCounter::new(AUDIO_DECIMATE);
    let mut closed_split = 0;
    for block in [7usize, 0, 9, 7] {
        for _ in 0..block {
            if split.advance() {
                closed_split += 1;
            }
        }
    }
    assert_eq!(closed_whole, 4);
    assert_eq!(closed_split, closed_whole);
    assert_eq!(split.count(), whole.count());
    assert_eq!(whole.count(), 3);
}

#[test]
fn ascii_case_folding_leaves_other_characters() {
    assert!(lowercase_equals("FuTuRe-SDR", "future-sdr"));
    assert!(!lowercase_equals("futuresdr", "future-sdr"));
    assert!(uppercase_equals("wFm", "WFM"));
    assert!(!uppercase_equals("wfmx", "WFM"));
    assert!(!uppercase_equals("ﬁ", "FI"));
}
