use hmi::audio::{audio_levels, integer_sqrt};
use hmi::console::{confirm_delete, parse_console_command, prepare_delete, trim, ArmedDelete, CommandKind, ConsoleLine, DeleteError};
use hmi::dashboard::{DashboardState, FileKind, View};
use hmi::device::{
    apply_audio_capture, apply_battery_sample, apply_clock_sample, apply_environment_sample,
    apply_storage_sample, apply_touch349_battery, backlight_duty, display_fps, health_from_bit,
    next_volume_rlcd42, next_volume_touch349,
};
use hmi::eventlog::{json_safe, push_ndjson_line, EventRecorder};
use hmi::files::{
    candidate_name, ends_with_ignore_case, file_kind, recording_candidate, recording_name,
    safe_sd_path, safe_sd_path_touch349, SdPathError,
};
use hmi::preview::{hex_preview, text_preview, touch349_hex_preview, touch349_text_preview};
use hmi::runloop::{due, DisplaySync, LoopRate, PowerEvent, PowerHold, TouchTracker};
use hmi::st7305::{BusOp, FrameBuffer, St7305};
use hmi::telemetry::{battery_percent_rlcd42, battery_percent_touch349, Health};
use hmi::text::{clipped_name, decimal_string, push_signed_decimal, text_lines};
use hmi::touch349::Touch349Point;
use hmi::wav::{
    check_header44, chunk_action, decode_pcm, encode_pcm, format_supported, riff_end, wav_header,
    wav_layout, wav_ms, ChunkAction, WavError,
};

#[test]
fn recorded_header_round_trips_through_the_player_check() {
    let header = wav_header(96_000);
    assert_eq!(header.len(), 44);
    assert_eq!(&header[0..4], b"RIFF");
    assert_eq!(u32::from_le_bytes(header[4..8].try_into().unwrap()), 96_036);
    assert_eq!(u32::from_le_bytes(header[28..32].try_into().unwrap()), 96_000);
    assert_eq!(check_header44(&header, 96_044), Ok(96_000));
    assert_eq!(check_header44(&header, 96_043), Err(WavError::Truncated));
    let mut bad = header.clone();
    bad[22] = 1;
    assert_eq!(check_header44(&bad, 96_044), Err(WavError::NotStereo));
    bad = header.clone();
    bad[0] = b'X';
    assert_eq!(check_header44(&bad, 96_044), Err(WavError::NotRiffWave));
    bad = header.clone();
    bad[20] = 3;
    assert_eq!(check_header44(&bad, 96_044), Err(WavError::NotPcm));
    bad = header.clone();
    bad[24] = 0x81;
    assert_eq!(check_header44(&bad, 96_044), Err(WavError::Not24kHz));
    bad = header.clone();
    bad[34] = 8;
    assert_eq!(check_header44(&bad, 96_044), Err(WavError::Not16Bit));
    bad = header.clone();
    bad[36] = b'L';
    assert_eq!(check_header44(&bad, 96_044), Err(WavError::UnsupportedLayout));
}

#[test]
fn riff_walk_decisions() {
    let header = wav_header(8);
    assert_eq!(riff_end(&header[0..12], 52), Ok(52));
    assert_eq!(riff_end(&header[0..12], 51), Err(WavError::BadRiffLength));
    assert_eq!(chunk_action(&header[12..20], 20, 52), Ok(ChunkAction::Format { next: 36 }));
    assert_eq!(chunk_action(&header[36..44], 44, 52), Ok(ChunkAction::Data { start: 44, len: 8 }));
    assert_eq!(chunk_action(&[b'L', b'I', b'S', b'T', 3, 0, 0, 0], 20, 52), Ok(ChunkAction::Skip { next: 24 }));
    assert_eq!(chunk_action(&[b'd', b'a', b't', b'a', 6, 0, 0, 0], 20, 52), Err(WavError::DataNotFrameAligned));
    assert_eq!(chunk_action(&[b'd', b'a', b't', b'a', 64, 0, 0, 0], 20, 52), Err(WavError::ChunkOutOfBounds));
    assert!(format_supported(&header[20..36]));
    assert_eq!(wav_layout(true, Some((44, 8))), Ok((44, 8)));
    assert_eq!(wav_layout(true, None), Err(WavError::MissingData));
    assert_eq!(wav_layout(false, Some((44, 8))), Err(WavError::UnsupportedFormat));
    assert_eq!(wav_ms(96_000), 1_000);
    assert_eq!(wav_ms(u64::MAX), u64::MAX / 96_000);
    let samples = [0i16, 1, -1, i16::MIN, i16::MAX];
    assert_eq!(decode_pcm(&encode_pcm(&samples)), samples.to_vec());
}

#[test]
fn previews_wrap_and_dump() {
    let (text, used) = text_preview(b"ab\r\ncd\x01");
    assert_eq!(text, "ab\ncd.");
    assert_eq!(used, 7);
    let long = [b'x'; 50];
    let (text, _) = text_preview(&long);
    assert_eq!(text.lines().next().unwrap().len(), 44);
    let (dump, shown) = hex_preview(&[0xde, 0xad], 16);
    assert_eq!(dump, "00000010  DE AD \n");
    assert_eq!(shown, 2);
    assert_eq!(touch349_text_preview(b"a\tb\x07c\n"), "a\tb c\n");
    assert_eq!(touch349_text_preview(&[0x66, 0xff, 0x67]), "f\u{fffd}g");
    assert_eq!(touch349_hex_preview(&[1, 2, 3, 4, 5, 6, 7, 8, 9], 0), "000000  01 02 03 04 05 06 07 08\n000008  09");
}

#[test]
fn event_log_records_are_escaped_ndjson() {
    assert_eq!(json_safe("a\"b\\c\nd\u{1}", 10), "a\\\"b\\\\c\\nd?");
    assert_eq!(json_safe("abcdef", 3), "abc");
    let mut state = DashboardState::default();
    state.record(5, "BOOT", "ok \"now\"");
    let mut out = String::new();
    push_ndjson_line(&mut out, &state.events[0]);
    assert_eq!(out, "{\"v\":1,\"seq\":1,\"at_ms\":5,\"source\":\"BOOT\",\"detail\":\"ok \\\"now\\\"\"}\n");
    let mut recorder = EventRecorder::default();
    assert!(recorder.plan_sync(&mut state, false).is_none());
    assert_eq!(recorder.last_seq, 1);
    state.event_logging_enabled = true;
    state.storage.mounted = true;
    state.runtime.uptime_ms = 1_000;
    state.record(6, "MIC", "x");
    let batch = recorder.plan_sync(&mut state, false).unwrap();
    assert_eq!(batch.last_seq, 2);
    assert!(batch.text.starts_with("{\"v\":1,\"seq\":2,"));
    recorder.write_failed(&mut state);
    assert_eq!(state.storage.health, Health::Error);
    assert!(recorder.plan_sync(&mut state, false).is_none());
    assert_eq!(state.storage.pending_events, 1);
    let batch = recorder.plan_sync(&mut state, true).unwrap();
    recorder.write_succeeded(&mut state, batch.last_seq, batch.text.len() as u64);
    assert!(recorder.flushed(&state));
}

#[test]
fn console_lines_and_deletions() {
    assert_eq!(trim("  a b \t"), "a b");
    assert!(parse_console_command("   ").is_none());
    let c = parse_console_command("file delete prepare  x.txt").unwrap();
    assert_eq!(c.kind, CommandKind::DeletePrepare);
    assert_eq!(c.name, "x.txt");
    let mut line = ConsoleLine::new();
    let lines = line.feed(b"hel\x7flp\r\nst");
    assert_eq!(lines, vec!["help".to_string()]);
    let lines = line.feed(b"atus\n");
    assert_eq!(lines, vec!["status".to_string()]);
    assert_eq!(prepare_delete("", false, "", "", 0).unwrap_err(), DeleteError::NameRequired);
    assert_eq!(prepare_delete("R.WAV", true, "R.WAV", "", 0).unwrap_err(), DeleteError::ActiveRecording);
    assert_eq!(prepare_delete("P.WAV", false, "", "P.WAV", 0).unwrap_err(), DeleteError::OpenInPlayer);
    let armed = prepare_delete("x.txt", false, "", "", u64::MAX - 5).unwrap();
    assert_eq!(armed.expires_ms, u64::MAX);
    let armed = Some(ArmedDelete { name: "x.txt".into(), expires_ms: 100 });
    assert_eq!(confirm_delete(&None, "x.txt", false, "", "", 0), Err(DeleteError::NotArmed));
    assert_eq!(confirm_delete(&armed, "x.txt", false, "", "", 101), Err(DeleteError::Expired));
    assert_eq!(confirm_delete(&armed, "y.txt", false, "", "", 100), Err(DeleteError::NameMismatch));
    assert_eq!(confirm_delete(&armed, "x.txt", false, "", "", 100), Ok(()));
}

#[test]
fn sd_names_and_kinds() {
    assert_eq!(file_kind("A.WAV"), FileKind::Wav);
    assert_eq!(file_kind("log.NDJ"), FileKind::Text);
    assert_eq!(file_kind("x.bin"), FileKind::Other);
    assert!(ends_with_ignore_case("README.MD", ".md"));
    assert_eq!(safe_sd_path("dir/a.txt"), Ok("/sdcard/dir/a.txt".to_string()));
    assert_eq!(safe_sd_path("/etc"), Err(SdPathError::Absolute));
    assert_eq!(safe_sd_path("a/../b"), Err(SdPathError::ParentDir));
    assert_eq!(safe_sd_path_touch349("REC.TMP"), Err(SdPathError::Protected));
    assert_eq!(safe_sd_path_touch349("."), Err(SdPathError::Empty));
    assert_eq!(recording_name(42), "R000042.WAV");
    assert_eq!(recording_candidate(5_000_999, 3), 5_003);
    assert_eq!(candidate_name(5_000_999, 99), Some("R005099.WAV".to_string()));
    assert_eq!(candidate_name(0, 100), None);
}

#[test]
fn device_samples_update_the_state() {
    let mut state = DashboardState::default();
    apply_clock_sample(&mut state, Some((2026, 8, 9, 0, 23, 24, 37)), "IST", 10);
    assert_eq!(state.clock.health, Health::Healthy);
    assert_eq!(state.clock.year, 2026);
    assert_eq!(state.events.back().unwrap().detail, "network time synchronized");
    assert!(apply_environment_sample(&mut state, Ok((2_500, 4_000)), 20));
    assert_eq!(state.environment.temperature_centi_c, 2_500);
    assert!(!apply_environment_sample(&mut state, Err(0x109), 30));
    assert_eq!(state.environment.crc_errors, 1);
    assert_eq!(state.environment.health, Health::Error);
    apply_battery_sample(&mut state, Some((3_560, 1_900)), 40);
    assert_eq!(state.battery.percent, 50);
    apply_storage_sample(&mut state, None, 50);
    assert!(!state.storage.mounted);
    assert!(apply_audio_capture(&mut state, Some(&[10, 0, -20, 0]), 60));
    assert_eq!(state.audio.peak, 20);
    assert_eq!(state.audio.rms, 15);
    apply_touch349_battery(&mut state, Some((7, 3_750)));
    assert_eq!(state.battery.percent, 50);
    assert_eq!(health_from_bit(0b1010, 2), Health::Healthy);
    assert_eq!(health_from_bit(0b1010, 4), Health::Error);
}

#[test]
fn volumes_backlight_and_rates() {
    let mut v = 25;
    let mut seen = Vec::new();
    for _ in 0..6 {
        v = next_volume_rlcd42(v);
        seen.push(v);
    }
    assert_eq!(seen, [40, 55, 70, 85, 100, 25]);
    assert_eq!(next_volume_touch349(100), 40);
    assert_eq!(next_volume_touch349(0), 55);
    assert_eq!(backlight_duty(100), 0);
    assert_eq!(backlight_duty(0), 204);
    assert_eq!(display_fps(0), 0);
    assert_eq!(display_fps(16_667), 59);
    assert_eq!(display_fps(1), 255);
    assert_eq!(battery_percent_rlcd42(3_000), 0);
    assert_eq!(battery_percent_rlcd42(4_120), 100);
    assert_eq!(battery_percent_touch349(3_750), 50);
    assert_eq!(integer_sqrt(99), 9);
    assert_eq!(integer_sqrt(u64::MAX - 1), 4_294_967_295);
    assert_eq!(audio_levels(&[3, 100, -4, 100]), (3, 4));
}

#[test]
fn text_helpers_match_std() {
    for s in ["", "a", "a\n", "a\r\nb", "\n\nx\r", "x\ry\n", "one\ntwo\nthree"] {
        let expected: Vec<String> = s.lines().map(String::from).collect();
        assert_eq!(text_lines(s, 100), expected, "{s:?}");
        assert_eq!(text_lines(s, 1), expected.into_iter().take(1).collect::<Vec<_>>());
    }
    assert_eq!(clipped_name("abcdef", 5), "ab...");
    assert_eq!(clipped_name("abc", 5), "abc");
    assert_eq!(decimal_string(1_234_567), "1234567");
    let mut s = String::new();
    push_signed_decimal(&mut s, i64::MIN);
    assert_eq!(s, i64::MIN.to_string());
}

#[test]
fn panel_bus_plans() {
    let panel = St7305::new((), (), ());
    let ops = panel.init();
    assert!(matches!(ops[0], BusOp::Reset(true)));
    let on = panel.display_on();
    assert!(on.iter().any(|op| matches!(op, BusOp::Write(bytes) if bytes == &vec![0x29])));
    let frame = FrameBuffer::new();
    let flush = panel.flush(&frame);
    let last = flush.last().unwrap();
    assert!(matches!(last, BusOp::Write(bytes) if bytes.len() == 15_000));
}

#[test]
fn loop_helpers() {
    assert!(due(1_000, 0, 1_000));
    assert!(!due(999, 0, 1_000));
    assert!(!due(5, 10, 1));
    let mut state = DashboardState::default();
    let mut sync = DisplaySync::new(true);
    assert!(sync.plan_render(&mut state, 250));
    assert!(!sync.plan_render(&mut state, 260));
    let d = sync.plan_flush(300, false);
    assert!(!d.flush);
    let d = sync.plan_flush(350, false);
    assert!(d.flush && d.te_timed_out && !sync.te_enabled);
    sync.flushed(350);
    state.refresh_requested = true;
    assert!(sync.plan_render(&mut state, 351));
    assert!(!state.refresh_requested);
    assert!(sync.plan_flush(351, false).flush);
    let mut rate = LoopRate::new();
    for t in 0..999 {
        rate.tick(&mut state, t);
    }
    rate.tick(&mut state, 1_000);
    assert_eq!(state.runtime.loop_hz, 1_000);
    assert_eq!(rate.count, 0);
    let mut tracker = TouchTracker::new(0);
    let p = Touch349Point { x: 10, y: 20 };
    assert_eq!(tracker.update(Some(p), 5), None);
    assert_eq!(tracker.update(None, 30), None);
    assert_eq!(tracker.update(None, 60), Some(p));
    assert_eq!(tracker.update(None, 200), None);
    let mut hold = PowerHold::new();
    assert_eq!(hold.update(true, 100), PowerEvent::Idle);
    assert_eq!(hold.update(true, 1_299), PowerEvent::Idle);
    assert_eq!(hold.update(true, 1_300), PowerEvent::PowerOff);
    assert_eq!(hold.update(false, 1_400), PowerEvent::Cancelled);
    assert_eq!(hold.update(false, 1_500), PowerEvent::Idle);
    let _ = View::Home;
}

#[test]
fn recording_names_are_eight_dot_three_and_distinct() {
    assert_eq!(recording_name(1), "R000001.WAV");
    assert_eq!(recording_name(999_999), "R999999.WAV");
    let names: Vec<String> = [0u32, 1, 10, 100, 1_000, 10_000, 100_000, 999_999]
        .iter()
        .map(|&i| recording_name(i))
        .collect();
    for (i, a) in names.iter().enumerate() {
        assert_eq!(a.len(), 11);
        for b in names.iter().skip(i + 1) {
            assert_ne!(a, b);
        }
    }
}
