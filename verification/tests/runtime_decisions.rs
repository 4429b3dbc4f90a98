use hmi::console::{parse_console_command, CommandKind};
use hmi::dashboard::{DashboardState, FileEntry, FileKind, UiAction, View};
use hmi::library::{
    files_refreshed, find_file, names_in_order, sort_files, storage_refreshed, viewer_page_loaded,
    viewer_start, visible_name,
};
use hmi::media::{
    check_recording_start, check_speaker_test, plan_media_action, player_opened, playback_chunk_played,
    poweroff_preparation_finished, recording_closed, recording_started, test_tone_block,
    toggle_event_log, MediaError, MediaStep, PlayerSource, RecorderProgress, ViewerSource,
    TONE_PHASE_STEP,
};
use hmi::telemetry::Health;
use hmi::touch_runtime::{
    apply_epoch_clock, apply_live_levels, apply_network_stats, apply_recorder_stats, civil_date,
    close_player, console_hex_lines, plan_console_command, plan_touch349_action, read_window,
    touch349_initial_state, touch_media_opened, wav_entry, ConsoleError, ConsoleStep,
    RecorderPoll, RecorderStats, TouchActionError, TouchStep,
};
use hmi::wav::WavError;

fn file(name: &str, size: u64, kind: FileKind) -> FileEntry {
    FileEntry { name: name.into(), size, kind }
}

#[test]
fn rlcd_actions_map_to_media_steps() {
    let mut state = DashboardState::default();
    assert_eq!(plan_media_action(UiAction::ToggleRecording, &state, false), MediaStep::StartRecording);
    state.recording = true;
    assert_eq!(plan_media_action(UiAction::ToggleRecording, &state, false), MediaStep::StopRecording);
    state.recording = false;
    assert_eq!(plan_media_action(UiAction::OpenLastRecording, &state, false), MediaStep::Nothing);
    state.last_recording = "R000001.WAV".into();
    assert_eq!(
        plan_media_action(UiAction::ToggleLastRecording, &state, false),
        MediaStep::OpenPlayer { source: PlayerSource::LastRecording, play: true }
    );
    state.playing = true;
    assert_eq!(plan_media_action(UiAction::ToggleLastRecording, &state, true), MediaStep::StopPlayback);
    state.files = vec![file("a.txt", 10, FileKind::Text), file("b.wav", 10, FileKind::Wav)];
    state.file_index = 0;
    assert_eq!(
        plan_media_action(UiAction::OpenSelectedFile, &state, false),
        MediaStep::OpenViewer { source: ViewerSource::SelectedFile, offset: 0, stop_playback: true }
    );
    state.file_index = 1;
    assert_eq!(
        plan_media_action(UiAction::OpenSelectedFile, &state, false),
        MediaStep::OpenPlayer { source: PlayerSource::SelectedFile, play: false }
    );
    state.file_index = 5;
    assert_eq!(plan_media_action(UiAction::OpenSelectedFile, &state, false), MediaStep::Nothing);
    assert_eq!(plan_media_action(UiAction::TogglePlayback, &state, false), MediaStep::Nothing);
    assert_eq!(plan_media_action(UiAction::TogglePlayback, &state, true), MediaStep::FlipPlayback);
    state.viewer_name = "a.txt".into();
    state.viewer_size = 100;
    state.viewer_next_offset = 100;
    assert_eq!(
        plan_media_action(UiAction::ViewerNext, &state, false),
        MediaStep::OpenViewer { source: ViewerSource::OpenFile, offset: 0, stop_playback: false }
    );
    state.viewer_next_offset = 40;
    assert_eq!(
        plan_media_action(UiAction::ViewerNext, &state, false),
        MediaStep::OpenViewer { source: ViewerSource::OpenFile, offset: 40, stop_playback: false }
    );
    state.speaker_volume = 55;
    assert_eq!(plan_media_action(UiAction::CycleVolume, &state, false), MediaStep::SetVolume(70));
    state.speaker_volume = 100;
    assert_eq!(plan_media_action(UiAction::CycleVolume, &state, false), MediaStep::SetVolume(25));
}

#[test]
fn recording_needs_microphone_then_card() {
    let mut state = DashboardState::default();
    assert_eq!(check_recording_start(&state), Err(MediaError::MicrophoneNotReady));
    state.audio.health = Health::Healthy;
    assert_eq!(check_recording_start(&state), Err(MediaError::CardNotMounted));
    state.storage.mounted = true;
    assert_eq!(check_recording_start(&state), Ok(()));
    state.recording = true;
    assert_eq!(check_speaker_test(&state), Err(MediaError::RecordingActive));
}

#[test]
fn recording_and_player_transitions() {
    let mut state = DashboardState::default();
    state.poweroff_prepared = true;
    recording_started(&mut state, "R000007.WAV".into(), 500);
    assert!(state.recording && !state.poweroff_prepared);
    assert_eq!(state.recording_name, "R000007.WAV");
    assert_eq!(state.last_recording, "R000007.WAV");
    assert_eq!(state.events.back().unwrap().detail, "started R000007.WAV");
    recording_closed(&mut state, Some(("R000007.WAV".into(), 96_000)));
    assert!(!state.recording);
    assert_eq!(state.recording_bytes, 96_000);
    player_opened(&mut state, "R000007.WAV".into(), 1_000);
    assert_eq!(state.view, View::Player);
    assert!(!state.playing);
    assert_eq!(state.playback_duration_ms, 1_000);
    state.playing = true;
    playback_chunk_played(&mut state, 250, &[3, 0, -4, 0]);
    assert_eq!(state.playback_audio.peak, 4);
    assert_eq!(state.playback_audio.rms, 3);
    assert_eq!(state.playback_audio.history_sample(0), Some(3));
    toggle_event_log(&mut state, 9);
    assert!(state.event_logging_enabled);
    assert_eq!(state.events.back().unwrap().detail, "SD event log enabled");
    poweroff_preparation_finished(&mut state, true, false);
    assert!(!state.poweroff_prepared);
}

#[test]
fn test_tone_is_a_440_hz_triangle() {
    let (block, next) = test_tone_block(0);
    assert_eq!(block.len(), 512);
    assert_eq!(block[0], -8000);
    assert_eq!(block[1], -8000);
    assert_eq!(next, 256u32.wrapping_mul(TONE_PHASE_STEP));
    let peak = block.iter().map(|s| s.unsigned_abs()).max().unwrap();
    assert!(peak <= 8000);
    for k in 0..256 {
        assert_eq!(block[2 * k], block[2 * k + 1]);
    }
    let mid = 32_768u32 << 16;
    let (turn, _) = test_tone_block(mid);
    assert_eq!(turn[0], 7_999);
}

#[test]
fn wav_appends_stop_at_the_riff_limit_and_checkpoint_each_second() {
    let mut progress = RecorderProgress::new();
    let bytes = progress.plan_append(&[1, -1, 256]).unwrap();
    assert_eq!(bytes, vec![1, 0, 0xff, 0xff, 0, 1]);
    let chunk = vec![7i16; 600];
    assert_eq!(progress.plan_append(&chunk).unwrap().len(), 1024);
    assert!(!progress.committed(95_999));
    assert!(progress.committed(1));
    assert_eq!(progress.checkpoint_bytes, 96_000);
    let full = RecorderProgress { data_bytes: 4_294_967_258, checkpoint_bytes: 0 };
    assert_eq!(full.plan_append(&[1]), Err(WavError::Truncated));
    assert_eq!(full.header_length(), 4_294_967_258u64 as u32);
}

#[test]
fn touch_actions_map_to_steps_or_refusals() {
    let mut state = DashboardState::default();
    assert_eq!(
        plan_touch349_action(UiAction::ToggleRecording, &state, false, false),
        Err(TouchActionError::CardNotMounted)
    );
    state.storage.mounted = true;
    assert_eq!(
        plan_touch349_action(UiAction::ToggleRecording, &state, false, false),
        Err(TouchActionError::MicrophoneNotReady)
    );
    state.audio.health = Health::Healthy;
    assert_eq!(plan_touch349_action(UiAction::ToggleRecording, &state, false, false), Ok(TouchStep::StartRecorder));
    assert_eq!(
        plan_touch349_action(UiAction::OpenLastRecording, &state, false, false),
        Err(TouchActionError::NoRecording)
    );
    state.last_recording = "R000002.WAV".into();
    assert_eq!(
        plan_touch349_action(UiAction::OpenLastRecording, &state, false, false),
        Err(TouchActionError::RecordingNotOnCard)
    );
    state.files = vec![file("R000001.WAV", 1, FileKind::Wav), file("R000002.WAV", 1, FileKind::Wav)];
    assert_eq!(
        plan_touch349_action(UiAction::ToggleLastRecording, &state, false, false),
        Ok(TouchStep::OpenEntry { index: 1, play: true })
    );
    assert_eq!(
        plan_touch349_action(UiAction::TogglePlayback, &state, false, true),
        Err(TouchActionError::NoWavOpen)
    );
    assert_eq!(
        plan_touch349_action(UiAction::TogglePlayback, &state, true, false),
        Err(TouchActionError::SpeakerNotReady)
    );
    assert_eq!(plan_touch349_action(UiAction::TogglePlayback, &state, true, true), Ok(TouchStep::FlipPlayback));
    assert_eq!(
        plan_touch349_action(UiAction::SpeakerTest, &state, true, true),
        Err(TouchActionError::SpeakerTestUnavailable)
    );
    state.speaker_volume = 85;
    assert_eq!(plan_touch349_action(UiAction::CycleVolume, &state, true, true), Ok(TouchStep::SetVolume(100)));
    assert_eq!(
        plan_touch349_action(UiAction::ViewerTop, &state, true, true),
        Err(TouchActionError::NoFileOpen)
    );
}

#[test]
fn touch_media_opens_in_player_or_in_place() {
    let mut state = DashboardState::default();
    state.view = View::Recorder;
    touch_media_opened(&mut state, "R1.WAV".into(), 2_000, true);
    assert_eq!(state.view, View::Recorder);
    assert!(state.playing);
    assert_eq!(state.playback_audio.health, Health::Error);
    touch_media_opened(&mut state, "R1.WAV".into(), 2_000, false);
    assert_eq!(state.view, View::Player);
    assert!(!state.playing);
    close_player(&mut state);
    assert_eq!(state.view, View::Files);
    assert!(state.playback_name.is_empty());
}

#[test]
fn recorder_polls_finish_recordings() {
    let mut state = DashboardState::default();
    let mut pending = false;
    assert_eq!(apply_recorder_stats(&mut state, None, &mut pending, 1), RecorderPoll::Unavailable);
    assert_eq!(state.audio.health, Health::Error);
    let stats = RecorderStats { bytes_written: 4_000, rms: 70_000, peak: 10, last_error: 0, ready: true, recording: true };
    assert_eq!(apply_recorder_stats(&mut state, Some(stats), &mut pending, 2), RecorderPoll::Recording);
    assert!(state.recording);
    assert_eq!(state.audio.rms, u16::MAX);
    assert_eq!(state.audio.frames_total, 1_000);
    state.recording_name = "R000009.WAV".into();
    let done = RecorderStats { recording: false, ..stats };
    assert_eq!(apply_recorder_stats(&mut state, Some(done), &mut pending, 3), RecorderPoll::Saved);
    assert_eq!(state.last_recording, "R000009.WAV");
    assert_eq!(state.events.back().unwrap().detail, "saved 4000 bytes");
    pending = true;
    let failed = RecorderStats { last_error: -5, ..done };
    assert_eq!(apply_recorder_stats(&mut state, Some(failed), &mut pending, 4), RecorderPoll::SaveFailed);
    assert!(!pending);
    assert_eq!(state.storage.write_errors, 1);
    assert_eq!(state.events.back().unwrap().detail, "save failed -5");
    assert_eq!(apply_recorder_stats(&mut state, Some(done), &mut pending, 5), RecorderPoll::Idle);
    state.view = View::Live;
    assert!(apply_live_levels(&mut state, Some((5, 9))));
    assert!(!apply_live_levels(&mut state, None));
}

#[test]
fn wav_reads_never_split_a_sample() {
    assert_eq!(read_window(1_000, 0, 1024), 1_000);
    assert_eq!(read_window(10_000, 0, 1024), 2_048);
    assert_eq!(read_window(1_001, 1_000, 1024), 0);
    assert_eq!(read_window(10, 20, 1024), 0);
}

#[test]
fn network_and_clock_readings() {
    let mut state = DashboardState::default();
    apply_network_stats(&mut state, true, 3, -61, [192, 168, 4, 20], "lab");
    assert_eq!(state.wifi.ipv4, "192.168.4.20");
    assert_eq!(state.wifi.health, Health::Healthy);
    assert_eq!(state.wifi.rssi_dbm, -61);
    apply_network_stats(&mut state, false, 3, -61, [0; 4], "lab");
    assert_eq!(state.wifi.ipv4, "CONNECTING");
    assert_eq!(state.wifi.health, Health::Stale);
    assert_eq!(civil_date(0), (1970, 1, 1));
    assert_eq!(civil_date(19_723), (2024, 1, 1));
    assert_eq!(civil_date(19_782), (2024, 2, 29));
    assert_eq!(civil_date(-1), (1969, 12, 31));
    apply_epoch_clock(&mut state, true, Some(1_704_067_200));
    assert_eq!(state.clock.health, Health::Healthy);
    assert_eq!((state.clock.year, state.clock.month, state.clock.day), (2024, 1, 1));
    assert_eq!((state.clock.hour, state.clock.minute, state.clock.second), (5, 30, 0));
    assert_eq!(state.clock.weekday, 1);
    assert_eq!(state.clock.zone, "IST");
    apply_epoch_clock(&mut state, false, None);
    assert_eq!(state.clock.health, Health::Stale);
}

#[test]
fn touch_boot_state() {
    let state = touch349_initial_state(true, 32 * 1024 * 1024, 1024 * 1024);
    assert_eq!(state.display_brightness, 80);
    assert_eq!(state.battery.percent, 78);
    assert_eq!(state.storage.total_kib, 32 * 1024);
    assert_eq!(state.storage.health, Health::Healthy);
    assert_eq!(state.runtime.loop_hz, 50);
    assert_eq!(state.events.len(), 1);
    assert_eq!(state.events[0].detail, "Touch349 product UI started");
    let offline = touch349_initial_state(false, 0, 0);
    assert_eq!(offline.storage.health, Health::Error);
}

#[test]
fn console_commands_plan_work() {
    let cmd = parse_console_command("  play stop ").unwrap();
    assert_eq!(plan_console_command(cmd.kind, &cmd.name, false, false, false), Err(ConsoleError::NoWavOpen));
    assert_eq!(
        plan_console_command(cmd.kind, &cmd.name, true, false, false),
        Ok(ConsoleStep::Dispatch(UiAction::StopPlayback))
    );
    let cmd = parse_console_command("record stop").unwrap();
    assert_eq!(plan_console_command(cmd.kind, &cmd.name, false, false, false), Err(ConsoleError::RecorderIdle));
    let cmd = parse_console_command("file stat   notes.txt ").unwrap();
    assert_eq!(cmd.kind, CommandKind::FileStat);
    assert_eq!(cmd.name, "notes.txt");
    assert_eq!(plan_console_command(cmd.kind, &cmd.name, false, false, false), Ok(ConsoleStep::StatFile));
    assert_eq!(plan_console_command(CommandKind::FileRead, "", false, false, false), Err(ConsoleError::NameRequired));
    let cmd = parse_console_command("reboot").unwrap();
    assert_eq!(plan_console_command(cmd.kind, &cmd.name, false, false, false), Err(ConsoleError::UnknownCommand));
    let files = vec![file("notes.txt", 3, FileKind::Text), file("R1.WAV", 3, FileKind::Wav)];
    assert_eq!(wav_entry(&files, "R1.WAV"), Ok(1));
    assert_eq!(wav_entry(&files, "notes.txt"), Err(ConsoleError::NotWav));
    assert_eq!(wav_entry(&files, "none"), Err(ConsoleError::FileNotFound));
}

#[test]
fn console_dump_is_sixteen_bytes_per_line() {
    let bytes: Vec<u8> = (0..20).collect();
    let lines = console_hex_lines(&bytes);
    assert_eq!(lines.len(), 2);
    assert_eq!(lines[0], "CMD DATA offset=0000 00 01 02 03 04 05 06 07 08 09 0A 0B 0C 0D 0E 0F");
    assert_eq!(lines[1], "CMD DATA offset=0010 10 11 12 13");
    assert!(console_hex_lines(&[]).is_empty());
}

#[test]
fn file_list_is_sorted_ignoring_case() {
    let files = vec![
        file("b.txt", 1, FileKind::Text),
        file("A.WAV", 2, FileKind::Wav),
        file("a.wav", 3, FileKind::Wav),
        file("Z/c.md", 4, FileKind::Text),
        file("b.TXT", 5, FileKind::Text),
    ];
    let sorted = sort_files(files);
    let names: Vec<&str> = sorted.iter().map(|f| f.name.as_str()).collect();
    assert_eq!(names, ["A.WAV", "a.wav", "b.txt", "b.TXT", "Z/c.md"]);
    assert!(names_in_order("abc", "ABD"));
    assert!(!names_in_order("abd", "ABC"));
    assert!(names_in_order("ab", "ab"));
    assert!(names_in_order("ab", "abc"));
    assert_eq!(find_file(&sorted, "b.TXT"), Some(3));
    assert_eq!(find_file(&sorted, "c.md"), None);
    assert!(visible_name("dir/file.txt"));
    assert!(!visible_name(".hidden"));
    assert!(!visible_name("dir/.cache/x"));
}

#[test]
fn rescans_clamp_the_selection() {
    let mut state = DashboardState::default();
    state.file_index = 9;
    files_refreshed(&mut state, vec![file("a", 1, FileKind::Other), file("b", 1, FileKind::Other)]);
    assert_eq!(state.file_index, 1);
    storage_refreshed(&mut state, 8 * 1024 * 1024, 2048, Vec::new());
    assert_eq!(state.file_index, 0);
    assert!(state.storage.mounted);
    assert_eq!(state.storage.free_kib, 2);
    assert_eq!(viewer_start(700, 512), 512);
    viewer_page_loaded(&mut state, "n.txt".into(), 512, 0, "hi".into(), 512);
    assert_eq!(state.view, View::Viewer);
    assert_eq!(state.viewer_next_offset, 512);
}

#[test]
fn consecutive_days_walk_the_calendar() {
    fn leap(y: u32) -> bool {
        y % 4 == 0 && (y % 100 != 0 || y % 400 == 0)
    }
    fn month_len(y: u32, m: u32) -> u32 {
        match m {
            2 => {
                if leap(y) {
                    29
                } else {
                    28
                }
            }
            4 | 6 | 9 | 11 => 30,
            _ => 31,
        }
    }
    let mut expected: (u32, u32, u32) = (1999, 12, 31);
    let start: i64 = 10_956;
    for days in start..start + 1_200 {
        let (y, m, d) = civil_date(days);
        assert_eq!((y as u32, m as u32, d as u32), expected);
        let (ey, em, ed) = expected;
        expected = if ed < month_len(ey, em) {
            (ey, em, ed + 1)
        } else if em < 12 {
            (ey, em + 1, 1)
        } else {
            (ey + 1, 1, 1)
        };
    }
}
