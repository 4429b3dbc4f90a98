use hmi::console::{confirm_delete, prepare_delete, ArmedDelete, DeleteError};
use hmi::dashboard::{DashboardState, FileEntry, FileKind, UiAction, View};
use hmi::files::SdPathError;
use hmi::input::{Button, ButtonEngine, Gesture, InputEvent};
use hmi::media::{MediaError, PoweroffPreparation, PoweroffStep, SPEAKER_TEST_BLOCKS};
use hmi::runloop::{DisplaySync, TouchTracker};
use hmi::st7305::{BusOp, BusRun, Error, FrameBuffer, St7305, StartupStage, StepOutcome};
use hmi::touch349::Touch349Point;
use hmi::touch_runtime::{
    civil_date, console_hex_lines, plan_touch349_action, read_window, ConsoleError, TouchActionError,
};
use hmi::wav::WavError;

#[test]
fn delete_refusals_answer_with_their_texts() {
    let armed = Some(ArmedDelete { name: "A.TXT".to_string(), expires_ms: 10_000 });
    let refused = confirm_delete(&armed, "B.TXT", false, "", "", 5_000).unwrap_err();
    assert_eq!(refused, DeleteError::NameMismatch);
    assert_eq!(refused.message(true), "delete name does not match armed file");
    let refused = confirm_delete(&None, "B.TXT", false, "", "", 5_000).unwrap_err();
    assert_eq!(refused.message(true), "delete is not armed");
    let refused = confirm_delete(&armed, "A.TXT", false, "", "", 10_001).unwrap_err();
    assert_eq!(refused.message(true), "delete confirmation expired");
    let refused = prepare_delete("", false, "", "", 0).unwrap_err();
    assert_eq!(refused.message(false), "file name is required");
    assert_eq!(DeleteError::OpenInPlayer.message(true), "open WAV cannot be deleted; send play close");
    assert_eq!(
        DeleteError::OpenInPlayer.message(false),
        "open WAV cannot be deleted; send play stop and open another view"
    );
    assert_eq!(DeleteError::ActiveRecording.message(false), "active recording cannot be deleted");
}

#[test]
fn touch_action_refusals_answer_with_their_texts() {
    let state = DashboardState::default();
    let refused = plan_touch349_action(UiAction::ToggleRecording, &state, false, false).unwrap_err();
    assert_eq!(refused, TouchActionError::CardNotMounted);
    assert_eq!(refused.message(), "SD card is not mounted");
    assert_eq!(TouchActionError::StopRecordingFirst.message(), "stop recording before playback");
    assert_eq!(
        TouchActionError::SpeakerTestUnavailable.message(),
        "speaker test is not exposed on this screen"
    );
}

#[test]
fn console_media_wav_and_path_texts() {
    assert_eq!(ConsoleError::UnknownCommand.message(), "unknown command; send help");
    assert_eq!(ConsoleError::NotWav.message(), "file is not a WAV recording");
    assert_eq!(MediaError::RecordingActive.message(), "stop recording before testing the speaker");
    assert_eq!(MediaError::CardNotMounted.message(), "SD card is not mounted");
    assert_eq!(WavError::NotRiffWave.message(true), "invalid WAV");
    assert_eq!(WavError::NotRiffWave.message(false), "not a RIFF/WAVE file");
    assert_eq!(WavError::Truncated.message(false), "WAV reached the RIFF size limit");
    assert_eq!(WavError::ChunkLengthOverflow.message(true), "WAV chunk length overflow");
    assert_eq!(SdPathError::ParentDir.message(true), "parent SD path is not allowed");
    assert_eq!(SdPathError::ParentDir.message(false), "unsafe SD path");
}

#[test]
fn large_reads_and_dumps_have_no_chosen_limit() {
    assert_eq!(read_window(u64::MAX, 0, usize::MAX), u64::MAX);
    assert_eq!(read_window(5_000_000, 1_000_000, 4_000_000), 4_000_000);
    let bytes = vec![0xabu8; 5_000];
    let lines = console_hex_lines(&bytes);
    assert_eq!(lines.len(), 313);
    assert_eq!(lines[312], "CMD DATA offset=1380 AB AB AB AB AB AB AB AB");
}

#[test]
fn bus_run_stops_at_the_first_failure() {
    let mut run: BusRun<u8, u16> = BusRun::new();
    assert_eq!(run.next_step(3), Some(0));
    run.record(StepOutcome::Done);
    assert_eq!(run.next_step(3), Some(1));
    run.record(StepOutcome::PinFailed(7));
    assert_eq!(run.next_step(3), None);
    run.record(StepOutcome::SpiFailed(9));
    assert_eq!(run.completed, 1);
    assert!(matches!(run.finish(), Err(Error::Pin(7))));

    let mut run: BusRun<u8, u16> = BusRun::new();
    run.record(StepOutcome::SpiFailed(4));
    assert!(matches!(run.finish(), Err(Error::Spi(4))));

    let mut run: BusRun<u8, u16> = BusRun::new();
    while run.next_step(2).is_some() {
        run.record(StepOutcome::Done);
    }
    assert_eq!(run.completed, 2);
    assert!(run.finish().is_ok());
}

#[test]
fn startup_configures_clears_draws_then_shows() {
    let panel = St7305::new((), (), ());
    let mut dashboard = FrameBuffer::new();
    dashboard.clear_white();
    let plan = panel.startup(&dashboard);
    let stages: Vec<StartupStage> = plan.iter().map(|(stage, _)| *stage).collect();
    assert_eq!(
        stages,
        vec![StartupStage::Init, StartupStage::Clear, StartupStage::Dashboard, StartupStage::DisplayOn]
    );
    assert!(matches!(plan[0].1[0], BusOp::Reset(true)));
    assert!(matches!(&plan[3].1[1], BusOp::Write(bytes) if bytes == &vec![0x29]));
    assert!(matches!(&plan[1].1[11], BusOp::Write(bytes) if bytes.len() == 15_000 && bytes.iter().all(|b| *b == 0xff)));
    assert_eq!(StartupStage::Init.failure_message(), "ST7305 initialization failed");
    assert_eq!(StartupStage::Clear.failure_message(), "ST7305 startup clear failed");
    assert_eq!(StartupStage::Dashboard.failure_message(), "ST7305 startup dashboard failed");
    assert_eq!(StartupStage::DisplayOn.failure_message(), "ST7305 display enable failed");
}

#[test]
fn poweroff_skips_playback_after_a_failed_recording_stop() {
    let mut state = DashboardState::default();
    state.prepare_poweroff_requested = true;
    state.poweroff_prepared = true;
    let mut prep = PoweroffPreparation::start(&mut state, 5);
    assert!(!state.poweroff_prepared);
    assert_eq!(prep.next, PoweroffStep::StopRecording);
    prep.recording_stopped(false);
    assert_eq!(prep.next, PoweroffStep::FlushLog);
    prep.playback_stopped();
    assert_eq!(prep.next, PoweroffStep::FlushLog);
    prep.log_flushed(&mut state, true);
    assert_eq!(prep.next, PoweroffStep::Done);
    assert!(!state.poweroff_prepared);
    assert!(!state.prepare_poweroff_requested);

    let mut state = DashboardState::default();
    state.prepare_poweroff_requested = true;
    let mut prep = PoweroffPreparation::start(&mut state, 5);
    prep.recording_stopped(true);
    assert_eq!(prep.next, PoweroffStep::StopPlayback);
    prep.playback_stopped();
    prep.log_flushed(&mut state, true);
    assert!(state.poweroff_prepared);
    assert_eq!(SPEAKER_TEST_BLOCKS, 24);
}

#[test]
fn presses_shorter_than_the_debounce_window_are_ignored() {
    let mut buttons = ButtonEngine::default();
    assert_eq!(buttons.sample(Button::Boot, true, 100), None);
    assert_eq!(buttons.sample(Button::Boot, false, 110), None);
    assert_eq!(buttons.sample(Button::Boot, true, 120), None);
    assert_eq!(buttons.sample(Button::Boot, true, 134), None);
    assert_eq!(buttons.held_ms(Button::Boot, 134), 0);
    assert_eq!(buttons.sample(Button::Boot, false, 300), None);
    assert_eq!(buttons.held_ms(Button::Boot, 300), 0);
}

#[test]
fn one_press_reports_one_gesture() {
    let mut buttons = ButtonEngine::default();
    assert_eq!(buttons.sample(Button::Key, true, 0), None);
    assert_eq!(buttons.sample(Button::Key, true, 35), None);
    assert_eq!(buttons.sample(Button::Key, true, 600), None);
    let long = buttons.sample(Button::Key, true, 700).unwrap();
    assert_eq!(long.gesture, Gesture::LongPress);
    assert_eq!(long.held_ms, 665);
    assert_eq!(buttons.sample(Button::Key, true, 900), None);
    assert_eq!(buttons.sample(Button::Key, false, 950), None);
    assert_eq!(buttons.sample(Button::Key, false, 990), None);
    assert_eq!(buttons.held_ms(Button::Key, 990), 0);

    assert_eq!(buttons.sample(Button::Key, true, 2_000), None);
    assert_eq!(buttons.sample(Button::Key, true, 2_040), None);
    assert_eq!(buttons.sample(Button::Key, false, 2_200), None);
    let click = buttons.sample(Button::Key, false, 2_240).unwrap();
    assert_eq!(click.gesture, Gesture::Click);
    assert_eq!(click.held_ms, 200);
}

#[test]
fn a_rendered_frame_goes_out_within_the_timeout() {
    let mut sync = DisplaySync { pending: true, pending_since_ms: 1_000, te_enabled: true, last_display_ms: 0 };
    assert!(!sync.plan_flush(1_099, false).flush);
    let decision = sync.plan_flush(1_100, false);
    assert!(decision.flush && decision.te_timed_out);
    assert!(!sync.te_enabled);
}

#[test]
fn a_tap_is_released_once() {
    let point = Touch349Point { x: 40, y: 300 };
    let mut touch = TouchTracker::new(0);
    assert_eq!(touch.update(Some(point), 10), None);
    assert_eq!(touch.update(None, 30), None);
    assert_eq!(touch.update(None, 65), Some(point));
    assert_eq!(touch.update(None, 200), None);
    assert_eq!(touch.update(None, 5_000), None);
}

#[test]
fn day_counts_give_valid_calendar_dates() {
    assert_eq!(civil_date(0), (1970, 1, 1));
    assert_eq!(civil_date(11_016), (2000, 2, 29));
    assert_eq!(civil_date(11_017), (2000, 3, 1));
    assert_eq!(civil_date(-1), (1969, 12, 31));
    assert_eq!(civil_date(47_540), (2100, 2, 28));
    assert_eq!(civil_date(47_541), (2100, 3, 1));
}

#[test]
fn selections_wrap_and_clamp_inside_their_lists() {
    let boot_click = InputEvent { button: Button::Boot, gesture: Gesture::Click, held_ms: 80 };
    let mut state = DashboardState::default();
    state.view = View::Menu;
    state.menu_index = 4;
    state.apply_input(boot_click, 10);
    assert_eq!(state.menu_index, 0);
    state.view = View::Settings;
    state.settings_index = 5;
    state.apply_input(boot_click, 20);
    assert_eq!(state.settings_index, 0);
    state.view = View::Files;
    state.files = vec![
        FileEntry { name: "A.WAV".into(), size: 1, kind: FileKind::Wav },
        FileEntry { name: "B.TXT".into(), size: 2, kind: FileKind::Text },
    ];
    state.file_index = 1;
    state.apply_input(boot_click, 30);
    assert_eq!(state.file_index, 0);
    state.apply_touch349(40, 68 + 5 * 72 + 10, 40);
    assert_eq!(state.file_index, 1);
}
