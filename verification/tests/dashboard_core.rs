use hmi::audio::level_height;
use hmi::dashboard::{DashboardState, UiAction, View, EVENT_CAPACITY};
use hmi::graphics::{Point, Rgb565, Size};
use hmi::input::{Button, ButtonEngine, Gesture, InputEvent};
use hmi::telemetry::{AudioTelemetry, AUDIO_HISTORY_CAPACITY};
use hmi::touch349::{
    decode_touch349_packet, Touch349FrameBuffer, Touch349Point, TOUCH349_FRAME_BYTES,
    TOUCH349_PIXELS,
};

#[test]
fn touch349_framebuffer_has_exact_geometry_and_rgb565_storage() {
    let mut pixels = vec![0u16; TOUCH349_PIXELS];
    let red = Rgb565::new(31, 0, 0);
    let mut frame = Touch349FrameBuffer::new(&mut pixels).unwrap();
    frame.set_pixel(Point::new(171, 639), red);
    assert_eq!(frame.size(), Size::new(172, 640));
    assert_eq!(frame.pixels()[TOUCH349_PIXELS - 1], red.into_storage());
    assert_eq!(TOUCH349_FRAME_BYTES, 220_160);
}

#[test]
fn touch349_framebuffer_rejects_wrong_length() {
    let mut pixels = [0u16; 16];
    assert!(Touch349FrameBuffer::new(&mut pixels).is_none());
}

#[test]
fn touch349_packet_decodes_portrait_coordinates_and_release() {
    let mut packet = [0u8; 32];
    assert_eq!(decode_touch349_packet(&packet), None);
    packet[1] = 1;
    packet[2] = 0x01;
    packet[3] = 0x00;
    packet[4] = 0x00;
    packet[5] = 0x56;
    assert_eq!(
        decode_touch349_packet(&packet),
        Some(Touch349Point { x: 86, y: 383 })
    );
}

#[test]
fn touch349_packet_clamps_to_visible_edges() {
    let packet = [0, 1, 0x0f, 0xff, 0x0f, 0xff];
    assert_eq!(
        decode_touch349_packet(&packet),
        Some(Touch349Point { x: 171, y: 0 })
    );
}

#[test]
fn touch349_home_tiles_and_navigation_are_direct() {
    let mut state = DashboardState::default();
    state.apply_touch349(120, 270, 10);
    assert_eq!(state.view, View::Files);
    state.apply_touch349(120, 610, 20);
    assert_eq!(state.view, View::Menu);
    state.apply_touch349(30, 610, 25);
    assert_eq!(state.view, View::Home);
    state.apply_touch349(30, 390, 30);
    assert_eq!(state.view, View::Live);
}

#[test]
fn touch349_settings_rows_change_visible_values() {
    let mut state = DashboardState {
        view: View::Settings,
        ..DashboardState::default()
    };
    assert!(state.apply_touch349(40, 100, 10));
    assert_eq!(state.display_brightness, 100);
    assert!(!state.apply_touch349(40, 190, 20));
    assert_eq!(state.display_fps, 0);
    assert_eq!(state.take_action(), Some(UiAction::RefreshDisplay));
}

#[test]
fn touch349_brightness_never_goes_below_twenty_percent() {
    let mut state = DashboardState {
        view: View::Settings,
        ..DashboardState::default()
    };
    let mut values = Vec::new();
    for now_ms in 1..=8 {
        assert!(state.apply_touch349(40, 100, now_ms));
        values.push(state.display_brightness);
        assert!(state.display_brightness >= 20);
    }
    assert_eq!(values, [100, 20, 50, 80, 100, 20, 50, 80]);
}

#[test]
fn touch349_speaker_test_has_a_direct_touch_path() {
    let mut state = DashboardState {
        view: View::Settings,
        ..DashboardState::default()
    };
    assert!(!state.apply_touch349(80, 400, 10));
    assert_eq!(state.view, View::Diagnostics);
    assert!(!state.apply_touch349(80, 515, 20));
    assert_eq!(state.take_action(), Some(UiAction::SpeakerTest));
}

#[test]
fn touch349_recorder_can_play_and_stop_the_last_recording_in_place() {
    let mut state = DashboardState {
        view: View::Recorder,
        last_recording: "R000001.WAV".into(),
        ..DashboardState::default()
    };
    assert!(!state.apply_touch349(80, 440, 10));
    assert_eq!(state.view, View::Recorder);
    assert_eq!(state.take_action(), Some(UiAction::ToggleLastRecording));

    state.playing = true;
    assert!(!state.apply_touch349(80, 440, 20));
    assert_eq!(state.view, View::Recorder);
    assert_eq!(state.take_action(), Some(UiAction::ToggleLastRecording));

    state.playing = false;
    assert!(!state.apply_touch349(80, 515, 30));
    assert_eq!(state.take_action(), Some(UiAction::ToggleRecording));
}

#[test]
fn click_is_emitted_after_debounced_release() {
    let mut engine = ButtonEngine::default();
    assert_eq!(engine.sample(Button::Key, true, 10), None);
    assert_eq!(engine.sample(Button::Key, true, 50), None);
    assert_eq!(engine.sample(Button::Key, false, 100), None);
    let event = engine.sample(Button::Key, false, 140).unwrap();
    assert_eq!(event.gesture, Gesture::Click);
    assert_eq!(event.held_ms, 90);
}

#[test]
fn long_press_is_emitted_once_and_suppresses_click() {
    let mut engine = ButtonEngine::default();
    engine.sample(Button::Boot, true, 0);
    engine.sample(Button::Boot, true, 40);
    let event = engine.sample(Button::Boot, true, 700).unwrap();
    assert_eq!(event.gesture, Gesture::LongPress);
    assert_eq!(engine.sample(Button::Boot, true, 900), None);
    engine.sample(Button::Boot, false, 1_000);
    assert_eq!(engine.sample(Button::Boot, false, 1_040), None);
}

#[test]
fn event_buffer_is_bounded() {
    let mut state = DashboardState::default();
    for i in 0..(EVENT_CAPACITY + 5) {
        state.record(i as u64, "TEST", "sample");
    }
    assert_eq!(state.events.len(), EVENT_CAPACITY);
    assert_eq!(state.runtime.dropped_events, 5);
    assert_eq!(state.events.front().unwrap().seq, 6);
}

#[test]
fn all_four_runtime_gestures_have_safe_actions() {
    let mut state = DashboardState::default();
    for button in Button::ALL {
        for gesture in [Gesture::Click, Gesture::LongPress] {
            state.apply_input(
                InputEvent {
                    button,
                    gesture,
                    held_ms: 700,
                },
                1_000,
            );
        }
    }
    assert_eq!(state.events.len(), 4);
    assert_eq!(state.view, View::Home);
    assert!(!state.prepare_poweroff_requested);
}

#[test]
fn runtime_navigation_matches_physical_left_and_right_buttons() {
    let mut state = DashboardState::default();
    state.apply_input(
        InputEvent {
            button: Button::Key,
            gesture: Gesture::Click,
            held_ms: 90,
        },
        100,
    );
    assert_eq!(state.view, View::Home);

    state.apply_input(
        InputEvent {
            button: Button::Boot,
            gesture: Gesture::Click,
            held_ms: 90,
        },
        200,
    );
    assert_eq!(state.view, View::Menu);

    state.view = View::Player;
    state.apply_input(
        InputEvent {
            button: Button::Key,
            gesture: Gesture::Click,
            held_ms: 90,
        },
        300,
    );
    assert_eq!(state.view, View::Files);
    assert_eq!(state.take_action(), Some(UiAction::StopPlayback));
}

#[test]
fn poweroff_preparation_is_explicit_and_never_enters_sleep() {
    let mut state = DashboardState::default();
    state.view = View::Settings;
    state.settings_index = 5;
    state.apply_input(
        InputEvent {
            button: Button::Boot,
            gesture: Gesture::LongPress,
            held_ms: 700,
        },
        100,
    );
    assert_eq!(state.take_action(), Some(UiAction::PreparePoweroff));
}

#[test]
fn audio_history_scrolls_and_stays_bounded() {
    let mut audio = AudioTelemetry::default();
    for level in 0..(AUDIO_HISTORY_CAPACITY as u16 + 5) {
        audio.push_level(level);
    }
    assert_eq!(audio.history_len as usize, AUDIO_HISTORY_CAPACITY);
    assert_eq!(audio.history_sample(0), Some(5));
    assert_eq!(
        audio.history_sample(AUDIO_HISTORY_CAPACITY - 1),
        Some(AUDIO_HISTORY_CAPACITY as u16 + 4)
    );
}

#[test]
fn audio_level_height_is_fixed_scale_and_monotonic() {
    assert_eq!(level_height(0, 100), 0);
    assert_eq!(level_height(16_384, 100), 50);
    assert_eq!(level_height(32_768, 100), 100);
    assert_eq!(level_height(u16::MAX, 100), 100);
    for sample in 0..32_768u16 {
        assert!(level_height(sample, 100) <= level_height(sample + 1, 100));
    }
}

#[test]
fn persistence_is_opt_in_and_menu_entry_is_predictable() {
    let mut state = DashboardState::default();
    assert!(!state.recording);
    assert!(!state.event_logging_enabled);
    state.menu_index = 4;
    state.apply_input(
        InputEvent {
            button: Button::Boot,
            gesture: Gesture::Click,
            held_ms: 100,
        },
        10,
    );
    assert_eq!(state.view, View::Menu);
    assert_eq!(state.menu_index, 0);
}

#[test]
fn key_moves_up_exactly_one_level_and_hold_returns_home() {
    let mut state = DashboardState::default();
    state.view = View::Player;
    state.apply_input(
        InputEvent {
            button: Button::Key,
            gesture: Gesture::Click,
            held_ms: 100,
        },
        10,
    );
    assert_eq!(state.view, View::Files);
    state.apply_input(
        InputEvent {
            button: Button::Key,
            gesture: Gesture::Click,
            held_ms: 100,
        },
        20,
    );
    assert_eq!(state.view, View::Menu);
    state.apply_input(
        InputEvent {
            button: Button::Key,
            gesture: Gesture::LongPress,
            held_ms: 700,
        },
        30,
    );
    assert_eq!(state.view, View::Home);
}

#[test]
fn leaving_recorder_stops_an_active_recording() {
    let mut state = DashboardState::default();
    state.view = View::Recorder;
    state.recording = true;
    state.apply_input(
        InputEvent {
            button: Button::Key,
            gesture: Gesture::Click,
            held_ms: 100,
        },
        10,
    );
    assert_eq!(state.view, View::Menu);
    assert_eq!(state.take_action(), Some(UiAction::ToggleRecording));
}

#[test]
fn a_new_input_invalidates_poweroff_readiness_and_stale_actions() {
    let mut state = DashboardState::default();
    state.view = View::Settings;
    state.settings_index = 5;
    state.apply_input(
        InputEvent {
            button: Button::Boot,
            gesture: Gesture::LongPress,
            held_ms: 700,
        },
        10,
    );
    assert_eq!(state.take_action(), Some(UiAction::PreparePoweroff));
    state.poweroff_prepared = true;

    state.apply_input(
        InputEvent {
            button: Button::Boot,
            gesture: Gesture::Click,
            held_ms: 100,
        },
        20,
    );
    assert!(!state.poweroff_prepared);
    assert_eq!(state.take_action(), None);
}
