use hmi::dashboard::{DashboardState, FileEntry, FileKind, SpeakerTestState, UiAction, View};
use hmi::demo::{demo_state, page_view};
use hmi::draw::{DrawCmd, Font};
use hmi::graphics::{BinaryColor, Rgb565};
use hmi::rlcd::{
    event_row, file_row, footer_labels, month_name, network_label, progress_width,
    recording_elapsed_s, render_dashboard, segment_mask, temperature_text, weekday_name,
};
use hmi::telemetry::Health;
use hmi::touch_ui::{render_touch349_dashboard, tone_color, Tone};

fn on_panel<C>(cmd: &DrawCmd<C>, w: i32, h: i32) -> bool {
    match cmd {
        DrawCmd::Clear(_) => true,
        DrawCmd::Fill { x, y, width, height, .. } | DrawCmd::Outline { x, y, width, height, .. } => {
            *x >= 0 && *y >= 0 && *x + *width as i32 <= w && *y + *height as i32 <= h
        }
        DrawCmd::Line { x0, y0, x1, y1, .. } => {
            (0..w).contains(x0) && (0..w).contains(x1) && (0..h).contains(y0) && (0..h).contains(y1)
        }
        DrawCmd::Pixel { x, y, .. } | DrawCmd::Text { x, y, .. } => {
            (0..w).contains(x) && (0..h).contains(y)
        }
    }
}

fn texts<C>(cmds: &[DrawCmd<C>]) -> Vec<String> {
    cmds.iter()
        .filter_map(|c| match c {
            DrawCmd::Text { text, .. } => Some(text.clone()),
            _ => None,
        })
        .collect()
}

const PAGES: [&str; 9] = [
    "home", "menu", "recorder", "files", "player", "viewer", "live", "diagnostics", "settings",
];

#[test]
fn every_rlcd_page_starts_white_stays_on_panel_and_ends_with_the_legend() {
    for page in PAGES {
        let mut state = demo_state();
        state.view = page_view(page);
        let cmds = render_dashboard(&state);
        assert!(matches!(cmds[0], DrawCmd::Clear(BinaryColor::On)));
        assert!(cmds.iter().all(|c| on_panel(c, 300, 400)), "page {page}");
        let (key, boot) = footer_labels(state.view);
        let n = cmds.len();
        assert!(matches!(
            cmds[n - 4],
            DrawCmd::Fill { x: 0, y: 376, width: 300, height: 24, color: BinaryColor::Off }
        ));
        let all = texts(&cmds);
        assert_eq!(all[all.len() - 3], key);
        assert_eq!(all[all.len() - 2], "PWR HOLD OFF");
        assert_eq!(all[all.len() - 1], boot);
    }
}

#[test]
fn rlcd_home_shows_time_date_and_readings() {
    let state = demo_state();
    let all = texts(&render_dashboard(&state));
    assert!(all.contains(&"37".to_string()));
    assert!(all.contains(&"SUN  09 AUG 2026".to_string()));
    assert!(all.contains(&"26.8 C".to_string()));
    assert!(all.contains(&"57% RH".to_string()));
    assert!(all.contains(&"ONLINE".to_string()));
    assert!(all.contains(&"192.168.1.42".to_string()));
    assert!(all.contains(&"92%".to_string()));
    assert!(all.contains(&"SD READY".to_string()));
}

#[test]
fn rlcd_home_without_time_shows_placeholder() {
    let mut state = demo_state();
    state.clock.health = Health::Stale;
    let all = texts(&render_dashboard(&state));
    assert!(all.contains(&"--:--".to_string()));
    assert!(all.contains(&"SYNCING NETWORK TIME".to_string()));
}

#[test]
fn rlcd_menu_highlights_only_the_selected_row() {
    let mut state = demo_state();
    state.view = View::Menu;
    state.menu_index = 2;
    let cmds = render_dashboard(&state);
    let fills: Vec<i32> = cmds
        .iter()
        .filter_map(|c| match c {
            DrawCmd::Fill { x: 12, y, width: 276, height: 44, .. } => Some(*y),
            _ => None,
        })
        .collect();
    assert_eq!(fills, vec![48 + 2 * 58]);
    assert_eq!(texts(&cmds)[0], "APPS");
}

#[test]
fn rlcd_rows_and_labels_are_formatted_like_the_firmware() {
    assert_eq!(
        file_row("events.ndj", 18_432),
        format!("{:<32} {:>5}K", "events.ndj", 18)
    );
    assert_eq!(
        file_row("a-very-long-recording-name-for-testing.wav", 2048),
        format!("{:<32} {:>5}K", "a-very-long-recording-name-fo...", 2)
    );
    assert_eq!(event_row(120, "BOOT", "firmware started"), "   120 BOOT   firmware started");
    assert_eq!(temperature_text(2_684), "26.8 C");
    assert_eq!(temperature_text(-50), "0.5 C");
    assert_eq!(temperature_text(-1_234), "-12.3 C");
    assert_eq!(weekday_name(0), "SUN");
    assert_eq!(weekday_name(7), "---");
    assert_eq!(month_name(12), "DEC");
    assert_eq!(month_name(0), "---");
    assert_eq!(network_label(Health::Error), "OFFLINE");
    assert_eq!(network_label(Health::Stale), "CONNECTING");
    assert_eq!(recording_elapsed_s(true, 12_450, 2_000), 10);
    assert_eq!(recording_elapsed_s(true, 1_000, 2_000), 0);
    assert_eq!(recording_elapsed_s(false, 12_450, 2_000), 0);
}

#[test]
fn progress_bar_scales_and_saturates() {
    assert_eq!(progress_width(268, 8_300, 18_000), 123);
    assert_eq!(progress_width(268, 30_000, 18_000), 268);
    assert_eq!(progress_width(268, 10, 0), 0);
}

#[test]
fn seven_segment_digits_are_distinct() {
    let masks: Vec<u8> = (0..10).map(segment_mask).collect();
    for a in 0..10 {
        for b in 0..10 {
            if a != b {
                assert_ne!(masks[a], masks[b]);
            }
        }
    }
    assert_eq!(segment_mask(8), 0x7f);
    assert_eq!(segment_mask(42), segment_mask(9));
}

#[test]
fn rlcd_player_and_settings_show_state() {
    let mut state = demo_state();
    state.view = View::Player;
    let all = texts(&render_dashboard(&state));
    assert!(all.contains(&">   PAUSED".to_string()));
    assert!(all.contains(&"00:08 / 00:18       VOL 55%".to_string()));
    state.view = View::Settings;
    state.settings_index = 1;
    let cmds = render_dashboard(&state);
    let all = texts(&cmds);
    assert!(all.contains(&"Speaker volume: 55%".to_string()));
    assert!(all.contains(&"Event log: OFF".to_string()));
}

#[test]
fn rlcd_files_and_viewer_show_rows() {
    let mut state = demo_state();
    state.view = View::Files;
    let all = texts(&render_dashboard(&state));
    assert!(all.contains(&"4 files  |  28223 MiB free".to_string()));
    state.view = View::Viewer;
    let all = texts(&render_dashboard(&state));
    assert!(all.contains(&"events.ndj  18432 B  @512".to_string()));
    assert!(all.contains(&"Paged text and hex viewer".to_string()));
    assert!(all.contains(&String::new()));
}

#[test]
fn every_touch_page_stays_on_panel_and_ends_with_home_and_back() {
    for page in PAGES {
        let mut state = demo_state();
        state.view = page_view(page);
        let cmds = render_touch349_dashboard(&state);
        assert!(matches!(cmds[0], DrawCmd::Clear(c) if c == tone_color(Tone::Background)));
        assert!(cmds.iter().all(|c| on_panel(c, 172, 640)), "page {page}");
        let n = cmds.len();
        let home_color = if state.view == View::Home {
            tone_color(Tone::Accent)
        } else {
            tone_color(Tone::SurfaceAlt)
        };
        assert!(matches!(
            cmds[n - 4],
            DrawCmd::Fill { x: 4, y: 576, width: 80, height: 56, color } if color == home_color
        ));
        let all = texts(&cmds);
        assert_eq!(all[all.len() - 2], "HOME");
        assert_eq!(all[all.len() - 1], "BACK");
    }
}

#[test]
fn touch_palette_packs_channels() {
    assert_eq!(tone_color(Tone::Background).into_storage(), Rgb565::new(1, 3, 5).into_storage());
    assert_eq!(tone_color(Tone::Bad).into_storage(), 63_881);
}

fn button_at(cmds: &[DrawCmd<Rgb565>], y: i32) -> Option<String> {
    for (i, c) in cmds.iter().enumerate() {
        if let DrawCmd::Fill { x: 8, y: top, width: 156, height: 56, .. } = c {
            if *top == y {
                if let DrawCmd::Text { text, .. } = &cmds[i + 1] {
                    return Some(text.clone());
                }
            }
        }
    }
    None
}

#[test]
fn drawn_touch_buttons_answer_taps_inside_them() {
    let mut state = demo_state();
    state.view = View::Player;
    let cmds = render_touch349_dashboard(&state);
    assert_eq!(button_at(&cmds, 458), Some("PLAY".to_string()));
    state.apply_touch349(100, 480, 1);
    assert_eq!(state.take_action(), Some(UiAction::TogglePlayback));

    let mut state = demo_state();
    state.view = View::Recorder;
    let cmds = render_touch349_dashboard(&state);
    assert_eq!(button_at(&cmds, 416), Some("PLAY LAST RECORDING".to_string()));
    assert_eq!(button_at(&cmds, 488), Some("START RECORDING".to_string()));
    state.apply_touch349(20, 420, 1);
    assert_eq!(state.take_action(), Some(UiAction::ToggleLastRecording));
    state.apply_touch349(20, 500, 2);
    assert_eq!(state.take_action(), Some(UiAction::ToggleRecording));

    let mut state = demo_state();
    state.view = View::Diagnostics;
    state.speaker_test_state = SpeakerTestState::Error;
    let cmds = render_touch349_dashboard(&state);
    assert_eq!(button_at(&cmds, 488), Some("SPEAKER ERROR - RETRY".to_string()));

    let mut state = demo_state();
    state.view = View::Files;
    state.files = Vec::new();
    state.storage.mounted = false;
    let cmds = render_touch349_dashboard(&state);
    assert!(texts(&cmds).contains(&"SD NOT MOUNTED".to_string()));
    assert_eq!(button_at(&cmds, 448), Some("RESCAN SD".to_string()));
    state.apply_touch349(9, 449, 1);
    assert_eq!(state.take_action(), Some(UiAction::RefreshFiles));
}

#[test]
fn touch_home_tiles_lead_where_their_labels_say() {
    let state = demo_state();
    let cmds = render_touch349_dashboard(&state);
    let labels = ["RECORD", "FILES", "LIVE", "SETTINGS"];
    let views = [View::Recorder, View::Files, View::Live, View::Settings];
    for i in 0..4 {
        match (&cmds[14 + 4 * i], &cmds[14 + 4 * i + 2]) {
            (DrawCmd::Fill { x, y, width: 76, height: 100, .. }, DrawCmd::Text { text, .. }) => {
                assert_eq!(text, labels[i]);
                let mut s = demo_state();
                s.apply_touch349((*x + 10) as u16, (*y + 50) as u16, 5);
                assert_eq!(s.view, views[i]);
            }
            _ => panic!("tile {i} missing"),
        }
    }
}

#[test]
fn touch_settings_show_the_brightness_floor() {
    let mut state = demo_state();
    state.view = View::Settings;
    state.display_brightness = 5;
    let all = texts(&render_touch349_dashboard(&state));
    assert!(all.contains(&"20%".to_string()));
    assert!(all.contains(&"MAX / ON DEMAND".to_string()));
}

#[test]
fn touch_viewer_clips_lines() {
    let mut state = demo_state();
    state.view = View::Viewer;
    state.viewer_preview = "0123456789012345678901234567\nshort".into();
    let all = texts(&render_touch349_dashboard(&state));
    assert!(all.contains(&"01234567890123456789...".to_string()));
    assert!(all.contains(&"short".to_string()));
}

#[test]
fn touch_recorder_single_button_before_any_recording() {
    let mut state = DashboardState::default();
    state.view = View::Recorder;
    state.files.push(FileEntry { name: "x.txt".into(), size: 1, kind: FileKind::Text });
    let cmds = render_touch349_dashboard(&state);
    assert_eq!(button_at(&cmds, 448), Some("START RECORDING".to_string()));
    assert_eq!(button_at(&cmds, 416), None);
    let all = texts(&cmds);
    assert!(all.contains(&"SD NOT READY".to_string()));
    assert!(all.iter().any(|t| t == "0 KiB"));
    let _ = Font::Small;
}
