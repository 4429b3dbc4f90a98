//! The sample dashboard the host renderer draws: a realistic state for
//! every page, and the page names it accepts.

use vstd::prelude::*;
use vstd::view::View as _;
use crate::dashboard::{DashboardState, FileEntry, FileKind, View};
use crate::telemetry::{
    BatteryTelemetry, ClockTelemetry, EnvironmentTelemetry, Health, StorageTelemetry,
};

verus! {

/// The view a page name selects; anything unknown is the home screen.
pub open spec fn spec_page_view(page: Seq<char>) -> View {
    if page == "menu"@ {
        View::Menu
    } else if page == "recorder"@ {
        View::Recorder
    } else if page == "files"@ {
        View::Files
    } else if page == "player"@ {
        View::Player
    } else if page == "viewer"@ {
        View::Viewer
    } else if page == "live"@ {
        View::Live
    } else if page == "diagnostics"@ {
        View::Diagnostics
    } else if page == "settings"@ {
        View::Settings
    } else {
        View::Home
    }
}

pub fn page_view(page: &str) -> (v: View)
    ensures
        v == spec_page_view(page@),
{
    let p = String::from_str(page);
    if p == String::from_str("menu") {
        View::Menu
    } else if p == String::from_str("recorder") {
        View::Recorder
    } else if p == String::from_str("files") {
        View::Files
    } else if p == String::from_str("player") {
        View::Player
    } else if p == String::from_str("viewer") {
        View::Viewer
    } else if p == String::from_str("live") {
        View::Live
    } else if p == String::from_str("diagnostics") {
        View::Diagnostics
    } else if p == String::from_str("settings") {
        View::Settings
    } else {
        View::Home
    }
}

/// The repeating level pattern of the sample history.
pub open spec fn demo_levels() -> Seq<u16> {
    seq![
        320u16, 420, 380, 510, 680, 540, 830, 1200, 940, 720, 1480, 2100, 1760, 1120, 880, 1400,
        2800, 4100, 3200, 2300, 1800, 2900, 4800, 3700, 2600, 1900, 1200, 980, 1400, 2200, 3600,
        4280,
    ]
}

fn demo_level(index: usize) -> (v: u16)
    requires
        index < 32,
    ensures
        v == demo_levels()[index as int],
{
    let levels: [u16; 32] = [
        320, 420, 380, 510, 680, 540, 830, 1_200, 940, 720, 1_480, 2_100, 1_760, 1_120, 880, 1_400,
        2_800, 4_100, 3_200, 2_300, 1_800, 2_900, 4_800, 3_700, 2_600, 1_900, 1_200, 980, 1_400,
        2_200, 3_600, 4_280,
    ];
    assert(levels@ =~= demo_levels());
    levels[index]
}

fn entry(name: &str, size: u64, kind: FileKind) -> (e: FileEntry)
    ensures
        e.name@ == name@ && e.size == size && e.kind == kind,
{
    FileEntry { name: String::from_str(name), size, kind }
}

/// The sample text page of the viewer.
pub open spec fn demo_preview() -> Seq<char> {
    "{\"v\":1,\"source\":\"BOOT\"}\n{\"v\":1,\"source\":\"WIFI\"}\n\nPaged text and hex viewer\nkeeps large files off the heap."@
}

/// A running device on the home screen: synchronized IST time, network,
/// sensor, battery and card all healthy, a full level history cycling
/// through `demo_levels`, four files on the card, a recording and a
/// playback in progress and a page open in the viewer.
pub fn demo_state() -> (state: DashboardState)
    ensures
        state.startup_controls(),
        state.events@.len() == 0 && state.next_event_seq == 1,
        state.runtime.uptime_ms == 12_450,
        state.runtime.dropped_events == 0,
        state.runtime.free_heap == 182 * 1024 && state.runtime.min_free_heap == 164 * 1024,
        state.runtime.free_psram == 6_940 * 1024,
        state.runtime.loop_hz == 50 && state.runtime.display_flush_ms == 12,
        state.clock == (ClockTelemetry {
            health: Health::Healthy,
            zone: state.clock.zone,
            year: 2026,
            month: 8,
            day: 9,
            weekday: 0,
            hour: 23,
            minute: 24,
            second: 37,
        }),
        state.clock.zone@ == "IST"@,
        state.wifi.health == Health::Healthy,
        state.wifi.ssid@ == "current-wifi"@,
        state.wifi.ipv4@ == "192.168.1.42"@,
        state.wifi.rssi_dbm == -57,
        state.wifi.reconnects == 0,
        state.environment == (EnvironmentTelemetry {
            health: Health::Healthy,
            temperature_centi_c: 2_684,
            humidity_centi_pct: 5_723,
            sample_age_ms: 450,
            crc_errors: 0,
        }),
        state.battery == (BatteryTelemetry {
            health: Health::Healthy,
            millivolts: 4_031,
            percent: 92,
            raw: 2_204,
        }),
        state.audio.health == Health::Healthy,
        state.audio.sample_rate_hz == 24_000,
        state.audio.rms == 4_280 && state.audio.peak == 11_902,
        state.audio.buffered_frames == 384 && state.audio.buffer_capacity_frames == 2_048,
        state.audio.frames_total == 297_600,
        state.audio.overruns == 0,
        state.audio.wf(),
        state.audio.history_len == 72 && state.audio.history_head == 0,
        forall|i: int| 0 <= i < 72 ==> #[trigger] state.audio.history()[i] == demo_levels()[i % 32],
        state.playback_audio == state.audio,
        state.storage == (StorageTelemetry {
            health: Health::Healthy,
            mounted: true,
            total_kib: 29_802_496,
            free_kib: 28_901_120,
            event_bytes_written: 18_432,
            pending_events: 0,
            write_errors: 0,
        }),
        state.files@.len() == 4,
        state.files@[0].name@ == "R0000042.WAV"@ && state.files@[0].size == 1_728_044
            && state.files@[0].kind == FileKind::Wav,
        state.files@[1].name@ == "R0000041.WAV"@ && state.files@[1].size == 924_044
            && state.files@[1].kind == FileKind::Wav,
        state.files@[2].name@ == "events.ndj"@ && state.files@[2].size == 18_432
            && state.files@[2].kind == FileKind::Text,
        state.files@[3].name@ == "notes.txt"@ && state.files@[3].size == 2_048
            && state.files@[3].kind == FileKind::Text,
        state.last_recording@ == "R0000042.WAV"@,
        state.recording_name@ == "R0000043.WAV"@,
        state.recording_bytes == 684_032,
        state.playback_name@ == "R0000042.WAV"@,
        state.playback_position_ms == 8_300 && state.playback_duration_ms == 18_000,
        state.viewer_name@ == "events.ndj"@,
        state.viewer_size == 18_432 && state.viewer_offset == 512,
        state.viewer_preview@ == demo_preview(),
        state.wf(),
{
    let mut state = DashboardState::default();
    state.runtime.uptime_ms = 12_450;
    state.runtime.free_heap = 182 * 1024;
    state.runtime.min_free_heap = 164 * 1024;
    state.runtime.free_psram = 6_940 * 1024;
    state.runtime.loop_hz = 50;
    state.runtime.display_flush_ms = 12;
    state.clock = ClockTelemetry {
        health: Health::Healthy,
        zone: "IST",
        year: 2026,
        month: 8,
        day: 9,
        weekday: 0,
        hour: 23,
        minute: 24,
        second: 37,
    };
    state.wifi.health = Health::Healthy;
    state.wifi.ssid = String::from_str("current-wifi");
    state.wifi.ipv4 = String::from_str("192.168.1.42");
    state.wifi.rssi_dbm = -57;
    state.environment = EnvironmentTelemetry {
        health: Health::Healthy,
        temperature_centi_c: 2_684,
        humidity_centi_pct: 5_723,
        sample_age_ms: 450,
        crc_errors: 0,
    };
    state.battery = BatteryTelemetry {
        health: Health::Healthy,
        millivolts: 4_031,
        percent: 92,
        raw: 2_204,
    };
    state.audio.health = Health::Healthy;
    state.audio.sample_rate_hz = 24_000;
    state.audio.rms = 4_280;
    state.audio.peak = 11_902;
    state.audio.buffered_frames = 384;
    state.audio.buffer_capacity_frames = 2_048;
    state.audio.frames_total = 297_600;
    let ghost pre = state;
    assert(state.audio.history_len == 0 && state.audio.history_head == 0);
    let mut index: usize = 0;
    while index < 72
        invariant
            state == (DashboardState { audio: state.audio, ..pre }),
            index <= 72,
            state.audio.wf(),
            state.audio.history_len == index,
            state.audio.history_head == index % 72,
            state.audio.health == Health::Healthy,
            state.audio.sample_rate_hz == 24_000,
            state.audio.rms == 4_280 && state.audio.peak == 11_902,
            state.audio.buffered_frames == 384 && state.audio.buffer_capacity_frames == 2_048,
            state.audio.frames_total == 297_600,
            state.audio.overruns == 0,
            forall|i: int| 0 <= i < index ==> #[trigger] state.audio.history()[i] == demo_levels()[i % 32],
        decreases 72 - index,
    {
        let ghost before = state.audio.history();
        state.audio.push_level(demo_level(index % 32));
        assert(state.audio.history() == before.push(demo_levels()[(index % 32) as int]));
        index = index + 1;
    }
    state.storage = StorageTelemetry {
        health: Health::Healthy,
        mounted: true,
        total_kib: 29_802_496,
        free_kib: 28_901_120,
        event_bytes_written: 18_432,
        pending_events: 0,
        write_errors: 0,
    };
    let mut files: Vec<FileEntry> = Vec::new();
    files.push(entry("R0000042.WAV", 1_728_044, FileKind::Wav));
    files.push(entry("R0000041.WAV", 924_044, FileKind::Wav));
    files.push(entry("events.ndj", 18_432, FileKind::Text));
    files.push(entry("notes.txt", 2_048, FileKind::Text));
    state.files = files;
    state.last_recording = String::from_str("R0000042.WAV");
    state.recording_name = String::from_str("R0000043.WAV");
    state.recording_bytes = 684_032;
    state.playback_name = String::from_str("R0000042.WAV");
    state.playback_position_ms = 8_300;
    state.playback_duration_ms = 18_000;
    state.playback_audio = state.audio;
    state.viewer_name = String::from_str("events.ndj");
    state.viewer_size = 18_432;
    state.viewer_offset = 512;
    state.viewer_preview = String::from_str(
        "{\"v\":1,\"source\":\"BOOT\"}\n{\"v\":1,\"source\":\"WIFI\"}\n\nPaged text and hex viewer\nkeeps large files off the heap.",
    );
    state
}

/// The sample event log: five boot-time events, recorded in order.
pub fn demo_events(state: &mut DashboardState)
    ensures
        exists|s1: DashboardState, s2: DashboardState, s3: DashboardState, s4: DashboardState|
            #![trigger old(state).then_logged(s1, 120, "BOOT"@, "firmware started"@), s4.then_logged(*final(state), 1_020, "MIC"@, "capture ring running"@), s1.then_logged(s2, 440, "WIFI"@, "connected, DHCP ready"@), s2.then_logged(s3, 690, "SHTC3"@, "sample accepted, CRC ok"@)]
            {
                &&& old(state).then_logged(s1, 120, "BOOT"@, "firmware started"@)
                &&& s1.then_logged(s2, 440, "WIFI"@, "connected, DHCP ready"@)
                &&& s2.then_logged(s3, 690, "SHTC3"@, "sample accepted, CRC ok"@)
                &&& s3.then_logged(s4, 830, "SD"@, "event recorder mounted"@)
                &&& s4.then_logged(*final(state), 1_020, "MIC"@, "capture ring running"@)
            },
{
    state.record(120, "BOOT", "firmware started");
    let ghost s1 = *state;
    state.record(440, "WIFI", "connected, DHCP ready");
    let ghost s2 = *state;
    state.record(690, "SHTC3", "sample accepted, CRC ok");
    let ghost s3 = *state;
    state.record(830, "SD", "event recorder mounted");
    let ghost s4 = *state;
    state.record(1_020, "MIC", "capture ring running");
    assert(old(state).then_logged(s1, 120, "BOOT"@, "firmware started"@));
    assert(s4.then_logged(*state, 1_020, "MIC"@, "capture ring running"@));
    assert(s1.then_logged(s2, 440, "WIFI"@, "connected, DHCP ready"@));
    assert(s2.then_logged(s3, 690, "SHTC3"@, "sample accepted, CRC ok"@));
}

} // verus!
