//! The dashboard state shared by both boards, the bounded event history, and
//! the reducers that turn button gestures and touch taps into navigation and
//! semantic actions.

use vstd::prelude::*;
use std::collections::VecDeque;
use vstd::view::View as _;

use crate::input::{button_index, Button, Gesture, InputEvent};
use crate::telemetry::{
    AudioTelemetry, BatteryTelemetry, ButtonTelemetry, ClockTelemetry, EnvironmentTelemetry,
    RuntimeTelemetry, StorageTelemetry, WifiTelemetry,
};
use crate::text::{decimal, push_decimal, push_str};

verus! {

/// Number of events kept in RAM.
pub const EVENT_CAPACITY: usize = 96;

#[derive(Clone, Copy, Debug, PartialEq, Eq, Structural)]
pub enum View {
    Home,
    Menu,
    Recorder,
    Files,
    Player,
    Viewer,
    Live,
    Diagnostics,
    Settings,
}

pub open spec fn view_title(v: View) -> Seq<char> {
    match v {
        View::Home => "HOME"@,
        View::Menu => "APPS"@,
        View::Recorder => "RECORDER"@,
        View::Files => "SD FILES"@,
        View::Player => "AUDIO PLAYER"@,
        View::Viewer => "FILE VIEWER"@,
        View::Live => "LIVE AUDIO"@,
        View::Diagnostics => "DIAGNOSTICS"@,
        View::Settings => "SETTINGS"@,
    }
}

impl View {
    /// Heading shown at the top of the view.
    pub fn title(self) -> (t: &'static str)
        ensures
            t@ == view_title(self),
    {
        match self {
            View::Home => "HOME",
            View::Menu => "APPS",
            View::Recorder => "RECORDER",
            View::Files => "SD FILES",
            View::Player => "AUDIO PLAYER",
            View::Viewer => "FILE VIEWER",
            View::Live => "LIVE AUDIO",
            View::Diagnostics => "DIAGNOSTICS",
            View::Settings => "SETTINGS",
        }
    }
}

/// Work the reducer asks the firmware to perform.
#[derive(Clone, Copy, Debug, PartialEq, Eq, Structural)]
pub enum UiAction {
    RefreshFiles,
    ToggleRecording,
    OpenLastRecording,
    ToggleLastRecording,
    OpenSelectedFile,
    TogglePlayback,
    StopPlayback,
    ViewerNext,
    ViewerTop,
    RefreshDisplay,
    CycleVolume,
    ToggleEventLog,
    SpeakerTest,
    PreparePoweroff,
}

#[derive(Clone, Copy, Debug, PartialEq, Eq, Structural)]
pub enum SpeakerTestState {
    Idle,
    Running,
    PassedToCodec,
    Error,
}

impl Default for SpeakerTestState {
    fn default() -> (s: Self)
        ensures
            s == SpeakerTestState::Idle,
    {
        SpeakerTestState::Idle
    }
}

#[derive(Clone, Copy, Debug, PartialEq, Eq, Structural)]
pub enum FileKind {
    Wav,
    Text,
    Other,
}

#[derive(Clone, Debug, PartialEq, Eq)]
pub struct FileEntry {
    pub name: String,
    pub size: u64,
    pub kind: FileKind,
}

/// One entry of the event history.
#[derive(Clone, Debug)]
pub struct RecordedEvent {
    pub seq: u64,
    pub at_ms: u64,
    pub source: &'static str,
    pub detail: String,
}

/// Where the user is: the part of the state that input moves.
#[derive(Clone, Copy, Debug)]
pub struct Navigation {
    pub view: View,
    pub menu_index: u8,
    pub file_index: usize,
    pub event_offset: usize,
    pub settings_index: u8,
    pub action: Option<UiAction>,
}

#[derive(Clone, Debug)]
pub struct DashboardState {
    pub view: View,
    pub menu_index: u8,
    pub event_offset: usize,
    pub clock: ClockTelemetry,
    pub wifi: WifiTelemetry,
    pub environment: EnvironmentTelemetry,
    pub battery: BatteryTelemetry,
    pub audio: AudioTelemetry,
    pub storage: StorageTelemetry,
    pub runtime: RuntimeTelemetry,
    pub buttons: [ButtonTelemetry; 2],
    pub settings_index: u8,
    pub speaker_volume: u8,
    pub speaker_test_state: SpeakerTestState,
    pub display_brightness: u8,
    pub display_fps: u8,
    pub event_logging_enabled: bool,
    pub recording: bool,
    pub recording_name: String,
    pub recording_bytes: u64,
    pub recording_started_ms: u64,
    pub last_recording: String,
    pub files: Vec<FileEntry>,
    pub file_index: usize,
    pub playing: bool,
    pub playback_name: String,
    pub playback_position_ms: u64,
    pub playback_duration_ms: u64,
    pub playback_audio: AudioTelemetry,
    pub viewer_name: String,
    pub viewer_size: u64,
    pub viewer_offset: u64,
    pub viewer_next_offset: u64,
    pub viewer_preview: String,
    pub poweroff_prepared: bool,
    pub prepare_poweroff_requested: bool,
    pub refresh_requested: bool,
    /// Action produced by the last input, handed out once by `take_action`.
    pub pending_action: Option<UiAction>,
    pub events: VecDeque<RecordedEvent>,
    /// Sequence number of the next recorded event.
    pub next_event_seq: u64,
}

// ---------------------------------------------------------------------------
// Navigation tables
// ---------------------------------------------------------------------------
/// KEY click: one level up the hierarchy.
pub open spec fn back_view(v: View) -> View {
    match v {
        View::Home | View::Menu => View::Home,
        View::Player | View::Viewer => View::Files,
        _ => View::Menu,
    }
}

/// Leaving a view finalizes an active recording or stops the player.
pub open spec fn leave_action(v: View, recording: bool) -> Option<UiAction> {
    if v == View::Recorder && recording {
        Some(UiAction::ToggleRecording)
    } else if v == View::Player {
        Some(UiAction::StopPlayback)
    } else {
        None
    }
}

/// The app behind each menu row.
pub open spec fn menu_view(index: int) -> View {
    if index == 0 {
        View::Recorder
    } else if index == 1 {
        View::Files
    } else if index == 2 {
        View::Live
    } else if index == 3 {
        View::Diagnostics
    } else {
        View::Settings
    }
}

/// The app behind each Touch349 home tile (row-major, two per row).
pub open spec fn home_tile_view(index: int) -> View {
    if index == 0 {
        View::Recorder
    } else if index == 1 {
        View::Files
    } else if index == 2 {
        View::Live
    } else {
        View::Settings
    }
}

/// The setting applied by a BOOT hold on each Settings row.
pub open spec fn settings_action(index: int) -> UiAction {
    if index == 0 {
        UiAction::RefreshDisplay
    } else if index == 1 {
        UiAction::CycleVolume
    } else if index == 2 {
        UiAction::SpeakerTest
    } else if index == 3 {
        UiAction::ToggleEventLog
    } else if index == 4 {
        UiAction::RefreshFiles
    } else {
        UiAction::PreparePoweroff
    }
}

/// The documented BOOT/KEY table: where one gesture leads and which action
/// it asks for. `files_len` and `recording` are read from the state.
pub open spec fn input_navigation(
    n: Navigation,
    files_len: nat,
    recording: bool,
    button: Button,
    gesture: Gesture,
) -> Navigation {
    let n0 = Navigation { action: None, ..n };
    match (button, gesture) {
        (Button::Key, Gesture::LongPress) => Navigation {
            view: View::Home,
            action: leave_action(n.view, recording),
            ..n
        },
        (Button::Key, Gesture::Click) => Navigation {
            view: back_view(n.view),
            action: leave_action(n.view, recording),
            ..n
        },
        (Button::Boot, Gesture::Click) => match n.view {
            View::Home => Navigation { view: View::Menu, menu_index: 0, ..n0 },
            View::Menu => Navigation { menu_index: ((n.menu_index + 1) % 5) as u8, ..n0 },
            View::Files => if files_len > 0 {
                Navigation { file_index: ((n.file_index + 1) % (files_len as int)) as usize, ..n0 }
            } else {
                n0
            },
            View::Recorder => Navigation { action: Some(UiAction::ToggleRecording), ..n0 },
            View::Player => Navigation { action: Some(UiAction::TogglePlayback), ..n0 },
            View::Viewer => Navigation { action: Some(UiAction::ViewerNext), ..n0 },
            View::Live => n0,
            View::Diagnostics => Navigation {
                event_offset: (if n.event_offset + 5 > usize::MAX {
                    usize::MAX as int
                } else {
                    n.event_offset + 5
                }) as usize,
                ..n0
            },
            View::Settings => Navigation {
                settings_index: ((n.settings_index + 1) % 6) as u8,
                ..n0
            },
        },
        (Button::Boot, Gesture::LongPress) => match n.view {
            View::Home => Navigation { view: View::Menu, menu_index: 0, ..n0 },
            View::Menu => Navigation {
                view: menu_view(n.menu_index as int),
                action: if menu_view(n.menu_index as int) == View::Files {
                    Some(UiAction::RefreshFiles)
                } else {
                    None
                },
                ..n0
            },
            View::Files => Navigation { action: Some(UiAction::OpenSelectedFile), ..n0 },
            View::Recorder => Navigation { action: Some(UiAction::OpenLastRecording), ..n0 },
            View::Player => Navigation { action: Some(UiAction::StopPlayback), ..n0 },
            View::Viewer => Navigation { action: Some(UiAction::ViewerTop), ..n0 },
            View::Live => Navigation { view: View::Recorder, ..n0 },
            View::Diagnostics => Navigation { event_offset: 0, ..n0 },
            View::Settings => Navigation {
                action: Some(settings_action(n.settings_index as int)),
                ..n0
            },
        },
    }
}

/// The indexes that a gesture increments stay in range: incrementing past
/// the type's maximum is an arithmetic overflow.
pub open spec fn input_is_safe(n: Navigation, files_len: nat, event: InputEvent) -> bool {
    event.button == Button::Boot && event.gesture == Gesture::Click ==> {
        &&& n.view == View::Menu ==> n.menu_index < 255
        &&& n.view == View::Settings ==> n.settings_index < 255
        &&& n.view == View::Files && files_len > 0 ==> n.file_index < usize::MAX
    }
}

/// Next Touch349 backlight level: 20 -> 50 -> 80 -> 100 -> 20.
pub open spec fn next_brightness(b: u8) -> u8 {
    if b <= 20 {
        50
    } else if b <= 50 {
        80
    } else if b <= 80 {
        100
    } else {
        20
    }
}

pub open spec fn in_range(v: int, lo: int, hi: int) -> bool {
    lo <= v < hi
}

/// The tap lands inside the full-width column of controls.
pub open spec fn in_column(x: u16) -> bool {
    in_range(x as int, 8, 164)
}

/// Whether a tap at (`x`, `y`) on the home screen hits a quick-action tile.
pub open spec fn home_tile_hit(x: u16, y: u16) -> bool {
    let row_top: int = if y >= 368 {
        368
    } else {
        252
    };
    in_column(x) && in_range(y as int, row_top, row_top + 100) && !in_range(x as int, 84, 88)
}

/// Whether the Files list tap computes an index past `usize::MAX`.
pub open spec fn files_tap_overflows(file_index: usize, x: u16, y: u16) -> bool {
    let row = (y - 68) / 72;
    let start = if file_index >= 3 {
        file_index - 3
    } else {
        0
    };
    in_range(y as int, 68, 500) && start + row > usize::MAX
}

/// The Touch349 hit-test table: navigation, backlight level and whether the
/// backlight changed, for one released tap.
pub open spec fn touch_navigation(
    n: Navigation,
    brightness: u8,
    recording: bool,
    has_last_recording: bool,
    files_len: nat,
    x: u16,
    y: u16,
) -> (Navigation, u8, bool) {
    let n0 = Navigation { action: None, ..n };
    if y >= 568 {
        // Bottom bar: HOME on the left, BACK on the right.
        (
            Navigation {
                view: if x < 86 {
                    View::Home
                } else {
                    back_view(n.view)
                },
                action: leave_action(n.view, recording),
                ..n
            },
            brightness,
            false,
        )
    } else if n.view == View::Home && in_range(y as int, 252, 468) {
        if home_tile_hit(x, y) {
            let index = (if y >= 368 {
                2int
            } else {
                0
            }) + (if x >= 86 {
                1int
            } else {
                0
            });
            (
                Navigation { view: home_tile_view(index), menu_index: index as u8, ..n0 },
                brightness,
                false,
            )
        } else {
            (n0, brightness, false)
        }
    } else if n.view == View::Menu && in_range(y as int, 68, 508) {
        let index = if (y - 68) / 88 > 4 {
            4
        } else {
            (y - 68) / 88
        };
        (Navigation { view: menu_view(index), menu_index: index as u8, ..n0 }, brightness, false)
    } else if n.view == View::Settings && in_range(y as int, 72, 456) {
        let row = (y - 72) / 96;
        if row == 0 {
            (n0, next_brightness(brightness), true)
        } else if row == 1 || row == 2 {
            (Navigation { action: Some(UiAction::RefreshDisplay), ..n0 }, brightness, false)
        } else {
            (Navigation { view: View::Diagnostics, ..n0 }, brightness, false)
        }
    } else if n.view == View::Recorder && in_column(x) {
        let action = if recording && in_range(y as int, 448, 504) {
            Some(UiAction::ToggleRecording)
        } else if !recording && has_last_recording {
            if in_range(y as int, 416, 472) {
                Some(UiAction::ToggleLastRecording)
            } else if in_range(y as int, 488, 544) {
                Some(UiAction::ToggleRecording)
            } else {
                None
            }
        } else if !recording && in_range(y as int, 448, 504) {
            Some(UiAction::ToggleRecording)
        } else {
            None
        };
        (Navigation { action, ..n0 }, brightness, false)
    } else if n.view == View::Files {
        if files_len == 0 {
            if in_column(x) && in_range(y as int, 448, 504) {
                (Navigation { action: Some(UiAction::RefreshFiles), ..n0 }, brightness, false)
            } else {
                (n0, brightness, false)
            }
        } else if in_range(y as int, 68, 500) {
            let row = (y - 68) / 72;
            let row_top = 68 + row * 72;
            if in_column(x) && in_range(y as int, row_top, row_top + 60) {
                let start = if n.file_index >= 3 {
                    n.file_index - 3
                } else {
                    0
                };
                let wanted = start + row;
                let last = files_len - 1;
                (
                    Navigation {
                        file_index: (if wanted > last {
                            last
                        } else {
                            wanted
                        }) as usize,
                        action: Some(UiAction::OpenSelectedFile),
                        ..n0
                    },
                    brightness,
                    false,
                )
            } else {
                (n0, brightness, false)
            }
        } else {
            (n0, brightness, false)
        }
    } else if n.view == View::Player && in_column(x) && in_range(y as int, 458, 514) {
        (Navigation { action: Some(UiAction::TogglePlayback), ..n0 }, brightness, false)
    } else if n.view == View::Diagnostics && in_column(x) && in_range(y as int, 488, 544) {
        (Navigation { action: Some(UiAction::SpeakerTest), ..n0 }, brightness, false)
    } else if n.view == View::Live && in_column(x) && in_range(y as int, 508, 564) {
        (Navigation { view: View::Recorder, ..n0 }, brightness, false)
    } else if n.view == View::Viewer && y >= 130 {
        (Navigation { action: Some(UiAction::ViewerNext), ..n0 }, brightness, false)
    } else {
        (n0, brightness, false)
    }
}


// ---------------------------------------------------------------------------
// Laws of the navigation tables
// ---------------------------------------------------------------------------
/// Depth of a view in the hierarchy Home > Menu > app > Player/Viewer.
pub open spec fn view_depth(v: View) -> int {
    match v {
        View::Home => 0,
        View::Menu => 1,
        View::Player | View::Viewer => 3,
        _ => 2,
    }
}

/// KEY click moves up exactly one hierarchy level (Home stays Home), KEY
/// hold returns Home from anywhere, and both finalize an active recording or
/// stop the player when leaving those views.
pub proof fn key_moves_up_one_level_and_hold_returns_home(
    n: Navigation,
    files_len: nat,
    recording: bool,
)
    ensures
        view_depth(input_navigation(n, files_len, recording, Button::Key, Gesture::Click).view)
            == (if view_depth(n.view) > 0 {
            view_depth(n.view) - 1
        } else {
            0
        }),
        input_navigation(n, files_len, recording, Button::Key, Gesture::LongPress).view
            == View::Home,
        n.view == View::Recorder && recording ==> input_navigation(
            n,
            files_len,
            recording,
            Button::Key,
            Gesture::Click,
        ).action == Some(UiAction::ToggleRecording) && input_navigation(
            n,
            files_len,
            recording,
            Button::Key,
            Gesture::LongPress,
        ).action == Some(UiAction::ToggleRecording),
        n.view == View::Player ==> input_navigation(
            n,
            files_len,
            recording,
            Button::Key,
            Gesture::Click,
        ).action == Some(UiAction::StopPlayback),
{
}

/// An action belongs to exactly one input: what a gesture or a tap leaves
/// pending never depends on an action left over from before.
pub proof fn stale_actions_never_survive(
    n: Navigation,
    stale: Option<UiAction>,
    files_len: nat,
    recording: bool,
    has_last_recording: bool,
    brightness: u8,
    button: Button,
    gesture: Gesture,
    x: u16,
    y: u16,
)
    ensures
        input_navigation(Navigation { action: stale, ..n }, files_len, recording, button, gesture)
            == input_navigation(Navigation { action: None, ..n }, files_len, recording, button, gesture),
        touch_navigation(
            Navigation { action: stale, ..n },
            brightness,
            recording,
            has_last_recording,
            files_len,
            x,
            y,
        ) == touch_navigation(
            Navigation { action: None, ..n },
            brightness,
            recording,
            has_last_recording,
            files_len,
            x,
            y,
        ),
{
}

/// The Touch349 BACK target does exactly what a KEY click does, and the
/// HOME target what a KEY hold does.
pub proof fn touch_bar_matches_key(
    n: Navigation,
    brightness: u8,
    recording: bool,
    has_last_recording: bool,
    files_len: nat,
    x: u16,
    y: u16,
)
    requires
        y >= 568,
    ensures
        x >= 86 ==> touch_navigation(n, brightness, recording, has_last_recording, files_len, x, y).0
            == input_navigation(n, files_len, recording, Button::Key, Gesture::Click),
        x < 86 ==> touch_navigation(n, brightness, recording, has_last_recording, files_len, x, y).0
            == input_navigation(n, files_len, recording, Button::Key, Gesture::LongPress),
{
}

/// The backlight never drops below 20 percent, and four taps on the
/// brightness row return to the starting level.
pub proof fn brightness_cycle_stays_visible(b: u8)
    ensures
        next_brightness(b) >= 20,
        (b == 20 || b == 50 || b == 80 || b == 100) ==> next_brightness(
            next_brightness(next_brightness(next_brightness(b))),
        ) == b,
{
}

/// Every BOOT/KEY gesture has a defined, non-destructive outcome: only a
/// BOOT hold on the Settings row "Prepare power off" can ask for power-off
/// preparation, and no gesture sets up a power-off by itself.
pub proof fn poweroff_is_only_explicit(
    n: Navigation,
    files_len: nat,
    recording: bool,
    button: Button,
    gesture: Gesture,
)
    ensures
        input_navigation(n, files_len, recording, button, gesture).action == Some(
            UiAction::PreparePoweroff,
        ) ==> button == Button::Boot && gesture == Gesture::LongPress && n.view == View::Settings
            && n.settings_index >= 5,
{
}

/// The selection indexes stay in range: the menu row, the settings row and
/// (with files listed) the file row that a state holds before a gesture or a
/// tap it also holds after, and neither reducer's overflow guard can fail on
/// such a state. A file list cannot hold more than `isize::MAX` entries.
pub proof fn selections_stay_in_range(
    n: Navigation,
    files_len: nat,
    recording: bool,
    has_last_recording: bool,
    brightness: u8,
    event: InputEvent,
    x: u16,
    y: u16,
)
    requires
        n.menu_index < 5,
        n.settings_index < 6,
        files_len > 0 ==> n.file_index < files_len,
        files_len <= isize::MAX,
    ensures
        input_is_safe(n, files_len, event),
        !(n.view == View::Files && files_len > 0 && files_tap_overflows(n.file_index, x, y)),
        ({
            let after = input_navigation(n, files_len, recording, event.button, event.gesture);
            &&& after.menu_index < 5
            &&& after.settings_index < 6
            &&& files_len > 0 ==> after.file_index < files_len
        }),
        ({
            let after = touch_navigation(
                n,
                brightness,
                recording,
                has_last_recording,
                files_len,
                x,
                y,
            ).0;
            &&& after.menu_index < 5
            &&& after.settings_index < 6
            &&& files_len > 0 ==> after.file_index < files_len
        }),
{
}

/// The BOOT column of the documented control table, for the state a gesture
/// leaves (`apply_input`): Home opens the Menu either way; Menu, Files and
/// Settings move their selection on a click; the Recorder records or stops
/// on a click and opens the last recording on a hold; the Player plays or
/// pauses on a click and stops on a hold; the Viewer asks for the next page
/// on a click and for the file start on a hold; Live Audio does nothing on a
/// click and opens the Recorder on a hold.
pub proof fn boot_gestures_follow_the_legend(
    before: DashboardState,
    after: DashboardState,
    event: InputEvent,
    now_ms: u64,
)
    requires
        before.input_applied(after, event, now_ms),
        event.button == Button::Boot,
    ensures
        before.view == View::Home ==> after.view == View::Menu && after.menu_index == 0
            && after.pending_action is None,
        before.view == View::Menu && event.gesture == Gesture::Click ==> after.view == View::Menu
            && after.menu_index == (before.menu_index + 1) % 5 && after.pending_action is None,
        before.view == View::Files && event.gesture == Gesture::Click ==> after.view == View::Files
            && after.pending_action is None && (before.files@.len() > 0 ==> after.file_index == (
        before.file_index + 1) % (before.files@.len() as int)),
        before.view == View::Files && event.gesture == Gesture::LongPress ==> after.view
            == View::Files && after.pending_action == Some(UiAction::OpenSelectedFile)
            && after.file_index == before.file_index,
        before.view == View::Settings && event.gesture == Gesture::Click ==> after.view
            == View::Settings && after.settings_index == (before.settings_index + 1) % 6
            && after.pending_action is None,
        before.view == View::Recorder ==> after.view == View::Recorder && after.pending_action == (
        if event.gesture == Gesture::Click {
            Some(UiAction::ToggleRecording)
        } else {
            Some(UiAction::OpenLastRecording)
        }),
        before.view == View::Player ==> after.view == View::Player && after.pending_action == (
        if event.gesture == Gesture::Click {
            Some(UiAction::TogglePlayback)
        } else {
            Some(UiAction::StopPlayback)
        }),
        before.view == View::Viewer ==> after.view == View::Viewer && after.pending_action == (
        if event.gesture == Gesture::Click {
            Some(UiAction::ViewerNext)
        } else {
            Some(UiAction::ViewerTop)
        }),
        before.view == View::Live ==> after.pending_action is None && after.view == (
        if event.gesture == Gesture::Click {
            View::Live
        } else {
            View::Recorder
        }),
        before.view == View::Menu && event.gesture == Gesture::LongPress ==> after.view == (
        if before.menu_index == 0 {
            View::Recorder
        } else if before.menu_index == 1 {
            View::Files
        } else if before.menu_index == 2 {
            View::Live
        } else if before.menu_index == 3 {
            View::Diagnostics
        } else {
            View::Settings
        }) && after.pending_action == (if before.menu_index == 1 {
            Some(UiAction::RefreshFiles)
        } else {
            None
        }),
        before.view == View::Settings && event.gesture == Gesture::LongPress ==> after.view
            == View::Settings && after.pending_action == Some(
            if before.settings_index == 0 {
                UiAction::RefreshDisplay
            } else if before.settings_index == 1 {
                UiAction::CycleVolume
            } else if before.settings_index == 2 {
                UiAction::SpeakerTest
            } else if before.settings_index == 3 {
                UiAction::ToggleEventLog
            } else if before.settings_index == 4 {
                UiAction::RefreshFiles
            } else {
                UiAction::PreparePoweroff
            },
        ),
        before.view == View::Diagnostics ==> after.view == View::Diagnostics
            && after.pending_action is None && after.event_offset == (if event.gesture
            == Gesture::LongPress {
            0
        } else if before.event_offset + 5 > usize::MAX {
            usize::MAX as int
        } else {
            before.event_offset + 5
        }),
{
    assert(before.files@.len() == before.files.len());
}

// ---------------------------------------------------------------------------
// Event history
// ---------------------------------------------------------------------------
/// The events kept when one more is appended: the oldest leaves a full ring.
pub open spec fn retained_events(events: Seq<RecordedEvent>) -> Seq<RecordedEvent> {
    if events.len() == EVENT_CAPACITY {
        events.drop_first()
    } else {
        events
    }
}

pub open spec fn saturating_inc_u64(v: u64) -> u64 {
    if v == u64::MAX {
        v
    } else {
        (v + 1) as u64
    }
}

pub open spec fn saturating_inc_u32(v: u32) -> u32 {
    if v == u32::MAX {
        v
    } else {
        (v + 1) as u32
    }
}

/// Text of the event recorded for a button gesture.
pub open spec fn input_detail(e: InputEvent) -> Seq<char> {
    (match e.button {
        Button::Boot => "BOOT"@,
        Button::Key => "KEY"@,
    }) + " "@ + (match e.gesture {
        Gesture::Click => "click"@,
        Gesture::LongPress => "long"@,
    }) + " "@ + decimal(e.held_ms as nat) + "ms"@
}

/// Text of the event recorded for a tap.
pub open spec fn touch_detail(x: u16, y: u16) -> Seq<char> {
    "x="@ + decimal(x as nat) + " y="@ + decimal(y as nat)
}


/// Button statistics after one gesture of that button.
pub open spec fn counted(stats: ButtonTelemetry, event: InputEvent) -> ButtonTelemetry {
    ButtonTelemetry {
        clicks: if event.gesture == Gesture::Click {
            saturating_inc_u32(stats.clicks)
        } else {
            stats.clicks
        },
        long_presses: if event.gesture == Gesture::LongPress {
            saturating_inc_u32(stats.long_presses)
        } else {
            stats.long_presses
        },
        held_ms: event.held_ms,
        ..stats
    }
}

impl DashboardState {
    pub open spec fn navigation(self) -> Navigation {
        Navigation {
            view: self.view,
            menu_index: self.menu_index,
            file_index: self.file_index,
            event_offset: self.event_offset,
            settings_index: self.settings_index,
            action: self.pending(),
        }
    }

    /// The action waiting for `take_action`.
    pub open spec fn pending(self) -> Option<UiAction> {
        self.pending_action
    }

    /// Sequence number the next recorded event receives.
    pub open spec fn next_seq(self) -> u64 {
        self.next_event_seq
    }

    /// The event history never exceeds its capacity.
    pub open spec fn wf(self) -> bool {
        self.events@.len() <= EVENT_CAPACITY
    }

    /// Everything but navigation, the event log, button statistics, the
    /// backlight level and the power-off readiness is the same.
    pub open spec fn same_content(self, other: Self) -> bool {
        &&& self.clock == other.clock
        &&& self.wifi == other.wifi
        &&& self.environment == other.environment
        &&& self.battery == other.battery
        &&& self.audio == other.audio
        &&& self.storage == other.storage
        &&& RuntimeTelemetry { dropped_events: 0, ..self.runtime } == RuntimeTelemetry {
            dropped_events: 0,
            ..other.runtime
        }
        &&& self.speaker_volume == other.speaker_volume
        &&& self.speaker_test_state == other.speaker_test_state
        &&& self.display_fps == other.display_fps
        &&& self.event_logging_enabled == other.event_logging_enabled
        &&& self.recording == other.recording
        &&& self.recording_name == other.recording_name
        &&& self.recording_bytes == other.recording_bytes
        &&& self.recording_started_ms == other.recording_started_ms
        &&& self.last_recording == other.last_recording
        &&& self.files == other.files
        &&& self.playing == other.playing
        &&& self.playback_name == other.playback_name
        &&& self.playback_position_ms == other.playback_position_ms
        &&& self.playback_duration_ms == other.playback_duration_ms
        &&& self.playback_audio == other.playback_audio
        &&& self.viewer_name == other.viewer_name
        &&& self.viewer_size == other.viewer_size
        &&& self.viewer_offset == other.viewer_offset
        &&& self.viewer_next_offset == other.viewer_next_offset
        &&& self.viewer_preview == other.viewer_preview
        &&& self.prepare_poweroff_requested == other.prepare_poweroff_requested
        &&& self.refresh_requested == other.refresh_requested
    }

    /// `after` is `self` with one event (`source`, `detail`, at `at_ms`)
    /// appended to the history.
    pub open spec fn logged(
        self,
        after: Self,
        at_ms: u64,
        source: Seq<char>,
        detail: Seq<char>,
    ) -> bool {
        let kept = retained_events(self.events@);
        &&& after.next_seq() == saturating_inc_u64(self.next_seq())
        &&& after.events@.len() == kept.len() + 1
        &&& after.events@.drop_last() == kept
        &&& after.events@.last().seq == self.next_seq()
        &&& after.events@.last().at_ms == at_ms
        &&& after.events@.last().source@ == source
        &&& after.events@.last().detail@ == detail
        &&& after.runtime.dropped_events == (if self.events@.len() == EVENT_CAPACITY {
            saturating_inc_u32(self.runtime.dropped_events)
        } else {
            self.runtime.dropped_events
        })
    }

    /// `after` is `self` with one event recorded and nothing else changed.
    pub open spec fn then_logged(
        self,
        after: Self,
        at_ms: u64,
        source: Seq<char>,
        detail: Seq<char>,
    ) -> bool {
        &&& self.logged(after, at_ms, source, detail)
        &&& after.same_content(self)
        &&& after.navigation() == self.navigation()
        &&& after.buttons == self.buttons
        &&& after.display_brightness == self.display_brightness
        &&& after.poweroff_prepared == self.poweroff_prepared
        &&& (self.wf() ==> after.wf())
    }

    /// Hands the pending action to the caller, leaving none.
    pub fn take_action(&mut self) -> (action: Option<UiAction>)
        ensures
            action == old(self).pending_action,
            (final(self).pending_action is None),
            final(self).navigation() == (Navigation { action: None, ..old(self).navigation() }),
            final(self).same_content(*old(self)),
            final(self).runtime == old(self).runtime,
            final(self).events@ == old(self).events@,
            final(self).next_event_seq == old(self).next_event_seq,
            final(self).buttons == old(self).buttons,
            final(self).display_brightness == old(self).display_brightness,
            final(self).poweroff_prepared == old(self).poweroff_prepared,
    {
        self.pending_action.take()
    }

    /// The highlighted entry of the file list.
    pub fn selected_file(&self) -> (entry: Option<&FileEntry>)
        ensures
            self.file_index < self.files@.len() ==> entry == Some(&self.files@[self.file_index as int]),
            self.file_index >= self.files@.len() ==> (entry is None),
    {
        if self.file_index < self.files.len() {
            Some(&self.files[self.file_index])
        } else {
            None
        }
    }


    /// `after` is `self` once a key gesture is taken in: navigation follows
    /// the gesture, a pending power-off is cancelled, the gesture is counted
    /// on its button, the other button is untouched, the gesture is logged
    /// and nothing else changes.
    pub open spec fn input_applied(self, after: Self, event: InputEvent, now_ms: u64) -> bool {
        &&& after.navigation() == input_navigation(
            self.navigation(),
            self.files@.len(),
            self.recording,
            event.button,
            event.gesture,
        )
        &&& !after.poweroff_prepared
        &&& after.buttons@[button_index(event.button)] == counted(
            self.buttons@[button_index(event.button)],
            event,
        )
        &&& after.buttons@[1 - button_index(event.button)] == self.buttons@[1 - button_index(
            event.button,
        )]
        &&& self.logged(after, now_ms, "KEY"@, input_detail(event))
        &&& after.same_content(self)
        &&& after.display_brightness == self.display_brightness
    }

    /// Applies one button gesture: updates the button statistics, moves
    /// through the views as the BOOT/KEY table says, leaves at most one
    /// pending action (any earlier one is discarded), withdraws a power-off
    /// readiness, and records the gesture in the event history.
    #[verifier::rlimit(40)]
    pub fn apply_input(&mut self, event: InputEvent, now_ms: u64)
        requires
            input_is_safe(old(self).navigation(), old(self).files@.len(), event),
        ensures
            old(self).input_applied(*final(self), event, now_ms),
            old(self).wf() ==> final(self).wf(),
    {
        self.pending_action = None;
        self.poweroff_prepared = false;

        let i = event.button.index();
        let mut stats = self.buttons[i];
        match event.gesture {
            Gesture::Click => stats.clicks = stats.clicks.saturating_add(1),
            Gesture::LongPress => stats.long_presses = stats.long_presses.saturating_add(1),
        }
        stats.held_ms = event.held_ms;
        self.buttons[i] = stats;

        match (event.button, event.gesture) {
            (Button::Key, Gesture::LongPress) => {
                self.pending_action = match self.view {
                    View::Recorder if self.recording => Some(UiAction::ToggleRecording),
                    View::Player => Some(UiAction::StopPlayback),
                    _ => None,
                };
                self.view = View::Home;
            },
            (Button::Key, Gesture::Click) => {
                self.pending_action = match self.view {
                    View::Recorder if self.recording => Some(UiAction::ToggleRecording),
                    View::Player => Some(UiAction::StopPlayback),
                    _ => None,
                };
                self.view = match self.view {
                    View::Home => View::Home,
                    View::Menu => View::Home,
                    View::Player | View::Viewer => View::Files,
                    _ => View::Menu,
                };
            },
            (Button::Boot, Gesture::Click) => match self.view {
                View::Home => {
                    self.menu_index = 0;
                    self.view = View::Menu;
                },
                View::Menu => self.menu_index = (self.menu_index + 1) % 5,
                View::Files => {
                    if self.files.len() > 0 {
                        self.file_index = (self.file_index + 1) % self.files.len();
                    }
                },
                View::Recorder => self.pending_action = Some(UiAction::ToggleRecording),
                View::Player => self.pending_action = Some(UiAction::TogglePlayback),
                View::Viewer => self.pending_action = Some(UiAction::ViewerNext),
                View::Live => {},
                View::Diagnostics => self.event_offset = self.event_offset.saturating_add(5),
                View::Settings => {
                    self.settings_index = (self.settings_index + 1) % 6;
                },
            },
            (Button::Boot, Gesture::LongPress) => match self.view {
                View::Home => {
                    self.menu_index = 0;
                    self.view = View::Menu;
                },
                View::Menu => {
                    self.view = match self.menu_index {
                        0 => View::Recorder,
                        1 => View::Files,
                        2 => View::Live,
                        3 => View::Diagnostics,
                        _ => View::Settings,
                    };
                    if self.view == View::Files {
                        self.pending_action = Some(UiAction::RefreshFiles);
                    }
                },
                View::Files => self.pending_action = Some(UiAction::OpenSelectedFile),
                View::Recorder => self.pending_action = Some(UiAction::OpenLastRecording),
                View::Player => self.pending_action = Some(UiAction::StopPlayback),
                View::Viewer => self.pending_action = Some(UiAction::ViewerTop),
                View::Live => self.view = View::Recorder,
                View::Diagnostics => self.event_offset = 0,
                View::Settings => {
                    self.pending_action = Some(
                        match self.settings_index {
                            0 => UiAction::RefreshDisplay,
                            1 => UiAction::CycleVolume,
                            2 => UiAction::SpeakerTest,
                            3 => UiAction::ToggleEventLog,
                            4 => UiAction::RefreshFiles,
                            _ => UiAction::PreparePoweroff,
                        },
                    );
                },
            },
        }

        let mut detail = String::new();
        push_str(&mut detail, event.button.label());
        push_str(&mut detail, " ");
        push_str(
            &mut detail,
            match event.gesture {
                Gesture::Click => "click",
                Gesture::LongPress => "long",
            },
        );
        push_str(&mut detail, " ");
        push_decimal(&mut detail, event.held_ms);
        push_str(&mut detail, "ms");
        assert(detail@ =~= input_detail(event));
        self.record(now_ms, "KEY", detail.as_str());
    }

    /// Applies one released Touch349 tap in native portrait coordinates: the
    /// bottom bar goes HOME or BACK, other targets depend on the view. Leaves
    /// at most one pending action, withdraws a power-off readiness and
    /// records the tap. Returns true when the backlight setting changed and
    /// must be applied by the firmware.
    pub fn apply_touch349(&mut self, x: u16, y: u16, now_ms: u64) -> (brightness_changed: bool)
        requires
            !(old(self).view == View::Files && old(self).files@.len() > 0
                && files_tap_overflows(old(self).file_index, x, y)),
        ensures
            ({
                let outcome = touch_navigation(
                    old(self).navigation(),
                    old(self).display_brightness,
                    old(self).recording,
                    old(self).last_recording@.len() > 0,
                    old(self).files@.len(),
                    x,
                    y,
                );
                &&& final(self).navigation() == outcome.0
                &&& final(self).display_brightness == outcome.1
                &&& brightness_changed == outcome.2
            }),
            !final(self).poweroff_prepared,
            final(self).buttons == old(self).buttons,
            old(self).logged(*final(self), now_ms, "TOUCH"@, touch_detail(x, y)),
            final(self).same_content(*old(self)),
            old(self).wf() ==> final(self).wf(),
    {
        self.pending_action = None;
        self.poweroff_prepared = false;
        let mut brightness_changed = false;
        if y >= 568 {
            if self.view == View::Recorder && self.recording {
                self.pending_action = Some(UiAction::ToggleRecording);
            } else if self.view == View::Player {
                self.pending_action = Some(UiAction::StopPlayback);
            }
            if x < 86 {
                self.view = View::Home;
            } else {
                self.view = match self.view {
                    View::Home | View::Menu => View::Home,
                    View::Player | View::Viewer => View::Files,
                    _ => View::Menu,
                };
            }
        } else {
            match self.view {
                View::Home if 252 <= y && y < 468 => {
                    let column: u8 = if x >= 86 {
                        1
                    } else {
                        0
                    };
                    let row: u8 = if y >= 368 {
                        1
                    } else {
                        0
                    };
                    let row_top: u16 = if row == 0 {
                        252
                    } else {
                        368
                    };
                    if 8 <= x && x < 164 && row_top <= y && y < row_top + 100 && !(84 <= x && x
                        < 88) {
                        self.menu_index = row * 2 + column;
                        self.view = match self.menu_index {
                            0 => View::Recorder,
                            1 => View::Files,
                            2 => View::Live,
                            _ => View::Settings,
                        };
                    }
                },
                View::Menu if 68 <= y && y < 508 => {
                    let row = (y - 68) / 88;
                    self.menu_index = (if row > 4 {
                        4
                    } else {
                        row
                    }) as u8;
                    self.view = match self.menu_index {
                        0 => View::Recorder,
                        1 => View::Files,
                        2 => View::Live,
                        3 => View::Diagnostics,
                        _ => View::Settings,
                    };
                },
                View::Settings if 72 <= y && y < 456 => {
                    let row = (y - 72) / 96;
                    if row == 0 {
                        self.display_brightness = if self.display_brightness <= 20 {
                            50
                        } else if self.display_brightness <= 50 {
                            80
                        } else if self.display_brightness <= 80 {
                            100
                        } else {
                            20
                        };
                        brightness_changed = true;
                    } else if row == 1 || row == 2 {
                        self.pending_action = Some(UiAction::RefreshDisplay);
                    } else {
                        self.view = View::Diagnostics;
                    }
                },
                View::Recorder if 8 <= x && x < 164 => {
                    if self.recording && 448 <= y && y < 504 {
                        self.pending_action = Some(UiAction::ToggleRecording);
                    } else if !self.recording && self.last_recording.as_str().unicode_len() > 0 {
                        if 416 <= y && y < 472 {
                            self.pending_action = Some(UiAction::ToggleLastRecording);
                        } else if 488 <= y && y < 544 {
                            self.pending_action = Some(UiAction::ToggleRecording);
                        }
                    } else if 448 <= y && y < 504 {
                        self.pending_action = Some(UiAction::ToggleRecording);
                    }
                },
                View::Files => {
                    if self.files.len() == 0 {
                        if 8 <= x && x < 164 && 448 <= y && y < 504 {
                            self.pending_action = Some(UiAction::RefreshFiles);
                        }
                    } else if 68 <= y && y < 500 {
                        let row: usize = ((y - 68) / 72) as usize;
                        let row_top: u16 = 68 + (row as u16) * 72;
                        if 8 <= x && x < 164 && row_top <= y && y < row_top + 60 {
                            let start = self.file_index.saturating_sub(3);
                            let wanted = start + row;
                            let last = self.files.len() - 1;
                            self.file_index = if wanted > last {
                                last
                            } else {
                                wanted
                            };
                            self.pending_action = Some(UiAction::OpenSelectedFile);
                        }
                    }
                },
                View::Player if 8 <= x && x < 164 && 458 <= y && y < 514 => {
                    self.pending_action = Some(UiAction::TogglePlayback)
                },
                View::Diagnostics if 8 <= x && x < 164 && 488 <= y && y < 544 => {
                    self.pending_action = Some(UiAction::SpeakerTest)
                },
                View::Live if 8 <= x && x < 164 && 508 <= y && y < 564 => {
                    self.view = View::Recorder
                },
                View::Viewer if y >= 130 => self.pending_action = Some(UiAction::ViewerNext),
                _ => {},
            }
        }
        let mut detail = String::new();
        push_str(&mut detail, "x=");
        push_decimal(&mut detail, x as u64);
        push_str(&mut detail, " y=");
        push_decimal(&mut detail, y as u64);
        assert(detail@ =~= touch_detail(x, y));
        self.record(now_ms, "TOUCH", detail.as_str());
        brightness_changed
    }

    /// Appends an event to the history, dropping (and counting) the oldest
    /// when the history is full. Returns the new event's sequence number.
    pub fn record(&mut self, at_ms: u64, source: &'static str, detail: &str) -> (seq: u64)
        ensures
            seq == old(self).next_event_seq,
            old(self).logged(*final(self), at_ms, source@, detail@),
            final(self).same_content(*old(self)),
            final(self).navigation() == old(self).navigation(),
            final(self).buttons == old(self).buttons,
            final(self).display_brightness == old(self).display_brightness,
            final(self).poweroff_prepared == old(self).poweroff_prepared,
            old(self).wf() ==> final(self).wf(),
    {
        let seq = self.next_event_seq;
        self.next_event_seq = self.next_event_seq.saturating_add(1);
        let ghost before = self.events@;
        if self.events.len() == EVENT_CAPACITY {
            self.events.pop_front();
            self.runtime.dropped_events = self.runtime.dropped_events.saturating_add(1);
        }
        let ghost kept = self.events@;
        assert(kept == retained_events(before));
        self.events.push_back(
            RecordedEvent { seq, at_ms, source, detail: String::from_str(detail) },
        );
        assert(self.events@.drop_last() =~= kept);
        seq
    }
}

impl DashboardState {
    /// The controls as they stand at power-up: home screen, first rows,
    /// nothing pending, volume 55%, backlight 80%, event log off, nothing
    /// recording or playing, no power-off or refresh asked for, no event
    /// recorded yet and no button pressed.
    pub open spec fn startup_controls(self) -> bool {
        &&& self.view == View::Home
        &&& self.menu_index == 0 && self.event_offset == 0 && self.settings_index == 0
        &&& self.file_index == 0
        &&& self.pending_action is None
        &&& self.speaker_volume == 55
        &&& self.speaker_test_state == SpeakerTestState::Idle
        &&& self.display_brightness == 80
        &&& self.display_fps == 0
        &&& !self.event_logging_enabled
        &&& !self.recording
        &&& !self.playing
        &&& !self.poweroff_prepared
        &&& !self.prepare_poweroff_requested
        &&& !self.refresh_requested
        &&& self.recording_started_ms == 0
        &&& self.viewer_next_offset == 0
        &&& self.buttons@[0].is_zeroed() && self.buttons@[1].is_zeroed()
    }

    /// No media yet: no recording, player or viewer file, no file list.
    pub open spec fn no_media(self) -> bool {
        &&& self.recording_name@.len() == 0
        &&& self.last_recording@.len() == 0
        &&& self.playback_name@.len() == 0
        &&& self.viewer_name@.len() == 0
        &&& self.viewer_preview@.len() == 0
        &&& self.recording_bytes == 0
        &&& self.playback_position_ms == 0 && self.playback_duration_ms == 0
        &&& self.viewer_size == 0 && self.viewer_offset == 0
        &&& self.files@.len() == 0
    }
}

impl Default for DashboardState {
    fn default() -> (s: Self)
        ensures
            s.startup_controls(),
            s.events@.len() == 0 && s.next_event_seq == 1,
            s.clock.is_unset(),
            s.wifi.is_unset(),
            s.environment.is_unset(),
            s.battery.is_unset(),
            s.audio.is_fresh() && s.playback_audio.is_fresh(),
            s.storage.is_unset(),
            s.runtime.is_unset(),
            s.no_media(),
            s.audio.wf() && s.playback_audio.wf(),
            s.audio.history().len() == 0,
            s.wf(),
    {
        DashboardState {
            view: View::Home,
            menu_index: 0,
            event_offset: 0,
            clock: ClockTelemetry::default(),
            wifi: WifiTelemetry::default(),
            environment: EnvironmentTelemetry::default(),
            battery: BatteryTelemetry::default(),
            audio: AudioTelemetry::default(),
            storage: StorageTelemetry::default(),
            runtime: RuntimeTelemetry::default(),
            buttons: [ButtonTelemetry::default(), ButtonTelemetry::default()],
            settings_index: 0,
            speaker_volume: 55,
            speaker_test_state: SpeakerTestState::Idle,
            display_brightness: 80,
            display_fps: 0,
            event_logging_enabled: false,
            recording: false,
            recording_name: String::new(),
            recording_bytes: 0,
            recording_started_ms: 0,
            last_recording: String::new(),
            files: Vec::new(),
            file_index: 0,
            playing: false,
            playback_name: String::new(),
            playback_position_ms: 0,
            playback_duration_ms: 0,
            playback_audio: AudioTelemetry::default(),
            viewer_name: String::new(),
            viewer_size: 0,
            viewer_offset: 0,
            viewer_next_offset: 0,
            viewer_preview: String::new(),
            poweroff_prepared: false,
            prepare_poweroff_requested: false,
            refresh_requested: false,
            pending_action: None,
            events: VecDeque::with_capacity(EVENT_CAPACITY),
            next_event_seq: 1,
        }
    }
}

} // verus!
