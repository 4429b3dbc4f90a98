//! The touch board's runtime as decisions: its action table, the serial
//! console's command table, and how recorder, player, network and clock
//! readings change the state. The caller talks to the card, the codec and
//! the radio, then reports back.

use vstd::prelude::*;
use vstd::view::View as _;
use crate::console::CommandKind;
use crate::dashboard::{DashboardState, FileEntry, FileKind, UiAction, View};
use crate::device::{next_volume_touch349, spec_next_volume_touch349};
use crate::library::find_file;
use crate::media::playback_chunk_played;
use crate::preview::{joined_hex, push_joined_hex, row_bytes, rows_for};
use crate::telemetry::{
    level_pushed, AudioTelemetry, BatteryTelemetry, Health, RuntimeTelemetry, StorageTelemetry,
};
use crate::text::{
    decimal, hexadecimal, pad_left, push_char, push_decimal, push_hex_zero_padded, push_str,
    signed_decimal,
};

verus! {

/// The work one dashboard action asks of the touch runtime.
#[derive(Clone, Copy, Debug, PartialEq, Eq, Structural)]
pub enum TouchStep {
    /// Remount and rescan the card.
    RefreshStorage,
    /// Ask the recorder to finish its WAV.
    StopRecorder,
    /// Close the player, pick a free name and start the recorder.
    StartRecorder,
    /// Open the file at `index` of the list: a WAV in the player (and start
    /// it in place when `play`), anything else in the viewer.
    OpenEntry { index: usize, play: bool },
    /// Read a page of the file open in the viewer.
    OpenViewer { offset: u64 },
    /// Stop the speaker and rewind the player.
    StopPlayback,
    /// Pause or resume.
    FlipPlayback,
    /// Set the codec volume.
    SetVolume(u8),
    /// Switch the SD event log on or off.
    ToggleEventLog,
    /// Ask the main loop to prepare for power-off.
    PreparePoweroff,
    /// Nothing to do.
    Nothing,
}

/// Why the touch runtime refused an action.
#[derive(Clone, Copy, Debug, PartialEq, Eq, Structural)]
pub enum TouchActionError {
    CardNotMounted,
    MicrophoneNotReady,
    NoRecording,
    RecordingNotOnCard,
    NoSelection,
    NoFileOpen,
    NoWavOpen,
    StopRecordingFirst,
    SpeakerNotReady,
    SpeakerTestUnavailable,
}

/// What the touch runtime reports for a refused action.
pub open spec fn touch_action_message(e: TouchActionError) -> Seq<char> {
    match e {
        TouchActionError::CardNotMounted => "SD card is not mounted"@,
        TouchActionError::MicrophoneNotReady => "microphone is not ready"@,
        TouchActionError::NoRecording => "no recording is available"@,
        TouchActionError::RecordingNotOnCard => "last recording is not on the SD card"@,
        TouchActionError::NoSelection => "no SD file is selected"@,
        TouchActionError::NoFileOpen => "no file is open"@,
        TouchActionError::NoWavOpen => "no WAV file is open"@,
        TouchActionError::StopRecordingFirst => "stop recording before playback"@,
        TouchActionError::SpeakerNotReady => "speaker output is not ready"@,
        TouchActionError::SpeakerTestUnavailable => "speaker test is not exposed on this screen"@,
    }
}

impl TouchActionError {
    /// The text reported for this error.
    pub fn message(self) -> (m: &'static str)
        ensures
            m@ == touch_action_message(self),
    {
        match self {
            TouchActionError::CardNotMounted => "SD card is not mounted",
            TouchActionError::MicrophoneNotReady => "microphone is not ready",
            TouchActionError::NoRecording => "no recording is available",
            TouchActionError::RecordingNotOnCard => "last recording is not on the SD card",
            TouchActionError::NoSelection => "no SD file is selected",
            TouchActionError::NoFileOpen => "no file is open",
            TouchActionError::NoWavOpen => "no WAV file is open",
            TouchActionError::StopRecordingFirst => "stop recording before playback",
            TouchActionError::SpeakerNotReady => "speaker output is not ready",
            TouchActionError::SpeakerTestUnavailable => "speaker test is not exposed on this screen",
        }
    }
}

/// Index of the first listed file named `name`.
pub open spec fn first_named(files: Seq<FileEntry>, name: Seq<char>) -> Option<usize> {
    if exists|i: int| 0 <= i < files.len() && #[trigger] files[i].name@ == name {
        let i = choose|i: int|
            0 <= i < files.len() && #[trigger] files[i].name@ == name && forall|k: int|
                0 <= k < i ==> #[trigger] files[k].name@ != name;
        Some(i as usize)
    } else {
        None
    }
}

/// Opening the last recording: it must exist and be listed.
pub open spec fn last_recording_step(state: DashboardState, play: bool) -> Result<
    TouchStep,
    TouchActionError,
> {
    if state.last_recording@.len() == 0 {
        Err(TouchActionError::NoRecording)
    } else {
        match first_named(state.files@, state.last_recording@) {
            Some(i) => Ok(TouchStep::OpenEntry { index: i, play }),
            None => Err(TouchActionError::RecordingNotOnCard),
        }
    }
}

/// The touch board's action table; `player_open` says whether a WAV is
/// open and `output_ready` whether the speaker path is up.
pub open spec fn spec_touch_step(
    action: UiAction,
    state: DashboardState,
    player_open: bool,
    output_ready: bool,
) -> Result<TouchStep, TouchActionError> {
    match action {
        UiAction::RefreshFiles => Ok(TouchStep::RefreshStorage),
        UiAction::ToggleRecording => if state.recording {
            Ok(TouchStep::StopRecorder)
        } else if !state.storage.mounted {
            Err(TouchActionError::CardNotMounted)
        } else if state.audio.health != Health::Healthy {
            Err(TouchActionError::MicrophoneNotReady)
        } else {
            Ok(TouchStep::StartRecorder)
        },
        UiAction::OpenLastRecording => last_recording_step(state, false),
        UiAction::ToggleLastRecording => if state.playing {
            Ok(TouchStep::StopPlayback)
        } else {
            last_recording_step(state, true)
        },
        UiAction::OpenSelectedFile => if state.file_index < state.files@.len() {
            Ok(TouchStep::OpenEntry { index: state.file_index, play: false })
        } else {
            Err(TouchActionError::NoSelection)
        },
        UiAction::ViewerNext => if state.viewer_name@.len() == 0 {
            Err(TouchActionError::NoFileOpen)
        } else {
            Ok(
                TouchStep::OpenViewer {
                    offset: crate::media::next_page_offset(
                        state.viewer_size,
                        state.viewer_next_offset,
                    ),
                },
            )
        },
        UiAction::ViewerTop => if state.viewer_name@.len() == 0 {
            Err(TouchActionError::NoFileOpen)
        } else {
            Ok(TouchStep::OpenViewer { offset: 0 })
        },
        UiAction::StopPlayback => Ok(TouchStep::StopPlayback),
        UiAction::RefreshDisplay => Ok(TouchStep::Nothing),
        UiAction::PreparePoweroff => Ok(TouchStep::PreparePoweroff),
        UiAction::TogglePlayback => if !player_open {
            Err(TouchActionError::NoWavOpen)
        } else if state.recording {
            Err(TouchActionError::StopRecordingFirst)
        } else if !(state.playing || output_ready) {
            Err(TouchActionError::SpeakerNotReady)
        } else {
            Ok(TouchStep::FlipPlayback)
        },
        UiAction::CycleVolume => Ok(
            TouchStep::SetVolume(spec_next_volume_touch349(state.speaker_volume)),
        ),
        UiAction::SpeakerTest => Err(TouchActionError::SpeakerTestUnavailable),
        UiAction::ToggleEventLog => Ok(TouchStep::ToggleEventLog),
    }
}

fn last_recording_plan(state: &DashboardState, play: bool) -> (r: Result<
    TouchStep,
    TouchActionError,
>)
    ensures
        r == last_recording_step(*state, play),
{
    if state.last_recording.as_str().unicode_len() == 0 {
        return Err(TouchActionError::NoRecording);
    }
    match find_file(&state.files, state.last_recording.as_str()) {
        Some(i) => {
            proof {
                let files = state.files@;
                let name = state.last_recording@;
                assert(0 <= i < files.len() && files[i as int].name@ == name);
                let c = choose|j: int|
                    0 <= j < files.len() && #[trigger] files[j].name@ == name && forall|k: int|
                        0 <= k < j ==> #[trigger] files[k].name@ != name;
                assert(c == i as int) by {
                    if c < i {
                        assert(files[c].name@ != name);
                    }
                    if c > i {
                        assert(files[i as int].name@ != name);
                    }
                }
            }
            Ok(TouchStep::OpenEntry { index: i, play })
        },
        None => Err(TouchActionError::RecordingNotOnCard),
    }
}

/// Decides what `action` asks of the touch runtime.
pub fn plan_touch349_action(
    action: UiAction,
    state: &DashboardState,
    player_open: bool,
    output_ready: bool,
) -> (r: Result<TouchStep, TouchActionError>)
    ensures
        r == spec_touch_step(action, *state, player_open, output_ready),
{
    match action {
        UiAction::RefreshFiles => Ok(TouchStep::RefreshStorage),
        UiAction::ToggleRecording => if state.recording {
            Ok(TouchStep::StopRecorder)
        } else if !state.storage.mounted {
            Err(TouchActionError::CardNotMounted)
        } else if state.audio.health != Health::Healthy {
            Err(TouchActionError::MicrophoneNotReady)
        } else {
            Ok(TouchStep::StartRecorder)
        },
        UiAction::OpenLastRecording => last_recording_plan(state, false),
        UiAction::ToggleLastRecording => if state.playing {
            Ok(TouchStep::StopPlayback)
        } else {
            last_recording_plan(state, true)
        },
        UiAction::OpenSelectedFile => if state.file_index < state.files.len() {
            Ok(TouchStep::OpenEntry { index: state.file_index, play: false })
        } else {
            Err(TouchActionError::NoSelection)
        },
        UiAction::ViewerNext => if state.viewer_name.as_str().unicode_len() == 0 {
            Err(TouchActionError::NoFileOpen)
        } else {
            let offset = if state.viewer_next_offset >= state.viewer_size {
                0
            } else {
                state.viewer_next_offset
            };
            Ok(TouchStep::OpenViewer { offset })
        },
        UiAction::ViewerTop => if state.viewer_name.as_str().unicode_len() == 0 {
            Err(TouchActionError::NoFileOpen)
        } else {
            Ok(TouchStep::OpenViewer { offset: 0 })
        },
        UiAction::StopPlayback => Ok(TouchStep::StopPlayback),
        UiAction::RefreshDisplay => Ok(TouchStep::Nothing),
        UiAction::PreparePoweroff => Ok(TouchStep::PreparePoweroff),
        UiAction::TogglePlayback => if !player_open {
            Err(TouchActionError::NoWavOpen)
        } else if state.recording {
            Err(TouchActionError::StopRecordingFirst)
        } else if !(state.playing || output_ready) {
            Err(TouchActionError::SpeakerNotReady)
        } else {
            Ok(TouchStep::FlipPlayback)
        },
        UiAction::CycleVolume => Ok(TouchStep::SetVolume(next_volume_touch349(state.speaker_volume))),
        UiAction::SpeakerTest => Err(TouchActionError::SpeakerTestUnavailable),
        UiAction::ToggleEventLog => Ok(TouchStep::ToggleEventLog),
    }
}

/// The recorder was asked to finish: the stop is pending until its
/// statistics confirm it, and the request is logged.
pub fn touch_stop_requested(state: &mut DashboardState, stop_pending: &mut bool, now_ms: u64)
    ensures
        *final(stop_pending),
        old(state).then_logged(*final(state), now_ms, "REC"@, "finalizing WAV"@),
{
    *stop_pending = true;
    state.record(now_ms, "REC", "finalizing WAV");
}

/// The recorder started writing `name`: the player is closed, recording
/// counts from zero at `now_ms`, and the start is logged.
pub fn touch_recording_started(state: &mut DashboardState, name: String, now_ms: u64)
    ensures
        ({
            let mid = DashboardState {
                playing: false,
                recording: true,
                recording_name: name,
                recording_started_ms: now_ms,
                recording_bytes: 0,
                ..*old(state)
            };
            mid.then_logged(*final(state), now_ms, "REC"@, "started "@ + name@)
        }),
{
    let mut detail = String::new();
    push_str(&mut detail, "started ");
    push_str(&mut detail, name.as_str());
    proof {
        reveal_strlit("started ");
    }
    state.playing = false;
    state.recording = true;
    state.recording_name = name;
    state.recording_started_ms = now_ms;
    state.recording_bytes = 0;
    state.record(now_ms, "REC", detail.as_str());
}

/// A WAV of `duration_ms` opened in the player, at the start, its levels
/// marked stale. Opened from the list it shows the player, paused; the
/// recorder's play button (`in_place`) keeps the current view and plays.
pub fn touch_media_opened(state: &mut DashboardState, name: String, duration_ms: u64, in_place: bool)
    ensures
        *final(state) == (DashboardState {
            playback_duration_ms: duration_ms,
            playback_position_ms: 0,
            playback_name: name,
            playback_audio: crate::telemetry::AudioTelemetry {
                health: Health::Error,
                ..old(state).playback_audio
            },
            playing: in_place,
            view: if in_place {
                old(state).view
            } else {
                View::Player
            },
            ..*old(state)
        }),
{
    state.playback_duration_ms = duration_ms;
    state.playback_position_ms = 0;
    state.playback_name = name;
    state.playback_audio.health = Health::Error;
    state.playing = in_place;
    if !in_place {
        state.view = View::Player;
    }
}

/// The event log switches on or off.
pub fn event_log_flipped(state: &mut DashboardState)
    ensures
        *final(state) == (DashboardState {
            event_logging_enabled: !old(state).event_logging_enabled,
            ..*old(state)
        }),
{
    state.event_logging_enabled = !state.event_logging_enabled;
}

/// A reading of the touch board's recorder statistics.
#[derive(Clone, Copy, Debug, PartialEq, Eq, Structural)]
pub struct RecorderStats {
    pub bytes_written: u64,
    pub rms: u32,
    pub peak: u32,
    pub last_error: i32,
    pub ready: bool,
    pub recording: bool,
}

/// What a recorder poll found.
#[derive(Clone, Copy, Debug, PartialEq, Eq, Structural)]
pub enum RecorderPoll {
    /// The statistics could not be read.
    Unavailable,
    /// The recorder is writing.
    Recording,
    /// A recording just finished and was saved: rescan the card.
    Saved,
    /// A recording just finished but the recorder reported an error.
    SaveFailed,
    /// Nothing is being recorded: read the live levels.
    Idle,
}

/// A 32-bit level clipped to 16 bits.
pub open spec fn clip16(v: u32) -> u16 {
    if v > u16::MAX {
        u16::MAX
    } else {
        v as u16
    }
}

fn clip_u16(v: u32) -> (r: u16)
    ensures
        r == clip16(v),
{
    if v > u16::MAX as u32 {
        u16::MAX
    } else {
        v as u16
    }
}

/// What the statistics say of the recorder.
pub open spec fn spec_recorder_poll(
    stats: Option<RecorderStats>,
    recording: bool,
    stop_pending: bool,
) -> RecorderPoll {
    match stats {
        None => RecorderPoll::Unavailable,
        Some(s) => if s.recording {
            RecorderPoll::Recording
        } else if recording || stop_pending {
            if s.last_error == 0 {
                RecorderPoll::Saved
            } else {
                RecorderPoll::SaveFailed
            }
        } else {
            RecorderPoll::Idle
        },
    }
}

/// The state once a readable poll's levels and counts are taken in: the
/// microphone health follows `ready`, the levels are clipped to 16 bits, a
/// frame is four bytes.
pub open spec fn with_recorder_stats(state: DashboardState, s: RecorderStats) -> DashboardState {
    DashboardState {
        audio: AudioTelemetry {
            health: if s.ready {
                Health::Healthy
            } else {
                Health::Error
            },
            rms: clip16(s.rms),
            peak: clip16(s.peak),
            frames_total: s.bytes_written / 4,
            ..state.audio
        },
        recording_bytes: s.bytes_written,
        ..state
    }
}

/// Applies a recorder poll. An unreadable poll marks the microphone failed.
/// Otherwise the microphone health, levels, frame count and byte count
/// follow the statistics; while recording the RMS joins the history; when a
/// recording just ended (recording, or a stop pending) the stop completes:
/// on success the file becomes the last recording and the save is logged,
/// on failure the card is marked failed, the write error counted and the
/// failure logged with the recorder's error code.
pub fn apply_recorder_stats(
    state: &mut DashboardState,
    stats: Option<RecorderStats>,
    stop_pending: &mut bool,
    now_ms: u64,
) -> (poll: RecorderPoll)
    requires
        old(state).audio.history_head < 72,
    ensures
        poll == spec_recorder_poll(stats, old(state).recording, *old(stop_pending)),
        poll == RecorderPoll::Unavailable ==> *final(state) == (DashboardState {
            audio: AudioTelemetry { health: Health::Error, ..old(state).audio },
            ..*old(state)
        }) && *final(stop_pending) == *old(stop_pending),
        poll == RecorderPoll::Recording ==> ({
            let taken = with_recorder_stats(*old(state), stats->0);
            &&& *final(state) == (DashboardState {
                audio: final(state).audio,
                recording: true,
                ..taken
            })
            &&& level_pushed(taken.audio, final(state).audio, clip16(stats->0.rms))
            &&& *final(stop_pending) == *old(stop_pending)
        }),
        poll == RecorderPoll::Recording && old(state).audio.wf() ==> final(state).audio.history() == (
        if old(state).audio.history_len < 72 {
            old(state).audio.history().push(clip16(stats->0.rms))
        } else {
            old(state).audio.history().drop_first().push(clip16(stats->0.rms))
        }),
        poll == RecorderPoll::Saved ==> !*final(stop_pending) && (DashboardState {
            recording: false,
            last_recording: old(state).recording_name,
            ..with_recorder_stats(*old(state), stats->0)
        }).then_logged(
            *final(state),
            now_ms,
            "REC"@,
            "saved "@ + decimal(stats->0.bytes_written as nat) + " bytes"@,
        ),
        poll == RecorderPoll::SaveFailed ==> !*final(stop_pending) && ({
            let taken = with_recorder_stats(*old(state), stats->0);
            (DashboardState {
                recording: false,
                storage: StorageTelemetry {
                    health: Health::Error,
                    write_errors: crate::device::sat_inc_u32(old(state).storage.write_errors),
                    ..taken.storage
                },
                ..taken
            }).then_logged(
                *final(state),
                now_ms,
                "REC"@,
                "save failed "@ + signed_decimal(stats->0.last_error as int),
            )
        }),
        poll == RecorderPoll::Idle ==> *final(state) == with_recorder_stats(*old(state), stats->0)
            && *final(stop_pending) == *old(stop_pending),
{
    let s = match stats {
        None => {
            state.audio.health = Health::Error;
            return RecorderPoll::Unavailable;
        },
        Some(s) => s,
    };
    state.audio.health = if s.ready {
        Health::Healthy
    } else {
        Health::Error
    };
    state.audio.rms = clip_u16(s.rms);
    state.audio.peak = clip_u16(s.peak);
    state.audio.frames_total = s.bytes_written / 4;
    state.recording_bytes = s.bytes_written;
    if s.recording {
        state.recording = true;
        let level = state.audio.rms;
        state.audio.push_level(level);
        return RecorderPoll::Recording;
    }
    if state.recording || *stop_pending {
        state.recording = false;
        *stop_pending = false;
        if s.last_error == 0 {
            state.last_recording = state.recording_name.clone();
            let mut detail = String::new();
            push_str(&mut detail, "saved ");
            push_decimal(&mut detail, s.bytes_written);
            push_str(&mut detail, " bytes");
            proof {
                reveal_strlit("saved ");
                reveal_strlit(" bytes");
            }
            state.record(now_ms, "REC", detail.as_str());
            RecorderPoll::Saved
        } else {
            state.storage.write_errors = state.storage.write_errors.saturating_add(1);
            state.storage.health = Health::Error;
            let mut detail = String::new();
            push_str(&mut detail, "save failed ");
            if s.last_error < 0 {
                push_char(&mut detail, '-');
                push_decimal(&mut detail, (0 - (s.last_error as i64)) as u64);
            } else {
                push_decimal(&mut detail, s.last_error as u64);
            }
            assert(detail@ =~= "save failed "@ + signed_decimal(s.last_error as int));
            state.record(now_ms, "REC", detail.as_str());
            RecorderPoll::SaveFailed
        }
    } else {
        RecorderPoll::Idle
    }
}

/// The rescan after a save failed: the card is marked failed.
pub fn storage_refresh_failed(state: &mut DashboardState)
    ensures
        *final(state) == (DashboardState {
            storage: StorageTelemetry { health: Health::Error, ..old(state).storage },
            ..*old(state)
        }),
{
    state.storage.health = Health::Error;
}

/// Live levels read while the recorder is idle: they join the history, and
/// the screen needs a redraw only in the views that show them.
pub fn apply_live_levels(state: &mut DashboardState, levels: Option<(u32, u32)>) -> (redraw: bool)
    requires
        old(state).audio.history_head < 72,
    ensures
        levels is None ==> !redraw && *final(state) == *old(state),
        levels matches Some(l) ==> redraw == (old(state).view == View::Live || old(state).view
            == View::Recorder) && level_pushed(
            AudioTelemetry { rms: clip16(l.0), peak: clip16(l.1), ..old(state).audio },
            final(state).audio,
            clip16(l.0),
        ) && *final(state) == (DashboardState { audio: final(state).audio, ..*old(state) }),
        levels matches Some(l) ==> (old(state).audio.wf() ==> final(state).audio.history() == (if old(
            state,
        ).audio.history_len < 72 {
            old(state).audio.history().push(clip16(l.0))
        } else {
            old(state).audio.history().drop_first().push(clip16(l.0))
        })),
{
    match levels {
        None => false,
        Some((rms, peak)) => {
            state.audio.rms = clip_u16(rms);
            state.audio.peak = clip_u16(peak);
            let level = state.audio.rms;
            state.audio.push_level(level);
            state.view == View::Live || state.view == View::Recorder
        },
    }
}

/// Bytes to read next from a WAV of `data_len` bytes at `position`, for an
/// output of `capacity` samples: what remains, at most the output's size;
/// nothing when under one sample remains.
pub open spec fn spec_read_window(data_len: u64, position: u64, capacity: usize) -> int {
    let remaining: int = if data_len >= position {
        data_len - position
    } else {
        0
    };
    let wanted: int = if remaining < 2 * capacity {
        remaining
    } else {
        2 * capacity
    };
    if wanted < 2 {
        0
    } else {
        wanted
    }
}

pub fn read_window(data_len: u64, position: u64, capacity: usize) -> (bytes: u64)
    ensures
        bytes as int == spec_read_window(data_len, position, capacity),
{
    let remaining = data_len.saturating_sub(position);
    let cap = capacity as u64;
    let wanted = if remaining / 2 < cap {
        remaining
    } else {
        cap * 2
    };
    if wanted < 2 {
        0
    } else {
        wanted
    }
}

/// A chunk of `samples` went to the speaker and the player is now at
/// `position_ms`; the screen needs a redraw when the position crossed into
/// another quarter second.
pub fn touch_chunk_played(state: &mut DashboardState, position_ms: u64, samples: &[i16]) -> (redraw:
    bool)
    requires
        old(state).playback_audio.history_head < 72,
    ensures
        redraw == (old(state).playback_position_ms / 250 != position_ms / 250),
        final(state).playback_position_ms == position_ms,
        final(state).playback_audio.health == Health::Healthy,
        *final(state) == (DashboardState {
            playback_position_ms: position_ms,
            playback_audio: final(state).playback_audio,
            ..*old(state)
        }),
{
    let previous = state.playback_position_ms;
    playback_chunk_played(state, position_ms, samples);
    previous / 250 != position_ms / 250
}

/// The playback write failed: playback stops where it is.
pub fn playback_failed(state: &mut DashboardState)
    ensures
        *final(state) == (DashboardState { playing: false, ..*old(state) }),
{
    state.playing = false;
}

/// The network as the radio reports it: up or reconnecting, its retry
/// count and signal, and the dotted address while connected.
pub fn apply_network_stats(
    state: &mut DashboardState,
    connected: bool,
    reconnects: u32,
    rssi_dbm: i8,
    ipv4: [u8; 4],
    ssid: &str,
)
    ensures
        final(state).wifi.health == (if connected {
            Health::Healthy
        } else {
            Health::Stale
        }),
        final(state).wifi.ssid@ == ssid@,
        final(state).wifi.reconnects == reconnects,
        final(state).wifi.rssi_dbm == rssi_dbm as i16,
        connected ==> final(state).wifi.ipv4@ == decimal(ipv4[0] as nat) + seq!['.'] + decimal(
            ipv4[1] as nat,
        ) + seq!['.'] + decimal(ipv4[2] as nat) + seq!['.'] + decimal(ipv4[3] as nat),
        !connected ==> final(state).wifi.ipv4@ == "CONNECTING"@,
        *final(state) == (DashboardState { wifi: final(state).wifi, ..*old(state) }),
{
    state.wifi.health = if connected {
        Health::Healthy
    } else {
        Health::Stale
    };
    state.wifi.ssid = String::from_str(ssid);
    state.wifi.reconnects = reconnects;
    state.wifi.rssi_dbm = rssi_dbm as i16;
    if connected {
        let mut s = String::new();
        push_decimal(&mut s, ipv4[0] as u64);
        push_char(&mut s, '.');
        push_decimal(&mut s, ipv4[1] as u64);
        push_char(&mut s, '.');
        push_decimal(&mut s, ipv4[2] as u64);
        push_char(&mut s, '.');
        push_decimal(&mut s, ipv4[3] as u64);
        assert(s@ =~= decimal(ipv4[0] as nat) + seq!['.'] + decimal(ipv4[1] as nat) + seq!['.']
            + decimal(ipv4[2] as nat) + seq!['.'] + decimal(ipv4[3] as nat));
        state.wifi.ipv4 = s;
    } else {
        state.wifi.ipv4 = String::from_str("CONNECTING");
    }
}

/// The touch board's first state, given the card's mount result: 80%
/// backlight, a placeholder battery reading of 78%, the card's sizes in
/// KiB, nothing known yet of audio, network or time, and a boot event.
pub fn touch349_initial_state(mounted: bool, capacity_bytes: u64, free_bytes: u64) -> (state:
    DashboardState)
    ensures
        state.startup_controls(),
        state.clock.is_unset(),
        state.wifi.is_unset(),
        state.environment.is_unset(),
        state.audio.is_fresh() && state.playback_audio.is_fresh(),
        state.no_media(),
        state.runtime == (RuntimeTelemetry {
            uptime_ms: 0,
            free_heap: 0,
            min_free_heap: 0,
            free_psram: 0,
            loop_hz: 50,
            display_flush_ms: 0,
            dropped_events: 0,
        }),
        state.next_event_seq == 2,
        state.events@.len() == 1,
        state.events@[0].seq == 1 && state.events@[0].at_ms == 0,
        state.battery == (BatteryTelemetry {
            health: Health::Unknown,
            millivolts: 0,
            percent: 78,
            raw: 0,
        }),
        state.storage == (StorageTelemetry {
            health: if mounted {
                Health::Healthy
            } else {
                Health::Error
            },
            mounted,
            total_kib: capacity_bytes / 1024,
            free_kib: free_bytes / 1024,
            event_bytes_written: 0,
            pending_events: 0,
            write_errors: 0,
        }),
        state.events@[0].source@ == "BOOT"@,
        state.events@[0].detail@ == "Touch349 product UI started"@,
        state.wf(),
        state.audio.wf(),
        state.playback_audio.wf(),
{
    let mut state = DashboardState::default();
    state.display_brightness = 80;
    state.display_fps = 0;
    state.battery = BatteryTelemetry { health: Health::Unknown, millivolts: 0, percent: 78, raw: 0 };
    state.storage = StorageTelemetry {
        health: if mounted {
            Health::Healthy
        } else {
            Health::Error
        },
        mounted,
        total_kib: capacity_bytes / 1024,
        free_kib: free_bytes / 1024,
        event_bytes_written: 0,
        pending_events: 0,
        write_errors: 0,
    };
    state.audio.health = Health::Unknown;
    state.wifi.health = Health::Unknown;
    state.clock.health = Health::Unknown;
    state.runtime.loop_hz = 50;
    state.runtime.free_psram = 0;
    state.record(0, "BOOT", "Touch349 product UI started");
    state
}

/// What a console command asks for, once parsed.
#[derive(Clone, Copy, Debug, PartialEq, Eq, Structural)]
pub enum ConsoleStep {
    Help,
    Status,
    WifiScan,
    SdScan,
    ListFiles,
    /// Run a dashboard action.
    Dispatch(UiAction),
    /// Close the player and return to the file list.
    ClosePlayer,
    /// Report the named file's kind and size.
    StatFile,
    /// Dump the first bytes of the named file.
    ReadFile,
    /// Arm the deletion of the named file.
    PrepareDelete,
    /// Delete the armed file.
    ConfirmDelete,
    /// Rescan, then open the named WAV in the player.
    OpenWav,
}

/// Why a console command was refused before any work.
#[derive(Clone, Copy, Debug, PartialEq, Eq, Structural)]
pub enum ConsoleError {
    NoWavOpen,
    RecorderIdle,
    NameRequired,
    UnknownCommand,
    FileNotFound,
    NotWav,
}

/// What the console answers for a refused command.
pub open spec fn console_message(e: ConsoleError) -> Seq<char> {
    match e {
        ConsoleError::NoWavOpen => "no WAV file is open"@,
        ConsoleError::RecorderIdle => "recorder is not active"@,
        ConsoleError::NameRequired => "file name is required"@,
        ConsoleError::UnknownCommand => "unknown command; send help"@,
        ConsoleError::FileNotFound => "file not found"@,
        ConsoleError::NotWav => "file is not a WAV recording"@,
    }
}

impl ConsoleError {
    /// The text reported for this error.
    pub fn message(self) -> (m: &'static str)
        ensures
            m@ == console_message(self),
    {
        match self {
            ConsoleError::NoWavOpen => "no WAV file is open",
            ConsoleError::RecorderIdle => "recorder is not active",
            ConsoleError::NameRequired => "file name is required",
            ConsoleError::UnknownCommand => "unknown command; send help",
            ConsoleError::FileNotFound => "file not found",
            ConsoleError::NotWav => "file is not a WAV recording",
        }
    }
}

/// The console's command table.
pub open spec fn spec_console_step(
    kind: CommandKind,
    name: Seq<char>,
    playing: bool,
    player_open: bool,
    recording: bool,
) -> Result<ConsoleStep, ConsoleError> {
    match kind {
        CommandKind::Help => Ok(ConsoleStep::Help),
        CommandKind::Status => Ok(ConsoleStep::Status),
        CommandKind::WifiScan => Ok(ConsoleStep::WifiScan),
        CommandKind::SdScan => Ok(ConsoleStep::SdScan),
        CommandKind::Files => Ok(ConsoleStep::ListFiles),
        CommandKind::PlayStart => Ok(ConsoleStep::Dispatch(UiAction::TogglePlayback)),
        CommandKind::PlayStop => if playing || player_open {
            Ok(ConsoleStep::Dispatch(UiAction::StopPlayback))
        } else {
            Err(ConsoleError::NoWavOpen)
        },
        CommandKind::PlayClose => Ok(ConsoleStep::ClosePlayer),
        CommandKind::RecordStart => Ok(ConsoleStep::Dispatch(UiAction::ToggleRecording)),
        CommandKind::RecordStop => if recording {
            Ok(ConsoleStep::Dispatch(UiAction::ToggleRecording))
        } else {
            Err(ConsoleError::RecorderIdle)
        },
        CommandKind::FileStat => if name.len() == 0 {
            Err(ConsoleError::NameRequired)
        } else {
            Ok(ConsoleStep::StatFile)
        },
        CommandKind::FileRead => if name.len() == 0 {
            Err(ConsoleError::NameRequired)
        } else {
            Ok(ConsoleStep::ReadFile)
        },
        CommandKind::DeletePrepare => Ok(ConsoleStep::PrepareDelete),
        CommandKind::DeleteConfirm => Ok(ConsoleStep::ConfirmDelete),
        CommandKind::PlayOpen => Ok(ConsoleStep::OpenWav),
        CommandKind::Unknown => Err(ConsoleError::UnknownCommand),
    }
}

/// Decides what a parsed console command asks for.
pub fn plan_console_command(
    kind: CommandKind,
    name: &str,
    playing: bool,
    player_open: bool,
    recording: bool,
) -> (r: Result<ConsoleStep, ConsoleError>)
    ensures
        r == spec_console_step(kind, name@, playing, player_open, recording),
{
    match kind {
        CommandKind::Help => Ok(ConsoleStep::Help),
        CommandKind::Status => Ok(ConsoleStep::Status),
        CommandKind::WifiScan => Ok(ConsoleStep::WifiScan),
        CommandKind::SdScan => Ok(ConsoleStep::SdScan),
        CommandKind::Files => Ok(ConsoleStep::ListFiles),
        CommandKind::PlayStart => Ok(ConsoleStep::Dispatch(UiAction::TogglePlayback)),
        CommandKind::PlayStop => if playing || player_open {
            Ok(ConsoleStep::Dispatch(UiAction::StopPlayback))
        } else {
            Err(ConsoleError::NoWavOpen)
        },
        CommandKind::PlayClose => Ok(ConsoleStep::ClosePlayer),
        CommandKind::RecordStart => Ok(ConsoleStep::Dispatch(UiAction::ToggleRecording)),
        CommandKind::RecordStop => if recording {
            Ok(ConsoleStep::Dispatch(UiAction::ToggleRecording))
        } else {
            Err(ConsoleError::RecorderIdle)
        },
        CommandKind::FileStat => if name.unicode_len() == 0 {
            Err(ConsoleError::NameRequired)
        } else {
            Ok(ConsoleStep::StatFile)
        },
        CommandKind::FileRead => if name.unicode_len() == 0 {
            Err(ConsoleError::NameRequired)
        } else {
            Ok(ConsoleStep::ReadFile)
        },
        CommandKind::DeletePrepare => Ok(ConsoleStep::PrepareDelete),
        CommandKind::DeleteConfirm => Ok(ConsoleStep::ConfirmDelete),
        CommandKind::PlayOpen => Ok(ConsoleStep::OpenWav),
        CommandKind::Unknown => Err(ConsoleError::UnknownCommand),
    }
}

/// `play close`: the player is closed and its file forgotten, and the file
/// list shows again.
pub fn close_player(state: &mut DashboardState)
    ensures
        final(state).playback_name@.len() == 0,
        *final(state) == (DashboardState {
            playing: false,
            playback_name: final(state).playback_name,
            playback_position_ms: 0,
            playback_duration_ms: 0,
            view: View::Files,
            ..*old(state)
        }),
{
    state.playing = false;
    state.playback_name = String::new();
    state.playback_position_ms = 0;
    state.playback_duration_ms = 0;
    state.view = View::Files;
}

/// `play open NAME`: the first listed file of that name, which must be a
/// WAV.
pub fn wav_entry(files: &Vec<FileEntry>, name: &str) -> (r: Result<usize, ConsoleError>)
    ensures
        first_named(files@, name@) is None ==> r == Err::<usize, ConsoleError>(
            ConsoleError::FileNotFound,
        ),
        first_named(files@, name@) matches Some(i) ==> r == (if files@[i as int].kind
            == FileKind::Wav {
            Ok::<usize, ConsoleError>(i)
        } else {
            Err(ConsoleError::NotWav)
        }),
{
    match find_file(files, name) {
        None => {
            proof {
                assert(!exists|i: int| 0 <= i < files@.len() && #[trigger] files@[i].name@ == name@);
            }
            Err(ConsoleError::FileNotFound)
        },
        Some(i) => {
            proof {
                let c = choose|j: int|
                    0 <= j < files@.len() && #[trigger] files@[j].name@ == name@ && forall|k: int|
                        0 <= k < j ==> #[trigger] files@[k].name@ != name@;
                assert(0 <= i < files@.len() && files@[i as int].name@ == name@);
                assert(c == i as int) by {
                    if c < i {
                        assert(files@[c].name@ != name@);
                    }
                    if c > i {
                        assert(files@[i as int].name@ != name@);
                    }
                }
            }
            if files[i].kind == FileKind::Wav {
                Ok(i)
            } else {
                Err(ConsoleError::NotWav)
            }
        },
    }
}

/// One line of the console's file dump: the row's offset in four
/// hexadecimal digits, then its sixteen bytes.
pub open spec fn console_data_line(bytes: Seq<u8>, r: nat) -> Seq<char> {
    "CMD DATA offset="@ + pad_left(hexadecimal(r * 16), 4, '0') + seq![' '] + joined_hex(
        row_bytes(bytes, 16, r),
        row_bytes(bytes, 16, r).len(),
    )
}

/// The console's dump of the bytes read from a file, sixteen per line.
pub fn console_hex_lines(bytes: &[u8]) -> (lines: Vec<String>)
    ensures
        lines@.len() == rows_for(bytes@.len(), 16),
        forall|r: int| 0 <= r < lines@.len() ==> #[trigger] lines@[r]@ == console_data_line(bytes@, r as nat),
{
    let n = bytes.len();
    let rows: usize = n / 16 + if n % 16 == 0 {
        0
    } else {
        1
    };
    assert(rows == rows_for(n as nat, 16));
    let mut lines: Vec<String> = Vec::new();
    let mut row: usize = 0;
    while row < rows
        invariant
            n == bytes@.len(),
            rows == n / 16 + if n % 16 == 0 {
                0int
            } else {
                1
            },
            row <= rows,
            lines@.len() == row,
            forall|r: int| 0 <= r < row ==> #[trigger] lines@[r]@ == console_data_line(bytes@, r as nat),
        decreases rows - row,
    {
        assert(row * 16 < n) by (nonlinear_arith)
            requires
                row < rows,
                rows == n / 16 + if n % 16 == 0 {
                    0int
                } else {
                    1
                },
        ;
        let from = row * 16;
        let to = if n - from < 16 {
            n
        } else {
            from + 16
        };
        let mut line = String::new();
        push_str(&mut line, "CMD DATA offset=");
        push_hex_zero_padded(&mut line, from as u64, 4);
        push_char(&mut line, ' ');
        push_joined_hex(&mut line, bytes, from, to);
        proof {
            reveal_strlit("CMD DATA offset=");
            let rb = row_bytes(bytes@, 16, row as nat);
            assert(rb =~= bytes@.subrange(from as int, to as int));
            assert(line@ =~= console_data_line(bytes@, row as nat));
        }
        lines.push(line);
        row = row + 1;
    }
    lines
}

/// Year, month and day of a count of days since 1970-01-01, by the
/// era arithmetic of the proleptic Gregorian calendar: 400-year eras of
/// 146097 days counted from 0000-03-01, years counted from March so the
/// leap day falls last.
pub open spec fn spec_civil_from_days(days: int) -> (int, int, int) {
    let z = days + 719468;
    let era = z / 146097;
    let doe = z % 146097;
    let yoe = (doe - doe / 1460 + doe / 36524 - doe / 146096) / 365;
    let doy = doe - (365 * yoe + yoe / 4 - yoe / 100);
    let mp = (5 * doy + 2) / 153;
    let day = doy - (153 * mp + 2) / 5 + 1;
    let month = if mp < 10 {
        mp + 3
    } else {
        mp - 9
    };
    let year = yoe + era * 400 + if month <= 2 {
        1int
    } else {
        0
    };
    (year, month, day)
}

/// Within an era the day and month come out in range.
proof fn civil_ranges(doe: int)
    requires
        0 <= doe < 146097,
    ensures
        ({
            let yoe = (doe - doe / 1460 + doe / 36524 - doe / 146096) / 365;
            let doy = doe - (365 * yoe + yoe / 4 - yoe / 100);
            let mp = (5 * doy + 2) / 153;
            let day = doy - (153 * mp + 2) / 5 + 1;
            &&& 0 <= yoe <= 399
            &&& 0 <= doy <= 365
            &&& 0 <= mp <= 11
            &&& 1 <= day <= 31
        }),
{
}

/// The calendar date of a day count since 1970-01-01; the year keeps its
/// low 16 bits (`as u16`).
pub fn civil_date(days_since_epoch: i64) -> (r: (u16, u8, u8))
    requires
        days_since_epoch <= i64::MAX - 719_468,
    ensures
        ({
            let (y, m, d) = spec_civil_from_days(days_since_epoch as int);
            &&& r.0 as int == y % 65536
            &&& r.1 as int == m
            &&& r.2 as int == d
            &&& 1 <= m <= 12
            &&& 1 <= d <= 31
        }),
{
    let z: i64 = days_since_epoch + 719_468;
    let ghost q = z as int / 146097;
    let ghost rem = z as int % 146097;
    let era: i64 = if z >= 0 {
        z / 146_097
    } else {
        let back: i64 = 146_096 - z;
        proof {
            assert(back as int == 146097 * (-q) + (146096 - rem)) by (nonlinear_arith)
                requires
                    z as int == q * 146097 + rem,
                    back == 146096 - z,
            ;
            vstd::arithmetic::div_mod::lemma_fundamental_div_mod_converse(
                back as int,
                146097,
                -q,
                146096 - rem,
            );
        }
        0 - back / 146_097
    };
    assert(era as int == q);
    let day_of_era: i64 = z - era * 146_097;
    assert(day_of_era as int == rem);
    proof {
        civil_ranges(rem);
    }
    let year_of_era: i64 = (day_of_era - day_of_era / 1_460 + day_of_era / 36_524 - day_of_era
        / 146_096) / 365;
    let day_of_year: i64 = day_of_era - (365 * year_of_era + year_of_era / 4 - year_of_era / 100);
    let month_prime: i64 = (5 * day_of_year + 2) / 153;
    let day: i64 = day_of_year - (153 * month_prime + 2) / 5 + 1;
    let month: i64 = if month_prime < 10 {
        month_prime + 3
    } else {
        month_prime - 9
    };
    let year: i128 = year_of_era as i128 + era as i128 * 400 + if month <= 2 {
        1
    } else {
        0
    };
    let lifted: i128 = year + 18_446_744_073_709_551_616;
    assert(lifted >= 0);
    let low: i128 = lifted % 65536;
    assert(low == year as int % 65536) by (nonlinear_arith)
        requires
            lifted == year + 18_446_744_073_709_551_616,
            low == lifted % 65536,
            lifted >= 0,
    ;
    (low as u16, month as u8, day as u8)
}

/// Seconds the touch board's local time (IST) is ahead of UTC.
pub const IST_OFFSET_S: u64 = 19_800;

/// The clock from the network time: once synchronized, an epoch reading
/// (seconds since 1970 UTC) becomes the IST date, weekday (0 is Sunday)
/// and time of day; without synchronization the clock is stale.
pub fn apply_epoch_clock(state: &mut DashboardState, time_synced: bool, epoch_secs: Option<u64>)
    requires
        epoch_secs matches Some(t) ==> t <= u64::MAX - IST_OFFSET_S,
    ensures
        !time_synced ==> *final(state) == (DashboardState {
            clock: crate::telemetry::ClockTelemetry { health: Health::Stale, ..old(state).clock },
            ..*old(state)
        }),
        time_synced && epoch_secs is None ==> *final(state) == *old(state),
        time_synced && epoch_secs is Some ==> ({
            let local = epoch_secs->0 + IST_OFFSET_S;
            let days = local / 86400;
            let secs = local % 86400;
            let (y, m, d) = spec_civil_from_days(days);
            &&& final(state).clock.health == Health::Healthy
            &&& final(state).clock.zone@ == "IST"@
            &&& final(state).clock.year as int == y % 65536
            &&& final(state).clock.month as int == m
            &&& final(state).clock.day as int == d
            &&& final(state).clock.weekday as int == (days + 4) % 7
            &&& final(state).clock.hour as int == secs / 3600
            &&& final(state).clock.minute as int == (secs % 3600) / 60
            &&& final(state).clock.second as int == secs % 60
            &&& *final(state) == (DashboardState { clock: final(state).clock, ..*old(state) })
        }),
{
    if !time_synced {
        state.clock.health = Health::Stale;
        return ;
    }
    match epoch_secs {
        None => {},
        Some(t) => {
            let local = t + IST_OFFSET_S;
            let seconds = local % 86_400;
            let days: u64 = local / 86_400;
            let (year, month, day) = civil_date(days as i64);
            state.clock.health = Health::Healthy;
            state.clock.zone = "IST";
            state.clock.year = year;
            state.clock.month = month;
            state.clock.day = day;
            state.clock.weekday = ((days + 4) % 7) as u8;
            state.clock.hour = (seconds / 3_600) as u8;
            state.clock.minute = ((seconds % 3_600) / 60) as u8;
            state.clock.second = (seconds % 60) as u8;
        },
    }
}

/// A frame was drawn in `frame_us` and flushed in `flush_us`: the flush
/// time in milliseconds (capped at 16 bits) and the frame rate.
pub fn apply_render_stats(state: &mut DashboardState, frame_us: u32, flush_us: u32)
    ensures
        final(state).runtime.display_flush_ms as int == (if flush_us / 1000 > u16::MAX {
            u16::MAX as int
        } else {
            flush_us as int / 1000
        }),
        frame_us == 0 ==> final(state).display_fps == 0,
        frame_us > 0 ==> final(state).display_fps as int == (if 1_000_000int / (frame_us as int)
            > 255 {
            255
        } else {
            1_000_000int / (frame_us as int)
        }),
        *final(state) == (DashboardState {
            runtime: crate::telemetry::RuntimeTelemetry {
                display_flush_ms: final(state).runtime.display_flush_ms,
                ..old(state).runtime
            },
            display_fps: final(state).display_fps,
            ..*old(state)
        }),
{
    let ms = flush_us / 1_000;
    state.runtime.display_flush_ms = if ms > u16::MAX as u32 {
        u16::MAX
    } else {
        ms as u16
    };
    state.display_fps = crate::device::display_fps(frame_us);
}

/// Paging through an open file: NEXT reads on from where the page on screen
/// ended, and starts over at 0 only once that is the end of the file; TOP
/// reads from 0. Both boards read the same page, and with no file open the
/// touch board refuses.
pub proof fn viewer_next_reads_on(
    state: DashboardState,
    player_open: bool,
    output_ready: bool,
)
    ensures
        state.viewer_name@.len() > 0 ==> spec_touch_step(
            UiAction::ViewerNext,
            state,
            player_open,
            output_ready,
        ) == Ok::<TouchStep, TouchActionError>(
            TouchStep::OpenViewer {
                offset: if state.viewer_next_offset < state.viewer_size {
                    state.viewer_next_offset
                } else {
                    0
                },
            },
        ),
        state.viewer_name@.len() > 0 ==> spec_touch_step(
            UiAction::ViewerTop,
            state,
            player_open,
            output_ready,
        ) == Ok::<TouchStep, TouchActionError>(TouchStep::OpenViewer { offset: 0 }),
        state.viewer_name@.len() > 0 ==> crate::media::spec_media_step(
            UiAction::ViewerNext,
            state,
            player_open,
        ) == (crate::media::MediaStep::OpenViewer {
            source: crate::media::ViewerSource::OpenFile,
            offset: if state.viewer_next_offset < state.viewer_size {
                state.viewer_next_offset
            } else {
                0
            },
            stop_playback: false,
        }),
        state.viewer_name@.len() == 0 ==> spec_touch_step(
            UiAction::ViewerNext,
            state,
            player_open,
            output_ready,
        ) == Err::<TouchStep, TouchActionError>(TouchActionError::NoFileOpen),
{
}

/// Recording, playback and file actions on the touch board: a stopped
/// recorder starts only with a mounted card and a working microphone (the
/// card is checked first) and a running one is stopped; playback toggles
/// only with a WAV open, no recording running, and the speaker ready or
/// already playing; opening the selected file opens that very entry, and
/// is refused without a selection.
pub proof fn touch_actions_need_their_hardware(
    state: DashboardState,
    player_open: bool,
    output_ready: bool,
)
    ensures
        spec_touch_step(UiAction::ToggleRecording, state, player_open, output_ready) == (
        if state.recording {
            Ok::<TouchStep, TouchActionError>(TouchStep::StopRecorder)
        } else if !state.storage.mounted {
            Err(TouchActionError::CardNotMounted)
        } else if state.audio.health != Health::Healthy {
            Err(TouchActionError::MicrophoneNotReady)
        } else {
            Ok(TouchStep::StartRecorder)
        }),
        spec_touch_step(UiAction::TogglePlayback, state, player_open, output_ready) is Ok
            <==> player_open && !state.recording && (state.playing || output_ready),
        spec_touch_step(UiAction::TogglePlayback, state, player_open, output_ready) is Ok
            ==> spec_touch_step(UiAction::TogglePlayback, state, player_open, output_ready)
            == Ok::<TouchStep, TouchActionError>(TouchStep::FlipPlayback),
        spec_touch_step(UiAction::OpenSelectedFile, state, player_open, output_ready) == (
        if state.file_index < state.files@.len() {
            Ok::<TouchStep, TouchActionError>(
                TouchStep::OpenEntry { index: state.file_index, play: false },
            )
        } else {
            Err(TouchActionError::NoSelection)
        }),
{
}

} // verus!
