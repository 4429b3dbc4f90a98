//! The reflective board's media runtime as decisions: what each dashboard
//! action asks of the recorder, the player and the viewer, and how the
//! state changes once that work is done. The caller owns the files and the
//! codec; it performs each step and reports back.

use vstd::prelude::*;
use vstd::view::View as _;
use crate::audio::{audio_levels, is_isqrt, mean_square, frame_count, peak_of};
use crate::dashboard::{DashboardState, FileKind, UiAction, View};
use crate::device::{next_volume_rlcd42, spec_next_volume_rlcd42};
use crate::telemetry::{level_pushed, AudioTelemetry, Health};
use crate::text::push_str;
use crate::wav::{encode_pcm, sample_bytes, WavError};

verus! {

/// Which recording a player step opens.
#[derive(Clone, Copy, Debug, PartialEq, Eq, Structural)]
pub enum PlayerSource {
    /// `state.last_recording`.
    LastRecording,
    /// The selected entry of the file list.
    SelectedFile,
}

/// Which file a viewer step reads.
#[derive(Clone, Copy, Debug, PartialEq, Eq, Structural)]
pub enum ViewerSource {
    /// The selected entry of the file list.
    SelectedFile,
    /// The file already open in the viewer.
    OpenFile,
}

/// The work one dashboard action asks of the media runtime.
#[derive(Clone, Copy, Debug, PartialEq, Eq, Structural)]
pub enum MediaStep {
    /// Rescan the card.
    RefreshFiles,
    /// Finish the WAV being recorded, then rescan the card.
    StopRecording,
    /// Create a new WAV and start recording into it.
    StartRecording,
    /// Close any recording, open a WAV in the player; `play` starts it.
    OpenPlayer { source: PlayerSource, play: bool },
    /// Close the player.
    StopPlayback,
    /// Read a page of a file into the viewer, closing the player first when
    /// `stop_playback`.
    OpenViewer { source: ViewerSource, offset: u64, stop_playback: bool },
    /// Pause or resume the open player.
    FlipPlayback,
    /// Set the codec volume, then record it.
    SetVolume(u8),
    /// Switch the SD event log on or off.
    ToggleEventLog,
    /// Play the 440 Hz test tone.
    SpeakerTest,
    /// Ask the main loop to prepare for power-off.
    PreparePoweroff,
    /// Redraw the panel.
    RequestRefresh,
    /// Nothing to do.
    Nothing,
}

/// The kind of the selected file, if one is selected.
pub open spec fn selected_kind(state: DashboardState) -> Option<FileKind> {
    if state.file_index < state.files@.len() {
        Some(state.files@[state.file_index as int].kind)
    } else {
        None
    }
}

/// Where the viewer's next page starts: back at the top after the last.
pub open spec fn next_page_offset(size: u64, next_offset: u64) -> u64 {
    if next_offset >= size {
        0
    } else {
        next_offset
    }
}

/// The reflective board's action table.
pub open spec fn spec_media_step(
    action: UiAction,
    state: DashboardState,
    player_open: bool,
) -> MediaStep {
    match action {
        UiAction::RefreshFiles => MediaStep::RefreshFiles,
        UiAction::ToggleRecording => if state.recording {
            MediaStep::StopRecording
        } else {
            MediaStep::StartRecording
        },
        UiAction::OpenLastRecording => if state.last_recording@.len() > 0 {
            MediaStep::OpenPlayer { source: PlayerSource::LastRecording, play: false }
        } else {
            MediaStep::Nothing
        },
        UiAction::ToggleLastRecording => if state.playing {
            MediaStep::StopPlayback
        } else if state.last_recording@.len() > 0 {
            MediaStep::OpenPlayer { source: PlayerSource::LastRecording, play: true }
        } else {
            MediaStep::Nothing
        },
        UiAction::OpenSelectedFile => match selected_kind(state) {
            Some(FileKind::Wav) => MediaStep::OpenPlayer {
                source: PlayerSource::SelectedFile,
                play: false,
            },
            Some(_) => MediaStep::OpenViewer {
                source: ViewerSource::SelectedFile,
                offset: 0,
                stop_playback: true,
            },
            None => MediaStep::Nothing,
        },
        UiAction::TogglePlayback => if player_open {
            MediaStep::FlipPlayback
        } else {
            MediaStep::Nothing
        },
        UiAction::StopPlayback => MediaStep::StopPlayback,
        UiAction::ViewerNext => if state.viewer_name@.len() > 0 {
            MediaStep::OpenViewer {
                source: ViewerSource::OpenFile,
                offset: next_page_offset(state.viewer_size, state.viewer_next_offset),
                stop_playback: false,
            }
        } else {
            MediaStep::Nothing
        },
        UiAction::ViewerTop => if state.viewer_name@.len() > 0 {
            MediaStep::OpenViewer { source: ViewerSource::OpenFile, offset: 0, stop_playback: false }
        } else {
            MediaStep::Nothing
        },
        UiAction::RefreshDisplay => MediaStep::RequestRefresh,
        UiAction::CycleVolume => MediaStep::SetVolume(spec_next_volume_rlcd42(state.speaker_volume)),
        UiAction::ToggleEventLog => MediaStep::ToggleEventLog,
        UiAction::SpeakerTest => MediaStep::SpeakerTest,
        UiAction::PreparePoweroff => MediaStep::PreparePoweroff,
    }
}

/// Decides what `action` asks of the media runtime; `player_open` says
/// whether a WAV is open in the player.
pub fn plan_media_action(action: UiAction, state: &DashboardState, player_open: bool) -> (step:
    MediaStep)
    ensures
        step == spec_media_step(action, *state, player_open),
{
    let has_last = state.last_recording.as_str().unicode_len() > 0;
    let viewer_open = state.viewer_name.as_str().unicode_len() > 0;
    match action {
        UiAction::RefreshFiles => MediaStep::RefreshFiles,
        UiAction::ToggleRecording => if state.recording {
            MediaStep::StopRecording
        } else {
            MediaStep::StartRecording
        },
        UiAction::OpenLastRecording => if has_last {
            MediaStep::OpenPlayer { source: PlayerSource::LastRecording, play: false }
        } else {
            MediaStep::Nothing
        },
        UiAction::ToggleLastRecording => if state.playing {
            MediaStep::StopPlayback
        } else if has_last {
            MediaStep::OpenPlayer { source: PlayerSource::LastRecording, play: true }
        } else {
            MediaStep::Nothing
        },
        UiAction::OpenSelectedFile => match state.selected_file() {
            Some(entry) => match entry.kind {
                FileKind::Wav => MediaStep::OpenPlayer {
                    source: PlayerSource::SelectedFile,
                    play: false,
                },
                _ => MediaStep::OpenViewer {
                    source: ViewerSource::SelectedFile,
                    offset: 0,
                    stop_playback: true,
                },
            },
            None => MediaStep::Nothing,
        },
        UiAction::TogglePlayback => if player_open {
            MediaStep::FlipPlayback
        } else {
            MediaStep::Nothing
        },
        UiAction::StopPlayback => MediaStep::StopPlayback,
        UiAction::ViewerNext => if viewer_open {
            let offset = if state.viewer_next_offset >= state.viewer_size {
                0
            } else {
                state.viewer_next_offset
            };
            MediaStep::OpenViewer { source: ViewerSource::OpenFile, offset, stop_playback: false }
        } else {
            MediaStep::Nothing
        },
        UiAction::ViewerTop => if viewer_open {
            MediaStep::OpenViewer { source: ViewerSource::OpenFile, offset: 0, stop_playback: false }
        } else {
            MediaStep::Nothing
        },
        UiAction::RefreshDisplay => MediaStep::RequestRefresh,
        UiAction::CycleVolume => MediaStep::SetVolume(next_volume_rlcd42(state.speaker_volume)),
        UiAction::ToggleEventLog => MediaStep::ToggleEventLog,
        UiAction::SpeakerTest => MediaStep::SpeakerTest,
        UiAction::PreparePoweroff => MediaStep::PreparePoweroff,
    }
}

/// Why the runtime refused an action before touching the card or codec.
#[derive(Clone, Copy, Debug, PartialEq, Eq, Structural)]
pub enum MediaError {
    /// The microphone is not delivering audio.
    MicrophoneNotReady,
    /// No card is mounted.
    CardNotMounted,
    /// The speaker test needs the recorder stopped.
    RecordingActive,
    /// The recorder state says recording but no WAV is open.
    NoOpenRecording,
}

/// What the media runtime reports for a refused request.
pub open spec fn media_message(e: MediaError) -> Seq<char> {
    match e {
        MediaError::MicrophoneNotReady => "microphone is not ready"@,
        MediaError::CardNotMounted => "SD card is not mounted"@,
        MediaError::RecordingActive => "stop recording before testing the speaker"@,
        MediaError::NoOpenRecording => "recording state has no open WAV file"@,
    }
}

impl MediaError {
    /// The text reported for this error.
    pub fn message(self) -> (m: &'static str)
        ensures
            m@ == media_message(self),
    {
        match self {
            MediaError::MicrophoneNotReady => "microphone is not ready",
            MediaError::CardNotMounted => "SD card is not mounted",
            MediaError::RecordingActive => "stop recording before testing the speaker",
            MediaError::NoOpenRecording => "recording state has no open WAV file",
        }
    }
}

/// A recording may start only with a working microphone and a mounted
/// card (the microphone is checked first).
pub fn check_recording_start(state: &DashboardState) -> (r: Result<(), MediaError>)
    ensures
        state.audio.health != Health::Healthy ==> r == Err::<(), MediaError>(
            MediaError::MicrophoneNotReady,
        ),
        state.audio.health == Health::Healthy && !state.storage.mounted ==> r == Err::<
            (),
            MediaError,
        >(MediaError::CardNotMounted),
        state.audio.health == Health::Healthy && state.storage.mounted ==> r is Ok,
{
    if state.audio.health != Health::Healthy {
        return Err(MediaError::MicrophoneNotReady);
    }
    if !state.storage.mounted {
        return Err(MediaError::CardNotMounted);
    }
    Ok(())
}

/// The recorder opened `name`: it becomes the current and the last
/// recording, counting starts from zero at `now_ms`, and power-off
/// readiness is withdrawn; the start is logged.
pub fn recording_started(state: &mut DashboardState, name: String, now_ms: u64)
    ensures
        ({
            let mid = DashboardState {
                poweroff_prepared: false,
                recording_name: name,
                last_recording: name,
                recording_bytes: 0,
                recording_started_ms: now_ms,
                recording: true,
                ..*old(state)
            };
            mid.then_logged(*final(state), now_ms, "REC"@, "started "@ + name@)
        }),
{
    let mut detail = String::new();
    push_str(&mut detail, "started ");
    push_str(&mut detail, name.as_str());
    proof {
        reveal_strlit("started ");
    }
    state.poweroff_prepared = false;
    state.recording_name = name.clone();
    state.last_recording = name;
    state.recording_bytes = 0;
    state.recording_started_ms = now_ms;
    state.recording = true;
    state.record(now_ms, "REC", detail.as_str());
}

/// The recorder closed. When a WAV was finished (`saved` holds its name
/// and data length) it becomes the last recording; either way nothing is
/// being recorded any more.
pub fn recording_closed(state: &mut DashboardState, saved: Option<(String, u64)>)
    ensures
        saved is None ==> *final(state) == (DashboardState { recording: false, ..*old(state) }),
        saved matches Some(p) ==> *final(state) == (DashboardState {
            recording: false,
            recording_bytes: p.1,
            last_recording: p.0,
            ..*old(state)
        }),
{
    match saved {
        Some((name, bytes)) => {
            state.recording_bytes = bytes;
            state.last_recording = name;
        },
        None => {},
    }
    state.recording = false;
}

/// The recorder's WAV grew to `data_bytes`.
pub fn recording_progress(state: &mut DashboardState, data_bytes: u64)
    ensures
        *final(state) == (DashboardState { recording_bytes: data_bytes, ..*old(state) }),
{
    state.recording_bytes = data_bytes;
}

/// A WAV of `duration_ms` opened in the player: it shows the player, paused
/// at the start, with an empty level history.
pub fn player_opened(state: &mut DashboardState, name: String, duration_ms: u64)
    ensures
        *final(state) == (DashboardState {
            playback_name: name,
            playback_position_ms: 0,
            playback_duration_ms: duration_ms,
            playback_audio: final(state).playback_audio,
            playing: false,
            view: View::Player,
            ..*old(state)
        }),
        final(state).playback_audio.is_fresh(),
        final(state).playback_audio.wf(),
        final(state).playback_audio.history() == Seq::<u16>::empty(),
{
    state.playback_name = name;
    state.playback_position_ms = 0;
    state.playback_duration_ms = duration_ms;
    state.playback_audio = AudioTelemetry::default();
    state.playing = false;
    state.view = View::Player;
}

/// The player closed or was rewound: nothing plays and the position is
/// back at the start.
pub fn playback_stopped(state: &mut DashboardState)
    ensures
        *final(state) == (DashboardState { playing: false, playback_position_ms: 0, ..*old(state) }),
{
    state.playing = false;
    state.playback_position_ms = 0;
}

/// Pause or resume.
pub fn flip_playback(state: &mut DashboardState)
    ensures
        *final(state) == (DashboardState { playing: !old(state).playing, ..*old(state) }),
{
    state.playing = !state.playing;
}

/// The codec accepted a new volume.
pub fn volume_applied(state: &mut DashboardState, volume: u8)
    ensures
        *final(state) == (DashboardState { speaker_volume: volume, ..*old(state) }),
{
    state.speaker_volume = volume;
}

/// The SD event log switches on or off, and says so in the log.
pub fn toggle_event_log(state: &mut DashboardState, now_ms: u64)
    ensures
        ({
            let mid = DashboardState {
                event_logging_enabled: !old(state).event_logging_enabled,
                ..*old(state)
            };
            mid.then_logged(
                *final(state),
                now_ms,
                "LOG"@,
                if mid.event_logging_enabled {
                    "SD event log enabled"@
                } else {
                    "SD event log disabled"@
                },
            )
        }),
{
    state.event_logging_enabled = !state.event_logging_enabled;
    if state.event_logging_enabled {
        state.record(now_ms, "LOG", "SD event log enabled");
    } else {
        state.record(now_ms, "LOG", "SD event log disabled");
    }
}

/// The main loop is asked to prepare for power-off.
pub fn poweroff_requested(state: &mut DashboardState)
    ensures
        *final(state) == (DashboardState { prepare_poweroff_requested: true, ..*old(state) }),
{
    state.prepare_poweroff_requested = true;
}

/// Every handled action ends with a redraw.
pub fn action_handled(state: &mut DashboardState)
    ensures
        *final(state) == (DashboardState { refresh_requested: true, ..*old(state) }),
{
    state.refresh_requested = true;
}

/// The player reached the end of the data: it stops and rewinds.
pub fn playback_ended(state: &mut DashboardState)
    ensures
        *final(state) == (DashboardState { playing: false, playback_position_ms: 0, ..*old(state) }),
{
    state.playing = false;
    state.playback_position_ms = 0;
}

/// A chunk of `samples` went to the speaker and the player is now at
/// `position_ms`: the playback levels show its left-channel RMS and peak,
/// and the RMS joins the playback history.
pub fn playback_chunk_played(state: &mut DashboardState, position_ms: u64, samples: &[i16])
    requires
        old(state).playback_audio.history_head < 72,
    ensures
        final(state).playback_position_ms == position_ms,
        level_pushed(
            AudioTelemetry {
                health: Health::Healthy,
                rms: final(state).playback_audio.rms,
                peak: final(state).playback_audio.peak,
                ..old(state).playback_audio
            },
            final(state).playback_audio,
            final(state).playback_audio.rms,
        ),
        exists|r: int|
            is_isqrt(mean_square(samples@), r) && final(state).playback_audio.rms as int == (if r
                > u16::MAX {
                u16::MAX as int
            } else {
                r
            }),
        final(state).playback_audio.peak as int == (if peak_of(
            samples@,
            frame_count(samples@.len()),
        ) > u16::MAX {
            u16::MAX as int
        } else {
            peak_of(samples@, frame_count(samples@.len()))
        }),
        old(state).playback_audio.wf() ==> final(state).playback_audio.wf(),
        old(state).playback_audio.wf() ==> final(state).playback_audio.history() == (if old(
            state,
        ).playback_audio.history_len < 72 {
            old(state).playback_audio.history().push(final(state).playback_audio.rms)
        } else {
            old(state).playback_audio.history().drop_first().push(final(state).playback_audio.rms)
        }),
        *final(state) == (DashboardState {
            playback_position_ms: position_ms,
            playback_audio: final(state).playback_audio,
            ..*old(state)
        }),
{
    state.playback_position_ms = position_ms;
    let (rms, peak) = audio_levels(samples);
    state.playback_audio.health = Health::Healthy;
    state.playback_audio.rms = rms;
    state.playback_audio.peak = peak;
    state.playback_audio.push_level(rms);
}

/// The recorder claims to record but holds no WAV: recording stops.
pub fn recording_lost(state: &mut DashboardState) -> (r: MediaError)
    ensures
        r == MediaError::NoOpenRecording,
        *final(state) == (DashboardState { recording: false, ..*old(state) }),
{
    state.recording = false;
    MediaError::NoOpenRecording
}

/// The speaker test needs the recorder idle.
pub fn check_speaker_test(state: &DashboardState) -> (r: Result<(), MediaError>)
    ensures
        state.recording ==> r == Err::<(), MediaError>(MediaError::RecordingActive),
        !state.recording ==> r is Ok,
{
    if state.recording {
        Err(MediaError::RecordingActive)
    } else {
        Ok(())
    }
}

/// Phase advance per frame of a 440 Hz tone at 24 kHz, in 1/2^32 turns.
pub const TONE_PHASE_STEP: u32 = 78_741_067;

/// Frames in one block of the test tone.
pub const TONE_BLOCK_FRAMES: usize = 256;

/// Rust's integer division, which truncates toward zero.
pub open spec fn trunc_div(a: int, b: int) -> int {
    if a >= 0 {
        a / b
    } else {
        -((-a) / b)
    }
}

/// The test tone at a phase: a triangle wave of amplitude 8000 whose
/// turn is the phase's top 16 bits.
pub open spec fn tone_sample(phase: u32) -> int {
    let pos: int = phase as int / 65536;
    let tri: int = if pos < 32768 {
        pos * 2 - 32768
    } else {
        98303 - pos * 2
    };
    trunc_div(tri * 8000, 32768)
}

/// The phase `k` frames after `phase`.
pub open spec fn tone_phase(phase: u32, k: int) -> u32 {
    ((phase + k * TONE_PHASE_STEP) % 4294967296) as u32
}

fn tone_value(phase: u32) -> (s: i16)
    ensures
        s as int == tone_sample(phase),
{
    let pos: i32 = (phase >> 16) as i32;
    assert(pos as int == phase as int / 65536) by (bit_vector)
        requires
            pos == (phase >> 16) as i32,
    ;
    let tri: i32 = if pos < 32768 {
        pos * 2 - 32768
    } else {
        98303 - pos * 2
    };
    let scaled: i32 = tri * 8000;
    let value: i32 = if scaled >= 0 {
        scaled / 32768
    } else {
        0 - ((0 - scaled) / 32768)
    };
    value as i16
}

/// One block of the stereo test tone starting at `phase`, both channels
/// equal, and the phase after it.
pub fn test_tone_block(phase: u32) -> (r: (Vec<i16>, u32))
    ensures
        r.0@.len() == 2 * TONE_BLOCK_FRAMES,
        forall|k: int|
            0 <= k < TONE_BLOCK_FRAMES ==> #[trigger] r.0@[2 * k] as int == tone_sample(
                tone_phase(phase, k),
            ) && r.0@[2 * k + 1] == r.0@[2 * k],
        r.1 == tone_phase(phase, TONE_BLOCK_FRAMES as int),
{
    let mut block: Vec<i16> = Vec::new();
    let mut p = phase;
    let mut frame: usize = 0;
    while frame < TONE_BLOCK_FRAMES
        invariant
            frame <= TONE_BLOCK_FRAMES,
            block@.len() == 2 * frame,
            p == tone_phase(phase, frame as int),
            forall|k: int|
                0 <= k < frame ==> #[trigger] block@[2 * k] as int == tone_sample(
                    tone_phase(phase, k),
                ) && block@[2 * k + 1] == block@[2 * k],
        decreases TONE_BLOCK_FRAMES - frame,
    {
        let s = tone_value(p);
        block.push(s);
        block.push(s);
        assert(block@[2 * frame as int] == s);
        proof {
            let a = phase as int + frame * TONE_PHASE_STEP;
            assert((a % 4294967296 + TONE_PHASE_STEP) % 4294967296 == (a + TONE_PHASE_STEP)
                % 4294967296) by (nonlinear_arith);
        }
        p = p.wrapping_add(TONE_PHASE_STEP);
        frame = frame + 1;
    }
    (block, p)
}

/// The test tone played out; logged.
pub fn speaker_test_done(state: &mut DashboardState, now_ms: u64)
    ensures
        old(state).then_logged(*final(state), now_ms, "SPK"@, "440 Hz test tone completed"@),
{
    state.record(now_ms, "SPK", "440 Hz test tone completed");
}

/// Power-off preparation starts: readiness is withdrawn and the start is
/// logged.
pub fn poweroff_preparation_started(state: &mut DashboardState, now_ms: u64)
    ensures
        (DashboardState { poweroff_prepared: false, ..*old(state) }).then_logged(
            *final(state),
            now_ms,
            "POWER"@,
            "preparing files and event log"@,
        ),
{
    state.poweroff_prepared = false;
    state.record(now_ms, "POWER", "preparing files and event log");
}

/// Power-off preparation ends: the device is ready only when the media
/// files and the event log were both finalized, and the request is
/// consumed.
pub fn poweroff_preparation_finished(state: &mut DashboardState, media_ready: bool, log_ready: bool)
    ensures
        *final(state) == (DashboardState {
            poweroff_prepared: media_ready && log_ready,
            prepare_poweroff_requested: false,
            ..*old(state)
        }),
{
    state.poweroff_prepared = media_ready && log_ready;
    state.prepare_poweroff_requested = false;
}

/// The speaker test plays this many blocks of its 440 Hz tone.
pub const SPEAKER_TEST_BLOCKS: usize = 24;

/// Where power-off preparation stands.
#[derive(Clone, Copy, Debug, PartialEq, Eq, Structural)]
pub enum PoweroffStep {
    /// Finalize the open recording.
    StopRecording,
    /// The recording is closed: stop playback.
    StopPlayback,
    /// Flush the event log.
    FlushLog,
    /// Preparation is over.
    Done,
}

/// Power-off preparation: finalize the recording, then (only if that went
/// through) stop playback, then flush the event log; the device is ready
/// only when the media and the log were both finalized.
#[derive(Clone, Copy, Debug, PartialEq, Eq, Structural)]
pub struct PoweroffPreparation {
    pub next: PoweroffStep,
    pub media_ready: bool,
}

impl PoweroffPreparation {
    /// Starts preparing: readiness is withdrawn, the start is logged, and the
    /// recording is the first thing to finalize.
    pub fn start(state: &mut DashboardState, now_ms: u64) -> (p: Self)
        ensures
            (DashboardState { poweroff_prepared: false, ..*old(state) }).then_logged(
                *final(state),
                now_ms,
                "POWER"@,
                "preparing files and event log"@,
            ),
            p.next == PoweroffStep::StopRecording,
            !p.media_ready,
    {
        poweroff_preparation_started(state, now_ms);
        PoweroffPreparation { next: PoweroffStep::StopRecording, media_ready: false }
    }

    /// The recording was finalized (`ok`) or failed to: playback is stopped
    /// next only when it was; otherwise the media are not ready and the log
    /// is flushed next.
    pub fn recording_stopped(&mut self, ok: bool)
        ensures
            old(self).next == PoweroffStep::StopRecording ==> *final(self) == (if ok {
                PoweroffPreparation { next: PoweroffStep::StopPlayback, media_ready: false }
            } else {
                PoweroffPreparation { next: PoweroffStep::FlushLog, media_ready: false }
            }),
            old(self).next != PoweroffStep::StopRecording ==> *final(self) == *old(self),
    {
        if self.next == PoweroffStep::StopRecording {
            self.media_ready = false;
            self.next = if ok {
                PoweroffStep::StopPlayback
            } else {
                PoweroffStep::FlushLog
            };
        }
    }

    /// Playback was stopped: the media are finalized and the log is next.
    pub fn playback_stopped(&mut self)
        ensures
            old(self).next == PoweroffStep::StopPlayback ==> *final(self) == (PoweroffPreparation {
                next: PoweroffStep::FlushLog,
                media_ready: true,
            }),
            old(self).next != PoweroffStep::StopPlayback ==> *final(self) == *old(self),
    {
        if self.next == PoweroffStep::StopPlayback {
            self.next = PoweroffStep::FlushLog;
            self.media_ready = true;
        }
    }

    /// The log flush ended (`log_ready`): preparation ends, the device is
    /// ready only when the media and the log were both finalized, and the
    /// request is consumed.
    pub fn log_flushed(&mut self, state: &mut DashboardState, log_ready: bool)
        ensures
            old(self).next == PoweroffStep::FlushLog ==> final(self).next == PoweroffStep::Done
                && final(self).media_ready == old(self).media_ready && *final(state) == (
            DashboardState {
                poweroff_prepared: old(self).media_ready && log_ready,
                prepare_poweroff_requested: false,
                ..*old(state)
            }),
            old(self).next != PoweroffStep::FlushLog ==> *final(self) == *old(self) && *final(state)
                == *old(state),
    {
        if self.next == PoweroffStep::FlushLog {
            poweroff_preparation_finished(state, self.media_ready, log_ready);
            self.next = PoweroffStep::Done;
        }
    }
}

/// Samples per capture and per append.
pub const CHUNK_SAMPLES: usize = 512;

/// Bytes of 16-bit samples a WAV can hold before its RIFF length overflows.
pub const WAV_DATA_LIMIT: u64 = 4_294_967_259;

/// How far a recording has been written and last checkpointed.
#[derive(Clone, Copy, Debug, PartialEq, Eq, Structural)]
pub struct RecorderProgress {
    pub data_bytes: u64,
    pub checkpoint_bytes: u64,
}

impl RecorderProgress {
    /// A fresh recording: nothing written yet.
    pub fn new() -> (p: Self)
        ensures
            p.data_bytes == 0 && p.checkpoint_bytes == 0,
    {
        RecorderProgress { data_bytes: 0, checkpoint_bytes: 0 }
    }

    /// The bytes to append for a captured chunk: at most 512 samples, as
    /// little-endian PCM; refused when the data would outgrow what the
    /// RIFF length can describe.
    pub fn plan_append(&self, samples: &[i16]) -> (r: Result<Vec<u8>, WavError>)
        ensures
            ({
                let count: int = if samples@.len() > 512 {
                    512
                } else {
                    samples@.len() as int
                };
                &&& self.data_bytes + 2 * count > WAV_DATA_LIMIT ==> r == Err::<Vec<u8>, WavError>(
                    WavError::Truncated,
                )
                &&& self.data_bytes + 2 * count <= WAV_DATA_LIMIT ==> (r matches Ok(bytes)
                    && bytes@.len() == 2 * count && (forall|i: int|
                    0 <= i < count ==> #[trigger] bytes@.subrange(2 * i, 2 * i + 2) == sample_bytes(
                        samples@[i],
                    )))
            }),
    {
        let count = if samples.len() > CHUNK_SAMPLES {
            CHUNK_SAMPLES
        } else {
            samples.len()
        };
        let appended = (count * 2) as u64;
        if self.data_bytes > WAV_DATA_LIMIT || WAV_DATA_LIMIT - self.data_bytes < appended {
            return Err(WavError::Truncated);
        }
        let part = &samples[0..count];
        assert(part@ =~= samples@.subrange(0, count as int));
        let bytes = encode_pcm(part);
        assert forall|i: int| 0 <= i < count implies #[trigger] bytes@.subrange(2 * i, 2 * i + 2)
            == sample_bytes(samples@[i]) by {
            assert(part@[i] == samples@[i]);
        }
        Ok(bytes)
    }

    /// `appended` bytes reached the card. Returns whether the header must
    /// now be rewritten: each further second of audio is checkpointed.
    pub fn committed(&mut self, appended: u64) -> (checkpoint: bool)
        ensures
            final(self).data_bytes as int == (if old(self).data_bytes + appended > u64::MAX {
                u64::MAX as int
            } else {
                old(self).data_bytes + appended
            }),
            checkpoint == (final(self).data_bytes >= old(self).checkpoint_bytes
                && final(self).data_bytes - old(self).checkpoint_bytes >= 96000),
            final(self).checkpoint_bytes == (if checkpoint {
                final(self).data_bytes
            } else {
                old(self).checkpoint_bytes
            }),
    {
        self.data_bytes = self.data_bytes.saturating_add(appended);
        let due = crate::wav::checkpoint_due(self.data_bytes, self.checkpoint_bytes);
        if due {
            self.checkpoint_bytes = self.data_bytes;
        }
        due
    }

    /// The data length written into the header: the byte count, capped at
    /// the 32-bit field.
    pub fn header_length(&self) -> (len: u32)
        ensures
            len as int == (if self.data_bytes > u32::MAX {
                u32::MAX as int
            } else {
                self.data_bytes as int
            }),
    {
        if self.data_bytes > u32::MAX as u64 {
            u32::MAX
        } else {
            self.data_bytes as u32
        }
    }
}

} // verus!
