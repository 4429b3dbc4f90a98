//! The decisions of the two boards' main loops: periodic work, the
//! tear-free display flush, the loop rate, touch release, the power button
//! hold, and the small state updates each pass makes. The loops themselves
//! (sleeping, reading pins and buses) stay with the caller.

use vstd::prelude::*;
use vstd::view::View as _;
use crate::dashboard::{input_is_safe, DashboardState, View};
use crate::device::{backlight_duty, spec_backlight_duty};
use crate::input::{elapsed, Button, ButtonEngine, InputEvent};
use crate::telemetry::{
    level_pushed, AudioTelemetry, BatteryTelemetry, EnvironmentTelemetry, Health, StorageTelemetry,
    WifiTelemetry,
};
use crate::text::{decimal, push_decimal, push_str};
use crate::touch349::Touch349Point;

verus! {

// ---------------------------------------------------------------------------
// Schedules of the two loops
// ---------------------------------------------------------------------------
/// The reflective board's loop sleeps this long between passes.
pub const LOOP_PERIOD_MS: u64 = 1;

/// The reflective board reads its clock this often.
pub const CLOCK_PERIOD_MS: u64 = 1_000;

/// The reflective board tries its environment sensor this often.
pub const ENVIRONMENT_PERIOD_MS: u64 = 2_000;

/// The reflective board reads its battery this often.
pub const BATTERY_PERIOD_MS: u64 = 5_000;

/// The reflective board reads its card's usage this often.
pub const STORAGE_PERIOD_MS: u64 = 5_000;

/// The reflective board logs its pipeline counters this often.
pub const RUNTIME_EVENT_PERIOD_MS: u64 = 5_000;

/// The touch board polls its controller this often while nothing plays.
pub const TOUCH_POLL_MS: u64 = 20;

/// The touch board refreshes the recorder's status this often.
pub const RECORDER_REFRESH_MS: u64 = 100;

/// The touch board refreshes its live data this often.
pub const LIVE_REFRESH_MS: u64 = 1_000;

/// On power-off the touch board waits this long for the recorder to close
/// its file, checking every `RECORDER_STOP_POLL_MS`.
pub const RECORDER_STOP_TIMEOUT_MS: u64 = 4_000;

pub const RECORDER_STOP_POLL_MS: u64 = 50;

/// The touch board lets the last frame settle this long before cutting power.
pub const POWER_OFF_SETTLE_MS: u64 = 250;

/// At least `period_ms` passed since `last_ms` (a clock that went back
/// counts as no time).
pub open spec fn spec_due(now_ms: u64, last_ms: u64, period_ms: u64) -> bool {
    elapsed(now_ms, last_ms) >= period_ms
}

pub fn due(now_ms: u64, last_ms: u64, period_ms: u64) -> (r: bool)
    ensures
        r == spec_due(now_ms, last_ms, period_ms),
{
    now_ms.saturating_sub(last_ms) >= period_ms
}

/// A frame is redrawn at most every 250 ms unless a redraw is requested.
pub const DISPLAY_PERIOD_MS: u64 = 250;

/// How long a rendered frame waits for the panel's tearing-effect edge.
pub const TE_TIMEOUT_MS: u64 = 100;

/// The reflective panel's flush pacing: a rendered frame waits for the
/// tearing-effect edge, or goes out after 100 ms without one, which turns
/// the synchronization off for good.
#[derive(Clone, Copy, Debug, PartialEq, Eq, Structural)]
pub struct DisplaySync {
    pub pending: bool,
    pub pending_since_ms: u64,
    pub te_enabled: bool,
    pub last_display_ms: u64,
}

/// What one pass decides about the frame waiting to go out.
#[derive(Clone, Copy, Debug, PartialEq, Eq, Structural)]
pub struct FlushDecision {
    /// Send the frame buffer to the panel now.
    pub flush: bool,
    /// The edge never came: synchronization is now off.
    pub te_timed_out: bool,
}

/// What `plan_flush` decides and leaves, as a function of the sync state,
/// the time and whether the tearing-effect edge came.
pub open spec fn flush_step(s: DisplaySync, now_ms: u64, te_edge: bool) -> (DisplaySync, FlushDecision) {
    let timed_out = s.pending && s.te_enabled && spec_due(now_ms, s.pending_since_ms, TE_TIMEOUT_MS);
    let flush = s.pending && (!s.te_enabled || te_edge || timed_out);
    (DisplaySync { te_enabled: s.te_enabled && !(flush && timed_out), ..s }, FlushDecision {
        flush,
        te_timed_out: timed_out,
    })
}

impl DisplaySync {
    pub fn new(te_enabled: bool) -> (s: Self)
        ensures
            s == (DisplaySync {
                pending: false,
                pending_since_ms: 0,
                te_enabled,
                last_display_ms: 0,
            }),
    {
        DisplaySync { pending: false, pending_since_ms: 0, te_enabled, last_display_ms: 0 }
    }

    /// Whether to render a new frame now: none is waiting, and a redraw was
    /// requested or 250 ms passed since the last flush. Rendering clears the
    /// request and starts the wait.
    pub fn plan_render(&mut self, state: &mut DashboardState, now_ms: u64) -> (render: bool)
        ensures
            render == (!old(self).pending && (old(state).refresh_requested || spec_due(
                now_ms,
                old(self).last_display_ms,
                DISPLAY_PERIOD_MS,
            ))),
            render ==> *final(self) == (DisplaySync {
                pending: true,
                pending_since_ms: now_ms,
                ..*old(self)
            }) && *final(state) == (DashboardState { refresh_requested: false, ..*old(state) }),
            !render ==> *final(self) == *old(self) && *final(state) == *old(state),
    {
        if !self.pending && (state.refresh_requested || due(
            now_ms,
            self.last_display_ms,
            DISPLAY_PERIOD_MS,
        )) {
            state.refresh_requested = false;
            self.pending = true;
            self.pending_since_ms = now_ms;
            true
        } else {
            false
        }
    }

    /// Whether the waiting frame goes out now: on the tearing-effect edge,
    /// at once when synchronization is off, or after 100 ms without an
    /// edge, which turns synchronization off.
    pub fn plan_flush(&mut self, now_ms: u64, te_edge: bool) -> (d: FlushDecision)
        ensures
            d.te_timed_out == (old(self).pending && old(self).te_enabled && spec_due(
                now_ms,
                old(self).pending_since_ms,
                TE_TIMEOUT_MS,
            )),
            d.flush == (old(self).pending && (!old(self).te_enabled || te_edge || d.te_timed_out)),
            final(self).te_enabled == (old(self).te_enabled && !(d.flush && d.te_timed_out)),
            final(self).pending == old(self).pending,
            final(self).pending_since_ms == old(self).pending_since_ms,
            final(self).last_display_ms == old(self).last_display_ms,
            (*final(self), d) == flush_step(*old(self), now_ms, te_edge),
    {
        let timed_out = self.pending && self.te_enabled && due(
            now_ms,
            self.pending_since_ms,
            TE_TIMEOUT_MS,
        );
        let flush = self.pending && (!self.te_enabled || te_edge || timed_out);
        if flush && timed_out {
            self.te_enabled = false;
        }
        FlushDecision { flush, te_timed_out: timed_out }
    }

    /// The frame went out at `now_ms`.
    pub fn flushed(&mut self, now_ms: u64)
        ensures
            *final(self) == (DisplaySync { pending: false, last_display_ms: now_ms, ..*old(self) }),
    {
        self.pending = false;
        self.last_display_ms = now_ms;
    }
}

/// A frame is always flushed within 100 ms of being rendered: once that long
/// has passed, `plan_flush` sends it whether or not the edge came.
pub proof fn flush_is_never_starved(s: DisplaySync, now_ms: u64, te_edge: bool)
    requires
        s.pending,
        spec_due(now_ms, s.pending_since_ms, TE_TIMEOUT_MS),
    ensures
        flush_step(s, now_ms, te_edge).1.flush,
{
}

/// Milliseconds the flush took, capped at 16 bits.
pub fn flush_ms(elapsed_ms: u64) -> (ms: u16)
    ensures
        ms as int == (if elapsed_ms > u16::MAX {
            u16::MAX as int
        } else {
            elapsed_ms as int
        }),
{
    if elapsed_ms > u16::MAX as u64 {
        u16::MAX
    } else {
        elapsed_ms as u16
    }
}

/// Counts loop passes; once a second the count becomes the loop rate.
#[derive(Clone, Copy, Debug, PartialEq, Eq, Structural)]
pub struct LoopRate {
    pub count: u32,
    pub window_start_ms: u64,
}

impl LoopRate {
    pub fn new() -> (r: Self)
        ensures
            r.count == 0 && r.window_start_ms == 0,
    {
        LoopRate { count: 0, window_start_ms: 0 }
    }

    /// One more pass at `now_ms`: after a full second the state's loop rate
    /// becomes the number of passes (capped at 16 bits) and counting
    /// restarts.
    pub fn tick(&mut self, state: &mut DashboardState, now_ms: u64)
        ensures
            ({
                let counted: int = if old(self).count == u32::MAX {
                    u32::MAX as int
                } else {
                    old(self).count + 1
                };
                if spec_due(now_ms, old(self).window_start_ms, 1000) {
                    &&& final(self).count == 0
                    &&& final(self).window_start_ms == now_ms
                    &&& final(state).runtime.loop_hz as int == (if counted > u16::MAX {
                        u16::MAX as int
                    } else {
                        counted
                    })
                    &&& *final(state) == (DashboardState {
                        runtime: crate::telemetry::RuntimeTelemetry {
                            loop_hz: final(state).runtime.loop_hz,
                            ..old(state).runtime
                        },
                        ..*old(state)
                    })
                } else {
                    &&& final(self).count == counted
                    &&& final(self).window_start_ms == old(self).window_start_ms
                    &&& *final(state) == *old(state)
                }
            }),
    {
        self.count = self.count.saturating_add(1);
        if due(now_ms, self.window_start_ms, 1000) {
            state.runtime.loop_hz = if self.count > u16::MAX as u32 {
                u16::MAX
            } else {
                self.count as u16
            };
            self.count = 0;
            self.window_start_ms = now_ms;
        }
    }
}

/// A lifted finger counts as a tap only after the panel reported no touch
/// for this long.
pub const TOUCH_RELEASE_MS: u64 = 55;

/// The last touched point and when it was last reported.
#[derive(Clone, Copy, Debug, PartialEq, Eq, Structural)]
pub struct TouchTracker {
    pub last: Option<Touch349Point>,
    pub last_seen_ms: u64,
}

/// What `TouchTracker::update` leaves and reports for one reading.
pub open spec fn touch_step(t: TouchTracker, reading: Option<Touch349Point>, now_ms: u64) -> (
    TouchTracker,
    Option<Touch349Point>,
) {
    match reading {
        Some(_) => (TouchTracker { last: reading, last_seen_ms: now_ms }, None),
        None => if t.last is Some && spec_due(now_ms, t.last_seen_ms, TOUCH_RELEASE_MS) {
            (TouchTracker { last: None, ..t }, t.last)
        } else {
            (t, None)
        },
    }
}

/// The taps reported over a run of passes on which the panel reports no
/// touch, at the given times.
pub open spec fn taps_while_untouched(t: TouchTracker, times: Seq<u64>) -> Seq<Touch349Point>
    decreases times.len(),
{
    if times.len() == 0 {
        Seq::empty()
    } else {
        let (next, tap) = touch_step(t, None, times[0]);
        let rest = taps_while_untouched(next, times.drop_first());
        match tap {
            Some(p) => seq![p].add(rest),
            None => rest,
        }
    }
}

impl TouchTracker {
    pub fn new(now_ms: u64) -> (t: Self)
        ensures
            t.last is None && t.last_seen_ms == now_ms,
    {
        TouchTracker { last: None, last_seen_ms: now_ms }
    }

    /// One touch-controller reading: a point is remembered while the finger
    /// is down; once it has been up for 55 ms the last point is released as
    /// a tap, exactly once.
    pub fn update(&mut self, reading: Option<Touch349Point>, now_ms: u64) -> (tap: Option<
        Touch349Point,
    >)
        ensures
            reading is Some ==> tap is None && *final(self) == (TouchTracker {
                last: reading,
                last_seen_ms: now_ms,
            }),
            reading is None && old(self).last is Some && spec_due(
                now_ms,
                old(self).last_seen_ms,
                TOUCH_RELEASE_MS,
            ) ==> tap == old(self).last && final(self).last is None && final(self).last_seen_ms
                == old(self).last_seen_ms,
            reading is None && !(old(self).last is Some && spec_due(
                now_ms,
                old(self).last_seen_ms,
                TOUCH_RELEASE_MS,
            )) ==> tap is None && *final(self) == *old(self),
            (*final(self), tap) == touch_step(*old(self), reading, now_ms),
    {
        match reading {
            Some(p) => {
                self.last = Some(p);
                self.last_seen_ms = now_ms;
                None
            },
            None => {
                match self.last {
                    Some(p) => {
                        if due(now_ms, self.last_seen_ms, TOUCH_RELEASE_MS) {
                            self.last = None;
                            Some(p)
                        } else {
                            None
                        }
                    },
                    None => None,
                }
            },
        }
    }
}

/// A released tap is reported once: after `update` reports one, no further
/// tap comes, however many passes follow, until the panel reports a new
/// touch.
pub proof fn tap_is_reported_once(t: TouchTracker, now_ms: u64, later: Seq<u64>)
    requires
        touch_step(t, None, now_ms).1 is Some,
    ensures
        taps_while_untouched(touch_step(t, None, now_ms).0, later).len() == 0,
{
    untouched_run_is_quiet(touch_step(t, None, now_ms).0, later);
}

proof fn untouched_run_is_quiet(t: TouchTracker, times: Seq<u64>)
    requires
        t.last is None,
    ensures
        taps_while_untouched(t, times).len() == 0,
    decreases times.len(),
{
    if times.len() > 0 {
        untouched_run_is_quiet(t, times.drop_first());
    }
}

/// Holding the power button this long switches the touch board off.
pub const POWER_HOLD_MS: u64 = 1200;

/// What the power button asks for on one pass.
#[derive(Clone, Copy, Debug, PartialEq, Eq, Structural)]
pub enum PowerEvent {
    /// Nothing new.
    Idle,
    /// The button was held long enough: finalize and switch off.
    PowerOff,
    /// The button was let go before the threshold.
    Cancelled,
}

/// When the power button went down, while it is held.
#[derive(Clone, Copy, Debug, PartialEq, Eq, Structural)]
pub struct PowerHold {
    pub pressed_since: Option<u64>,
}

impl PowerHold {
    pub fn new() -> (p: Self)
        ensures
            p.pressed_since is None,
    {
        PowerHold { pressed_since: None }
    }

    /// One reading of the power button at `now_ms`.
    pub fn update(&mut self, pressed: bool, now_ms: u64) -> (e: PowerEvent)
        ensures
            pressed ==> ({
                let since = match old(self).pressed_since {
                    Some(t) => t,
                    None => now_ms,
                };
                &&& final(self).pressed_since == Some(since)
                &&& e == (if spec_due(now_ms, since, POWER_HOLD_MS) {
                    PowerEvent::PowerOff
                } else {
                    PowerEvent::Idle
                })
            }),
            !pressed ==> final(self).pressed_since is None && e == (if old(self).pressed_since is Some {
                PowerEvent::Cancelled
            } else {
                PowerEvent::Idle
            }),
    {
        if pressed {
            let since = match self.pressed_since {
                Some(t) => t,
                None => now_ms,
            };
            self.pressed_since = Some(since);
            if due(now_ms, since, POWER_HOLD_MS) {
                PowerEvent::PowerOff
            } else {
                PowerEvent::Idle
            }
        } else {
            let was = self.pressed_since.is_some();
            self.pressed_since = None;
            if was {
                PowerEvent::Cancelled
            } else {
                PowerEvent::Idle
            }
        }
    }

    /// Power-off was refused (the recorder did not finalize): the hold must
    /// start over.
    pub fn blocked(&mut self)
        ensures
            final(self).pressed_since is None,
    {
        self.pressed_since = None;
    }
}

/// A tap changed the backlight: the level is kept at 20% or more, and the
/// active-low PWM duty for it is returned.
pub fn apply_brightness_change(state: &mut DashboardState) -> (duty: u8)
    ensures
        final(state).display_brightness == (if old(state).display_brightness < 20 {
            20
        } else {
            old(state).display_brightness
        }),
        duty as int == spec_backlight_duty(final(state).display_brightness),
        *final(state) == (DashboardState {
            display_brightness: final(state).display_brightness,
            ..*old(state)
        }),
{
    if state.display_brightness < 20 {
        state.display_brightness = 20;
    }
    backlight_duty(state.display_brightness)
}

/// The power-off check before switching off: with nothing recording it is
/// safe at once; otherwise it is safe only if the recorder stopped without
/// error, and recording is then over.
pub fn recorder_finalized(state: &mut DashboardState, stopped: Option<i32>) -> (safe: bool)
    ensures
        !old(state).recording ==> safe && *final(state) == *old(state),
        old(state).recording && stopped is None ==> !safe && *final(state) == *old(state),
        old(state).recording ==> (stopped matches Some(err) ==> safe == (err == 0) && *final(state)
            == (DashboardState { recording: false, ..*old(state) })),
{
    if !state.recording {
        return true;
    }
    match stopped {
        None => false,
        Some(err) => {
            state.recording = false;
            err == 0
        },
    }
}

/// Feeds one button sample; a debounced gesture goes to the dashboard.
pub fn button_sampled(
    engine: &mut ButtonEngine,
    state: &mut DashboardState,
    button: Button,
    pressed: bool,
    now_ms: u64,
) -> (event: Option<InputEvent>)
    requires
        old(state).view == View::Menu ==> old(state).menu_index < 255,
        old(state).view == View::Settings ==> old(state).settings_index < 255,
        old(state).view == View::Files && old(state).files@.len() > 0 ==> old(state).file_index
            < usize::MAX,
    ensures
        final(engine).tracker(button) == crate::input::debounce_step(
            old(engine).tracker(button),
            pressed,
            now_ms,
        ).0,
        forall|b: Button| b != button ==> final(engine).tracker(b) == old(engine).tracker(b),
        event == (match crate::input::debounce_step(old(engine).tracker(button), pressed, now_ms).1 {
            Some((gesture, held)) => Some(InputEvent { button, gesture, held_ms: held }),
            None => None,
        }),
        event is None ==> *final(state) == *old(state),
        event matches Some(e) ==> old(state).input_applied(*final(state), e, now_ms),
{
    let event = engine.sample(button, pressed, now_ms);
    match event {
        Some(e) => {
            assert(input_is_safe(state.navigation(), state.files@.len(), e));
            state.apply_input(e, now_ms);
        },
        None => {},
    }
    event
}

/// The button statistics the diagnostics show: how long each button has
/// been held (zero when up) and whether it is down.
pub fn update_button_stats(state: &mut DashboardState, engine: &ButtonEngine, now_ms: u64)
    ensures
        forall|i: int|
            0 <= i < 2 ==> (#[trigger] final(state).buttons[i]).held_ms == (if engine.tracker(
                if i == 0 {
                    Button::Boot
                } else {
                    Button::Key
                },
            ).stable_pressed {
                elapsed(
                    now_ms,
                    engine.tracker(
                        if i == 0 {
                            Button::Boot
                        } else {
                            Button::Key
                        },
                    ).pressed_at_ms,
                )
            } else {
                0
            }) && final(state).buttons[i].pressed == (final(state).buttons[i].held_ms > 0)
                && final(state).buttons[i].clicks == old(state).buttons[i].clicks
                && final(state).buttons[i].long_presses == old(state).buttons[i].long_presses,
        *final(state) == (DashboardState { buttons: final(state).buttons, ..*old(state) }),
{
    let boot = engine.held_ms(Button::Boot, now_ms);
    let key = engine.held_ms(Button::Key, now_ms);
    state.buttons[0].held_ms = boot;
    state.buttons[0].pressed = boot > 0;
    state.buttons[1].held_ms = key;
    state.buttons[1].pressed = key > 0;
}

/// The health a bring-up bit reports.
pub open spec fn bit_health(ready: u32, bit: u32) -> Health {
    if ready & bit != 0 {
        Health::Healthy
    } else {
        Health::Error
    }
}

/// The board's bring-up bits set the health of the audio codec, the SHTC3
/// sensor, the battery ADC and the SD card; the card counts as mounted when
/// it came up.
pub fn apply_board_ready(state: &mut DashboardState, ready: u32)
    ensures
        *final(state) == (DashboardState {
            audio: AudioTelemetry {
                health: bit_health(ready, crate::device::BOARD_AUDIO_READY),
                ..old(state).audio
            },
            environment: EnvironmentTelemetry {
                health: bit_health(ready, crate::device::BOARD_ENV_READY),
                ..old(state).environment
            },
            battery: BatteryTelemetry {
                health: bit_health(ready, crate::device::BOARD_BATTERY_READY),
                ..old(state).battery
            },
            storage: StorageTelemetry {
                health: bit_health(ready, crate::device::BOARD_SD_READY),
                mounted: bit_health(ready, crate::device::BOARD_SD_READY) == Health::Healthy,
                ..old(state).storage
            },
            ..*old(state)
        }),
{
    state.audio.health = crate::device::health_from_bit(ready, crate::device::BOARD_AUDIO_READY);
    state.environment.health = crate::device::health_from_bit(
        ready,
        crate::device::BOARD_ENV_READY,
    );
    state.battery.health = crate::device::health_from_bit(
        ready,
        crate::device::BOARD_BATTERY_READY,
    );
    state.storage.health = crate::device::health_from_bit(ready, crate::device::BOARD_SD_READY);
    state.storage.mounted = state.storage.health == Health::Healthy;
}

/// The event detail for one subsystem's bring-up.
pub open spec fn board_detail(name: Seq<char>, ready: bool) -> Seq<char> {
    name + seq![' '] + if ready {
        "ready"@
    } else {
        "unavailable"@
    }
}

fn log_subsystem(state: &mut DashboardState, name: &str, ready: bool)
    ensures
        old(state).then_logged(*final(state), 0, "BOARD"@, board_detail(name@, ready)),
{
    let mut detail = String::new();
    push_str(&mut detail, name);
    push_str(&mut detail, " ");
    if ready {
        push_str(&mut detail, "ready");
    } else {
        push_str(&mut detail, "unavailable");
    }
    proof {
        reveal_strlit(" ");
    }
    assert(detail@ =~= board_detail(name@, ready));
    state.record(0, "BOARD", detail.as_str());
}

/// The log line for a subsystem whose ready bit in `ready` is `bit`.
pub open spec fn subsystem_line(name: Seq<char>, ready: u32, bit: u32) -> Seq<char> {
    board_detail(name, ready & bit != 0)
}

/// Logs the bring-up of the audio codec, the SHTC3 sensor, the battery ADC
/// and the SD recorder, in that order, as ready or unavailable.
pub fn record_board_status(state: &mut DashboardState, ready: u32)
    ensures
        exists|s1: DashboardState, s2: DashboardState, s3: DashboardState|
            #![trigger old(state).then_logged(s1, 0, "BOARD"@, subsystem_line("audio"@, ready, crate::device::BOARD_AUDIO_READY)), s1.then_logged(s2, 0, "BOARD"@, subsystem_line("SHTC3"@, ready, crate::device::BOARD_ENV_READY)), s2.then_logged(s3, 0, "BOARD"@, subsystem_line("battery ADC"@, ready, crate::device::BOARD_BATTERY_READY))]
            {
                &&& old(state).then_logged(
                    s1,
                    0,
                    "BOARD"@,
                    subsystem_line("audio"@, ready, crate::device::BOARD_AUDIO_READY),
                )
                &&& s1.then_logged(
                    s2,
                    0,
                    "BOARD"@,
                    subsystem_line("SHTC3"@, ready, crate::device::BOARD_ENV_READY),
                )
                &&& s2.then_logged(
                    s3,
                    0,
                    "BOARD"@,
                    subsystem_line("battery ADC"@, ready, crate::device::BOARD_BATTERY_READY),
                )
                &&& s3.then_logged(
                    *final(state),
                    0,
                    "BOARD"@,
                    subsystem_line("SD recorder"@, ready, crate::device::BOARD_SD_READY),
                )
            },
{
    log_subsystem(state, "audio", ready & crate::device::BOARD_AUDIO_READY != 0);
    let ghost s1 = *state;
    log_subsystem(state, "SHTC3", ready & crate::device::BOARD_ENV_READY != 0);
    let ghost s2 = *state;
    log_subsystem(state, "battery ADC", ready & crate::device::BOARD_BATTERY_READY != 0);
    let ghost s3 = *state;
    log_subsystem(state, "SD recorder", ready & crate::device::BOARD_SD_READY != 0);
    assert(old(state).then_logged(
        s1,
        0,
        "BOARD"@,
        subsystem_line("audio"@, ready, crate::device::BOARD_AUDIO_READY),
    ));
    assert(s1.then_logged(
        s2,
        0,
        "BOARD"@,
        subsystem_line("SHTC3"@, ready, crate::device::BOARD_ENV_READY),
    ));
    assert(s2.then_logged(
        s3,
        0,
        "BOARD"@,
        subsystem_line("battery ADC"@, ready, crate::device::BOARD_BATTERY_READY),
    ));
}

/// Wi-Fi bring-up: on success the link is pending DHCP under `ssid`, on
/// failure it is failed; either is logged.
pub fn wifi_started(state: &mut DashboardState, started: bool, ssid: &str)
    ensures
        started ==> final(state).wifi.ssid@ == ssid@ && (DashboardState {
            wifi: WifiTelemetry {
                health: Health::Stale,
                ssid: final(state).wifi.ssid,
                ..old(state).wifi
            },
            ..*old(state)
        }).then_logged(*final(state), 0, "WIFI"@, "station started; waiting for DHCP"@),
        !started ==> (DashboardState {
            wifi: WifiTelemetry { health: Health::Error, ..old(state).wifi },
            ..*old(state)
        }).then_logged(*final(state), 0, "WIFI"@, "station initialization failed"@),
{
    if started {
        state.wifi.health = Health::Stale;
        state.wifi.ssid = String::from_str(ssid);
        state.record(0, "WIFI", "station started; waiting for DHCP");
    } else {
        state.wifi.health = Health::Error;
        state.record(0, "WIFI", "station initialization failed");
    }
}

/// Reconnect attempts are at least 15 s apart.
pub const WIFI_RETRY_MS: u64 = 15_000;

/// A signal reading in dBm clamped to 16 bits.
pub open spec fn clamp_rssi(r: i32) -> i16 {
    if r < i16::MIN {
        i16::MIN
    } else if r > i16::MAX {
        i16::MAX
    } else {
        r as i16
    }
}

/// One look at the Wi-Fi link. Connected: the link is up, the address and
/// signal are refreshed when the driver has them, and a recovery is
/// logged. Down: a link that was up turns stale (keeping its address) and
/// says so, and a reconnect is due every 15 s, counted. Returns whether to
/// reconnect now.
pub fn apply_wifi_link(
    state: &mut DashboardState,
    connected: bool,
    ipv4: Option<String>,
    rssi: Option<i32>,
    now_ms: u64,
    last_retry_ms: &mut u64,
) -> (reconnect: bool)
    ensures
        connected ==> !reconnect && *final(last_retry_ms) == *old(last_retry_ms) && ({
            let up = DashboardState {
                wifi: WifiTelemetry {
                    health: Health::Healthy,
                    ipv4: match ipv4 {
                        Some(a) => a,
                        None => old(state).wifi.ipv4,
                    },
                    rssi_dbm: match rssi {
                        Some(r) => clamp_rssi(r),
                        None => old(state).wifi.rssi_dbm,
                    },
                    ..old(state).wifi
                },
                ..*old(state)
            };
            if old(state).wifi.health != Health::Healthy {
                up.then_logged(*final(state), now_ms, "WIFI"@, "connected and address ready"@)
            } else {
                *final(state) == up
            }
        }),
        !connected ==> reconnect == spec_due(now_ms, *old(last_retry_ms), WIFI_RETRY_MS)
            && *final(last_retry_ms) == (if reconnect {
            now_ms
        } else {
            *old(last_retry_ms)
        }) && final(state).wifi.reconnects == (if reconnect {
            crate::device::sat_inc_u32(old(state).wifi.reconnects)
        } else {
            old(state).wifi.reconnects
        }) && ({
            let before_count = DashboardState {
                wifi: WifiTelemetry { reconnects: old(state).wifi.reconnects, ..final(state).wifi },
                ..*final(state)
            };
            if old(state).wifi.health == Health::Healthy {
                (DashboardState {
                    wifi: WifiTelemetry { health: Health::Stale, ..old(state).wifi },
                    ..*old(state)
                }).then_logged(
                    before_count,
                    now_ms,
                    "WIFI"@,
                    "connection lost; retaining last address"@,
                )
            } else {
                before_count == *old(state)
            }
        }),
{
    if connected {
        let recovered = state.wifi.health != Health::Healthy;
        state.wifi.health = Health::Healthy;
        match ipv4 {
            Some(a) => {
                state.wifi.ipv4 = a;
            },
            None => {},
        }
        match rssi {
            Some(r) => {
                state.wifi.rssi_dbm = if r < i16::MIN as i32 {
                    i16::MIN
                } else if r > i16::MAX as i32 {
                    i16::MAX
                } else {
                    r as i16
                };
            },
            None => {},
        }
        if recovered {
            state.record(now_ms, "WIFI", "connected and address ready");
        }
        false
    } else {
        if state.wifi.health == Health::Healthy {
            state.wifi.health = Health::Stale;
            state.record(now_ms, "WIFI", "connection lost; retaining last address");
        }
        let ghost logged = *state;
        if due(now_ms, *last_retry_ms, WIFI_RETRY_MS) {
            *last_retry_ms = now_ms;
            state.wifi.reconnects = state.wifi.reconnects.saturating_add(1);
            assert(logged == (DashboardState {
                wifi: WifiTelemetry { reconnects: old(state).wifi.reconnects, ..state.wifi },
                ..*state
            }));
            true
        } else {
            false
        }
    }
}

/// The periodic audio bookkeeping after a capture: with a working
/// microphone the RMS joins the history every 100 ms and is logged with the
/// peak every second.
pub fn audio_bookkeeping(
    state: &mut DashboardState,
    now_ms: u64,
    last_history_ms: &mut u64,
    last_event_ms: &mut u64,
)
    requires
        old(state).audio.history_head < 72,
    ensures
        ({
            let healthy = old(state).audio.health == Health::Healthy;
            let push = healthy && spec_due(now_ms, *old(last_history_ms), 100);
            let log = healthy && spec_due(now_ms, *old(last_event_ms), 1000);
            let leveled = DashboardState { audio: final(state).audio, ..*old(state) };
            &&& *final(last_history_ms) == (if push {
                now_ms
            } else {
                *old(last_history_ms)
            })
            &&& *final(last_event_ms) == (if log {
                now_ms
            } else {
                *old(last_event_ms)
            })
            &&& if push {
                level_pushed(old(state).audio, final(state).audio, old(state).audio.rms)
            } else {
                final(state).audio == old(state).audio
            }
            &&& if log {
                leveled.then_logged(
                    *final(state),
                    now_ms,
                    "MIC"@,
                    "rms="@ + decimal(old(state).audio.rms as nat) + " peak="@ + decimal(
                        old(state).audio.peak as nat,
                    ),
                )
            } else {
                *final(state) == leveled
            }
        }),
        old(state).audio.wf() ==> final(state).audio.history() == (if !(old(state).audio.health
            == Health::Healthy && spec_due(now_ms, *old(last_history_ms), 100)) {
            old(state).audio.history()
        } else if old(state).audio.history_len < 72 {
            old(state).audio.history().push(old(state).audio.rms)
        } else {
            old(state).audio.history().drop_first().push(old(state).audio.rms)
        }),
{
    if state.audio.health == Health::Healthy && due(now_ms, *last_history_ms, 100) {
        *last_history_ms = now_ms;
        let level = state.audio.rms;
        state.audio.push_level(level);
    }
    if state.audio.health == Health::Healthy && due(now_ms, *last_event_ms, 1000) {
        *last_event_ms = now_ms;
        let mut detail = String::new();
        push_str(&mut detail, "rms=");
        push_decimal(&mut detail, state.audio.rms as u64);
        push_str(&mut detail, " peak=");
        push_decimal(&mut detail, state.audio.peak as u64);
        proof {
            reveal_strlit("rms=");
            reveal_strlit(" peak=");
        }
        state.record(now_ms, "MIC", detail.as_str());
    }
}

/// The five-second pipeline summary: free heap and PSRAM in KiB, loop rate
/// and the last flush time.
pub open spec fn pipeline_detail(heap: u32, psram: u32, loop_hz: u16, lcd_ms: u16) -> Seq<char> {
    "heap="@ + decimal((heap / 1024) as nat) + "K psram="@ + decimal((psram / 1024) as nat)
        + "K loop="@ + decimal(loop_hz as nat) + "Hz lcd="@ + decimal(lcd_ms as nat) + "ms"@
}

pub fn record_pipeline(state: &mut DashboardState, now_ms: u64)
    ensures
        old(state).then_logged(
            *final(state),
            now_ms,
            "PIPE"@,
            pipeline_detail(
                old(state).runtime.free_heap,
                old(state).runtime.free_psram,
                old(state).runtime.loop_hz,
                old(state).runtime.display_flush_ms,
            ),
        ),
{
    let mut detail = String::new();
    push_str(&mut detail, "heap=");
    push_decimal(&mut detail, (state.runtime.free_heap / 1024) as u64);
    push_str(&mut detail, "K psram=");
    push_decimal(&mut detail, (state.runtime.free_psram / 1024) as u64);
    push_str(&mut detail, "K loop=");
    push_decimal(&mut detail, state.runtime.loop_hz as u64);
    push_str(&mut detail, "Hz lcd=");
    push_decimal(&mut detail, state.runtime.display_flush_ms as u64);
    push_str(&mut detail, "ms");
    proof {
        reveal_strlit("heap=");
        reveal_strlit("K psram=");
        reveal_strlit("K loop=");
        reveal_strlit("Hz lcd=");
        reveal_strlit("ms");
    }
    assert(detail@ =~= pipeline_detail(
        state.runtime.free_heap,
        state.runtime.free_psram,
        state.runtime.loop_hz,
        state.runtime.display_flush_ms,
    ));
    state.record(now_ms, "PIPE", detail.as_str());
}

/// The station is started only with both a network name and a password.
pub fn credentials_present(ssid: &str, password: &str) -> (r: bool)
    ensures
        r == (ssid@.len() > 0 && password@.len() > 0),
{
    ssid.unicode_len() > 0 && password.unicode_len() > 0
}

} // verus!
