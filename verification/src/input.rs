//! Physical buttons: debouncing raw active-low samples into click and
//! long-press gestures.

use vstd::prelude::*;

verus! {

/// A raw level must hold this long before it is accepted.
pub const BUTTON_DEBOUNCE_MS: u64 = 35;

/// A debounced press held this long reports a long press (once).
pub const BUTTON_LONG_PRESS_MS: u64 = 650;

#[derive(Clone, Copy, Debug, PartialEq, Eq, Structural)]
pub enum Button {
    Boot,
    Key,
}

pub open spec fn button_index(b: Button) -> int {
    match b {
        Button::Boot => 0,
        Button::Key => 1,
    }
}

impl Button {
    pub const ALL: [Button; 2] = [Button::Boot, Button::Key];

    /// Slot of this button in per-button arrays.
    pub fn index(self) -> (i: usize)
        ensures
            i as int == button_index(self),
    {
        match self {
            Button::Boot => 0,
            Button::Key => 1,
        }
    }

    /// The name printed on the board.
    pub fn label(self) -> (l: &'static str)
        ensures
            l@ == (match self {
                Button::Boot => "BOOT"@,
                Button::Key => "KEY"@,
            }),
    {
        match self {
            Button::Boot => "BOOT",
            Button::Key => "KEY",
        }
    }
}

#[derive(Clone, Copy, Debug, PartialEq, Eq, Structural)]
pub enum Gesture {
    Click,
    LongPress,
}

#[derive(Clone, Copy, Debug, PartialEq, Eq, Structural)]
pub struct InputEvent {
    pub button: Button,
    pub gesture: Gesture,
    pub held_ms: u64,
}

/// Debounce state of one button.
#[derive(Clone, Copy, Debug)]
pub struct DebouncedButton {
    /// Last raw level seen.
    pub raw_pressed: bool,
    /// Debounced level.
    pub stable_pressed: bool,
    /// When the raw level last changed.
    pub raw_changed_ms: u64,
    /// When the debounced press began.
    pub pressed_at_ms: u64,
    /// Whether this press already reported its long press.
    pub long_reported: bool,
}

impl DebouncedButton {
    pub fn new() -> (b: Self)
        ensures
            !b.raw_pressed && !b.stable_pressed && !b.long_reported,
            b.raw_changed_ms == 0 && b.pressed_at_ms == 0,
    {
        DebouncedButton {
            raw_pressed: false,
            stable_pressed: false,
            raw_changed_ms: 0,
            pressed_at_ms: 0,
            long_reported: false,
        }
    }
}

impl Default for DebouncedButton {
    fn default() -> (b: Self)
        ensures
            !b.raw_pressed && !b.stable_pressed && !b.long_reported,
            b.raw_changed_ms == 0 && b.pressed_at_ms == 0,
    {
        DebouncedButton::new()
    }
}

pub open spec fn elapsed(now: u64, since: u64) -> int {
    if now >= since {
        now - since
    } else {
        0
    }
}

/// Stage one: remember the raw level and when it last changed.
pub open spec fn record_raw(s: DebouncedButton, pressed: bool, now: u64) -> DebouncedButton {
    if pressed != s.raw_pressed {
        DebouncedButton { raw_pressed: pressed, raw_changed_ms: now, ..s }
    } else {
        s
    }
}

/// Whether the raw level has held long enough to replace the debounced one.
pub open spec fn settles(s: DebouncedButton, now: u64) -> bool {
    s.raw_pressed != s.stable_pressed && elapsed(now, s.raw_changed_ms) >= BUTTON_DEBOUNCE_MS
}

/// Stage two: accept a settled raw level; a new press restarts the hold clock.
pub open spec fn accept_level(s: DebouncedButton, now: u64) -> DebouncedButton {
    if settles(s, now) {
        if s.raw_pressed {
            DebouncedButton {
                stable_pressed: true,
                pressed_at_ms: now,
                long_reported: false,
                ..s
            }
        } else {
            DebouncedButton { stable_pressed: false, ..s }
        }
    } else {
        s
    }
}

/// Whether a debounced press has been held long enough to report a long press.
pub open spec fn long_press_due(s: DebouncedButton, now: u64) -> bool {
    s.stable_pressed && !s.long_reported && elapsed(now, s.pressed_at_ms) >= BUTTON_LONG_PRESS_MS
}

/// One sample of one button: the next state and the gesture it completes.
pub open spec fn debounce_step(s: DebouncedButton, pressed: bool, now: u64) -> (
    DebouncedButton,
    Option<(Gesture, u64)>,
) {
    let r = record_raw(s, pressed, now);
    let a = accept_level(r, now);
    if settles(r, now) && !r.raw_pressed && !r.long_reported {
        // A debounced release that did not already report a long press.
        (a, Some((Gesture::Click, elapsed(now, r.pressed_at_ms) as u64)))
    } else if long_press_due(a, now) {
        (DebouncedButton { long_reported: true, ..a }, Some((Gesture::LongPress, elapsed(now, a.pressed_at_ms) as u64)))
    } else {
        (a, None)
    }
}


/// Once a press has reported its long press, no further gesture of that press
/// is reported: neither a second long press nor a click on release. Only a new
/// debounced press (which requires a release first) can report again.
pub proof fn long_press_is_reported_once(s: DebouncedButton, pressed: bool, now: u64)
    requires
        s.long_reported,
        s.stable_pressed,
    ensures
        debounce_step(s, pressed, now).1 is None,
        debounce_step(s, pressed, now).0.stable_pressed ==> debounce_step(
            s,
            pressed,
            now,
        ).0.long_reported,
{
}

/// A debounced level change needs the raw level to have held for the
/// debounce window: shorter glitches never change the debounced level.
pub proof fn glitches_are_filtered(s: DebouncedButton, pressed: bool, now: u64)
    requires
        elapsed(now, record_raw(s, pressed, now).raw_changed_ms) < BUTTON_DEBOUNCE_MS,
    ensures
        debounce_step(s, pressed, now).0.stable_pressed == s.stable_pressed,
        debounce_step(s, pressed, now).1 matches Some((g, _)) ==> g == Gesture::LongPress,
{
}

/// The gesture a step reports, as a sequence of none or one.
pub open spec fn reported(g: Option<(Gesture, u64)>) -> Seq<(Gesture, u64)> {
    match g {
        Some(x) => seq![x],
        None => Seq::empty(),
    }
}

/// A run of samples of one button (raw level, time) from state `s`: the
/// state it leaves and the gestures it reports, in order.
pub open spec fn debounce_run(s: DebouncedButton, samples: Seq<(bool, u64)>) -> (
    DebouncedButton,
    Seq<(Gesture, u64)>,
)
    decreases samples.len(),
{
    if samples.len() == 0 {
        (s, Seq::empty())
    } else {
        let (next, g) = debounce_step(s, samples[0].0, samples[0].1);
        let rest = debounce_run(next, samples.drop_first());
        (rest.0, reported(g) + rest.1)
    }
}

/// The samples of one button while a debounced press lasts, from state `s`:
/// the gestures reported up to and including the sample that releases the
/// press, and the time of that sample (`None` while the press still lasts
/// at the end of the samples).
pub open spec fn press_outcome(s: DebouncedButton, samples: Seq<(bool, u64)>) -> (
    Seq<(Gesture, u64)>,
    Option<u64>,
)
    decreases samples.len(),
{
    if samples.len() == 0 {
        (Seq::empty(), None)
    } else {
        let (next, g) = debounce_step(s, samples[0].0, samples[0].1);
        if !next.stable_pressed {
            (reported(g), Some(samples[0].1))
        } else {
            let rest = press_outcome(next, samples.drop_first());
            (reported(g) + rest.0, rest.1)
        }
    }
}

proof fn press_outcome_bounds(s: DebouncedButton, samples: Seq<(bool, u64)>)
    requires
        s.stable_pressed,
    ensures
        press_outcome(s, samples).0.len() <= (if s.long_reported {
            0int
        } else {
            1int
        }),
        press_outcome(s, samples).1 is Some && !s.long_reported ==> press_outcome(s, samples).0.len()
            == 1,
        forall|k: int|
            0 <= k < press_outcome(s, samples).0.len() ==> (#[trigger] press_outcome(
                s,
                samples,
            ).0[k]).0 == Gesture::LongPress ==> press_outcome(s, samples).0[k].1
                >= BUTTON_LONG_PRESS_MS,
        forall|k: int|
            0 <= k < press_outcome(s, samples).0.len() ==> (#[trigger] press_outcome(
                s,
                samples,
            ).0[k]).0 == Gesture::Click ==> press_outcome(s, samples).1 is Some && press_outcome(s, samples).0[k].1 == elapsed(
                press_outcome(s, samples).1->0,
                s.pressed_at_ms,
            ),
    decreases samples.len(),
{
    if samples.len() > 0 {
        let (next, g) = debounce_step(s, samples[0].0, samples[0].1);
        if next.stable_pressed {
            press_outcome_bounds(next, samples.drop_first());
            let rest = press_outcome(next, samples.drop_first());
            assert(press_outcome(s, samples).0 == reported(g) + rest.0);
        }
    }
}

/// One press, one gesture: once a sample makes the debounced level pressed
/// (that sample reports nothing), the samples up to the one that releases
/// the press report at most one gesture, and exactly one if the release
/// comes. A long press is reported once held 650 ms, and then the release
/// reports no click; a click reports the time from the accepting sample to
/// the releasing one.
pub proof fn one_gesture_per_press(
    s: DebouncedButton,
    pressed: bool,
    now_ms: u64,
    later: Seq<(bool, u64)>,
)
    requires
        !s.stable_pressed,
        debounce_step(s, pressed, now_ms).0.stable_pressed,
    ensures
        debounce_step(s, pressed, now_ms).1 is None,
        ({
            let (gestures, release) = press_outcome(debounce_step(s, pressed, now_ms).0, later);
            &&& gestures.len() <= 1
            &&& release is Some ==> gestures.len() == 1
            &&& forall|k: int|
                0 <= k < gestures.len() ==> (#[trigger] gestures[k]).0 == Gesture::LongPress
                    ==> gestures[k].1 >= BUTTON_LONG_PRESS_MS
            &&& forall|k: int|
                0 <= k < gestures.len() ==> (#[trigger] gestures[k]).0 == Gesture::Click
                    ==> release is Some && gestures[k].1 == elapsed(release->0, now_ms)
        }),
{
    let n = debounce_step(s, pressed, now_ms).0;
    assert(n.pressed_at_ms == now_ms && !n.long_reported);
    press_outcome_bounds(n, later);
}

proof fn released_run_stays_quiet(s: DebouncedButton, samples: Seq<(bool, u64)>, start: u64)
    requires
        !s.stable_pressed,
        s.raw_pressed ==> s.raw_changed_ms >= start,
        forall|i: int| 0 <= i < samples.len() ==> (#[trigger] samples[i]).1 >= start,
        forall|i: int|
            0 <= i < samples.len() ==> (#[trigger] samples[i]).0 ==> samples[i].1 < start
                + BUTTON_DEBOUNCE_MS,
    ensures
        debounce_run(s, samples).1.len() == 0,
        !debounce_run(s, samples).0.stable_pressed,
    decreases samples.len(),
{
    if samples.len() > 0 {
        let next = debounce_step(s, samples[0].0, samples[0].1).0;
        let rest = samples.drop_first();
        assert forall|i: int| 0 <= i < rest.len() implies (#[trigger] rest[i]).1 >= start && (
        rest[i].0 ==> rest[i].1 < start + BUTTON_DEBOUNCE_MS) by {
            assert(rest[i] == samples[i + 1]);
        }
        released_run_stays_quiet(next, rest, start);
    }
}

/// Presses shorter than the 35 ms debounce window are ignored: from a
/// released button, a run of samples that starts pressed at `start`, in
/// which no sample is pressed 35 ms or more after `start`, reports no
/// gesture and leaves the button released.
pub proof fn short_presses_are_ignored(s: DebouncedButton, samples: Seq<(bool, u64)>)
    requires
        !s.raw_pressed,
        !s.stable_pressed,
        samples.len() > 0,
        samples[0].0,
        forall|i: int| 0 <= i < samples.len() ==> (#[trigger] samples[i]).1 >= samples[0].1,
        forall|i: int|
            0 <= i < samples.len() ==> (#[trigger] samples[i]).0 ==> samples[i].1 < samples[0].1
                + BUTTON_DEBOUNCE_MS,
    ensures
        debounce_run(s, samples).1.len() == 0,
        !debounce_run(s, samples).0.stable_pressed,
{
    released_run_stays_quiet(s, samples, samples[0].1);
}

/// Turns raw button levels into gestures.
#[derive(Clone, Debug)]
pub struct ButtonEngine {
    pub buttons: [DebouncedButton; 2],
}

impl Default for ButtonEngine {
    fn default() -> (e: Self)
        ensures
            forall|i: int|
                0 <= i < 2 ==> !(#[trigger] e.buttons@[i]).raw_pressed
                    && !e.buttons@[i].stable_pressed && !e.buttons@[i].long_reported
                    && e.buttons@[i].raw_changed_ms == 0 && e.buttons@[i].pressed_at_ms == 0,
    {
        ButtonEngine { buttons: [DebouncedButton::new(), DebouncedButton::new()] }
    }
}

impl ButtonEngine {
    pub open spec fn tracker(&self, button: Button) -> DebouncedButton {
        self.buttons@[button_index(button)]
    }

    /// Feeds one raw sample (`pressed` is the active level) taken at `now_ms`.
    ///
    /// A click is reported on the debounced release, with the time the press
    /// was held; a long press is reported once while still held, and a press
    /// that reported a long press reports no click.
    pub fn sample(&mut self, button: Button, pressed: bool, now_ms: u64) -> (event: Option<
        InputEvent,
    >)
        ensures
            final(self).tracker(button) == debounce_step(
                old(self).tracker(button),
                pressed,
                now_ms,
            ).0,
            forall|b: Button| b != button ==> final(self).tracker(b) == old(self).tracker(b),
            event == (match debounce_step(old(self).tracker(button), pressed, now_ms).1 {
                Some((gesture, held)) => Some(InputEvent { button, gesture, held_ms: held }),
                None => None,
            }),
            // A press that already reported a long press never also reports a click.
            event matches Some(e) && e.gesture == Gesture::Click
                ==> !old(self).tracker(button).long_reported,
            event matches Some(e) && e.gesture == Gesture::LongPress
                ==> final(self).tracker(button).long_reported,
    {
        let i = button.index();
        let mut state = self.buttons[i];
        let ghost s0 = state;
        if pressed != state.raw_pressed {
            state.raw_pressed = pressed;
            state.raw_changed_ms = now_ms;
        }
        assert(state == record_raw(s0, pressed, now_ms));
        let mut result: Option<InputEvent> = None;
        if state.raw_pressed != state.stable_pressed && now_ms.saturating_sub(state.raw_changed_ms)
            >= BUTTON_DEBOUNCE_MS {
            state.stable_pressed = state.raw_pressed;
            if state.stable_pressed {
                state.pressed_at_ms = now_ms;
                state.long_reported = false;
            } else if !state.long_reported {
                result = Some(
                    InputEvent {
                        button,
                        gesture: Gesture::Click,
                        held_ms: now_ms.saturating_sub(state.pressed_at_ms),
                    },
                );
            }
        }
        if result.is_none() && state.stable_pressed && !state.long_reported && now_ms.saturating_sub(
            state.pressed_at_ms,
        ) >= BUTTON_LONG_PRESS_MS {
            state.long_reported = true;
            result = Some(
                InputEvent {
                    button,
                    gesture: Gesture::LongPress,
                    held_ms: now_ms.saturating_sub(state.pressed_at_ms),
                },
            );
        }
        self.buttons[i] = state;
        result
    }

    /// How long the debounced press of `button` has been held at `now_ms`
    /// (0 while released).
    pub fn held_ms(&self, button: Button, now_ms: u64) -> (held: u64)
        ensures
            held as int == (if self.tracker(button).stable_pressed {
                elapsed(now_ms, self.tracker(button).pressed_at_ms)
            } else {
                0
            }),
    {
        let state = self.buttons[button.index()];
        if state.stable_pressed {
            now_ms.saturating_sub(state.pressed_at_ms)
        } else {
            0
        }
    }
}

} // verus!
