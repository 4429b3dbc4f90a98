//! Sampled device state shown by the dashboard: subsystem health, network,
//! clock, environment, battery, audio level history, storage and runtime.

use vstd::prelude::*;

verus! {

/// Number of RMS levels kept for the waveform strip.
pub const AUDIO_HISTORY_CAPACITY: usize = 72;

/// Health of one subsystem.
#[derive(Clone, Copy, Debug, PartialEq, Eq, Structural)]
pub enum Health {
    Unknown,
    Healthy,
    Stale,
    Error,
}

pub open spec fn health_label(h: Health) -> Seq<char> {
    match h {
        Health::Unknown => "WAIT"@,
        Health::Healthy => "OK"@,
        Health::Stale => "STALE"@,
        Health::Error => "ERR"@,
    }
}

impl Health {
    /// The short status word shown next to a subsystem.
    pub fn label(self) -> (l: &'static str)
        ensures
            l@ == health_label(self),
    {
        match self {
            Health::Unknown => "WAIT",
            Health::Healthy => "OK",
            Health::Stale => "STALE",
            Health::Error => "ERR",
        }
    }
}

#[derive(Clone, Copy, Debug)]
pub struct ButtonTelemetry {
    pub pressed: bool,
    pub held_ms: u64,
    pub clicks: u32,
    pub long_presses: u32,
}

impl ButtonTelemetry {
    pub open spec fn is_zeroed(self) -> bool {
        !self.pressed && self.held_ms == 0 && self.clicks == 0 && self.long_presses == 0
    }
}

impl Default for ButtonTelemetry {
    fn default() -> (t: Self)
        ensures
            t.is_zeroed(),
    {
        ButtonTelemetry { pressed: false, held_ms: 0, clicks: 0, long_presses: 0 }
    }
}

#[derive(Clone, Debug)]
pub struct WifiTelemetry {
    pub health: Health,
    pub ssid: String,
    pub ipv4: String,
    pub rssi_dbm: i16,
    pub reconnects: u32,
}

impl WifiTelemetry {
    /// Nothing known yet: health unknown, no network, no address.
    pub open spec fn is_unset(&self) -> bool {
        &&& self.health == Health::Unknown
        &&& self.ssid@.len() == 0
        &&& self.ipv4@.len() == 0
        &&& self.rssi_dbm == 0
        &&& self.reconnects == 0
    }
}

impl Default for WifiTelemetry {
    fn default() -> (t: Self)
        ensures
            t.is_unset(),
    {
        WifiTelemetry {
            health: Health::Unknown,
            ssid: String::new(),
            ipv4: String::new(),
            rssi_dbm: 0,
            reconnects: 0,
        }
    }
}

#[derive(Clone, Copy, Debug)]
pub struct ClockTelemetry {
    pub health: Health,
    pub zone: &'static str,
    pub year: u16,
    pub month: u8,
    pub day: u8,
    pub weekday: u8,
    pub hour: u8,
    pub minute: u8,
    pub second: u8,
}

impl ClockTelemetry {
    /// No time yet: health unknown, local zone, every field zero.
    pub open spec fn is_unset(&self) -> bool {
        &&& self.health == Health::Unknown
        &&& self.zone@ == "LOCAL"@
        &&& self.year == 0 && self.month == 0 && self.day == 0 && self.weekday == 0
        &&& self.hour == 0 && self.minute == 0 && self.second == 0
    }
}

impl Default for ClockTelemetry {
    fn default() -> (t: Self)
        ensures
            t.is_unset(),
    {
        ClockTelemetry {
            health: Health::Unknown,
            zone: "LOCAL",
            year: 0,
            month: 0,
            day: 0,
            weekday: 0,
            hour: 0,
            minute: 0,
            second: 0,
        }
    }
}

#[derive(Clone, Copy, Debug)]
pub struct EnvironmentTelemetry {
    pub health: Health,
    pub temperature_centi_c: i32,
    pub humidity_centi_pct: u32,
    pub sample_age_ms: u64,
    pub crc_errors: u32,
}

impl EnvironmentTelemetry {
    /// No sample yet: health unknown, every field zero.
    pub open spec fn is_unset(&self) -> bool {
        &&& self.health == Health::Unknown
        &&& self.temperature_centi_c == 0
        &&& self.humidity_centi_pct == 0
        &&& self.sample_age_ms == 0
        &&& self.crc_errors == 0
    }
}

impl Default for EnvironmentTelemetry {
    fn default() -> (t: Self)
        ensures
            t.is_unset(),
    {
        EnvironmentTelemetry {
            health: Health::Unknown,
            temperature_centi_c: 0,
            humidity_centi_pct: 0,
            sample_age_ms: 0,
            crc_errors: 0,
        }
    }
}

#[derive(Clone, Copy, Debug)]
pub struct BatteryTelemetry {
    pub health: Health,
    pub millivolts: u32,
    pub percent: u8,
    pub raw: u16,
}

impl BatteryTelemetry {
    /// No reading yet: health unknown, every field zero.
    pub open spec fn is_unset(&self) -> bool {
        &&& self.health == Health::Unknown
        &&& self.millivolts == 0
        &&& self.percent == 0
        &&& self.raw == 0
    }
}

impl Default for BatteryTelemetry {
    fn default() -> (t: Self)
        ensures
            t.is_unset(),
    {
        BatteryTelemetry { health: Health::Unknown, millivolts: 0, percent: 0, raw: 0 }
    }
}

/// Live audio levels plus a ring of the most recent RMS levels.
#[derive(Clone, Copy, Debug)]
pub struct AudioTelemetry {
    pub health: Health,
    pub sample_rate_hz: u32,
    pub rms: u16,
    pub peak: u16,
    pub buffered_frames: u32,
    pub buffer_capacity_frames: u32,
    pub frames_total: u64,
    pub overruns: u32,
    pub level_history: [u16; 72],
    pub history_len: u8,
    pub history_head: u8,
}

/// `after` is `before` with `rms` written at the ring's write position: the
/// position advances, one more level is retained up to 72, and nothing
/// else changes.
pub open spec fn level_pushed(before: AudioTelemetry, after: AudioTelemetry, rms: u16) -> bool {
    &&& after.level_history@ == before.level_history@.update(before.history_head as int, rms)
    &&& after.history_head == (before.history_head + 1) % 72
    &&& after.history_len == (if before.history_len >= 72 {
        72
    } else {
        before.history_len + 1
    })
    &&& after.health == before.health
    &&& after.sample_rate_hz == before.sample_rate_hz
    &&& after.rms == before.rms
    &&& after.peak == before.peak
    &&& after.buffered_frames == before.buffered_frames
    &&& after.buffer_capacity_frames == before.buffer_capacity_frames
    &&& after.frames_total == before.frames_total
    &&& after.overruns == before.overruns
}

impl Default for AudioTelemetry {
    fn default() -> (t: Self)
        ensures
            t.is_fresh(),
            t.wf(),
            t.history() == Seq::<u16>::empty(),
    {
        let t = AudioTelemetry {
            health: Health::Unknown,
            sample_rate_hz: 24_000,
            rms: 0,
            peak: 0,
            buffered_frames: 0,
            buffer_capacity_frames: 0,
            frames_total: 0,
            overruns: 0,
            level_history: [0u16; 72],
            history_len: 0,
            history_head: 0,
        };
        assert(t.history() =~= Seq::<u16>::empty());
        t
    }
}

impl AudioTelemetry {
    /// Nothing measured yet: health unknown at 24 kHz, all levels and counts
    /// zero and the ring empty.
    pub open spec fn is_fresh(&self) -> bool {
        &&& self.health == Health::Unknown
        &&& self.sample_rate_hz == 24_000
        &&& self.rms == 0 && self.peak == 0
        &&& self.buffered_frames == 0 && self.buffer_capacity_frames == 0
        &&& self.frames_total == 0 && self.overruns == 0
        &&& self.history_len == 0 && self.history_head == 0
        &&& forall|i: int| 0 <= i < 72 ==> #[trigger] self.level_history@[i] == 0
    }

    /// The ring is consistent: the write position follows the last level
    /// written, and until the ring first fills it equals the number of levels.
    pub open spec fn wf(&self) -> bool {
        &&& self.history_head < 72
        &&& self.history_len <= 72
        &&& self.history_len < 72 ==> self.history_head == self.history_len
    }

    /// Slot holding the oldest retained level.
    pub open spec fn oldest_slot(&self) -> int {
        if self.history_len == 72 {
            self.history_head as int
        } else {
            0
        }
    }

    /// The retained levels, oldest first.
    pub open spec fn history(&self) -> Seq<u16> {
        Seq::new(
            self.history_len as nat,
            |i: int| self.level_history@[(self.oldest_slot() + i) % 72],
        )
    }

    /// Appends one RMS level, discarding the oldest once 72 are retained.
    pub fn push_level(&mut self, rms: u16)
        requires
            old(self).history_head < 72,
        ensures
            level_pushed(*old(self), *final(self), rms),
            old(self).wf() ==> final(self).wf(),
            old(self).wf() ==> final(self).history() == (if old(self).history_len < 72 {
                old(self).history().push(rms)
            } else {
                old(self).history().drop_first().push(rms)
            }),
    {
        let head = self.history_head as usize;
        let ghost old_self = *self;
        self.level_history[head] = rms;
        self.history_head = ((head + 1) % 72) as u8;
        let next_len = self.history_len.saturating_add(1);
        self.history_len = if next_len > 72 {
            72
        } else {
            next_len
        };
        proof {
            if old_self.wf() {
                if old_self.history_len < 72 {
                    assert(self.history() =~= old_self.history().push(rms));
                } else {
                    let h = old_self.history_head as int;
                    assert forall|i: int| 0 <= i < 72 implies #[trigger] self.history()[i]
                        == old_self.history().drop_first().push(rms)[i] by {
                        if i < 71 {
                            assert((h + 1 + i) % 72 != h);
                            assert(((h + 1) % 72 + i) % 72 == (h + (i + 1)) % 72);
                        } else {
                            assert(((h + 1) % 72 + i) % 72 == h);
                        }
                    }
                    assert(self.history() =~= old_self.history().drop_first().push(rms));
                }
            }
        }
    }

    /// The level at `chronological_index` counted from the oldest retained
    /// level, or `None` past the newest.
    pub fn history_sample(&self, chronological_index: usize) -> (r: Option<u16>)
        ensures
            chronological_index >= self.history_len ==> r is None,
            chronological_index < self.history_len ==> r == Some(
                self.history()[chronological_index as int],
            ),
    {
        let len = self.history_len as usize;
        if chronological_index >= len {
            return None;
        }
        let oldest: usize = if len == 72 {
            (self.history_head % 72) as usize
        } else {
            0
        };
        proof {
            if len == 72 && self.history_head >= 72 {
                // The slot read below is taken modulo the ring size.
            }
        }
        let slot = (oldest + chronological_index % 72) % 72;
        assert(slot == (self.oldest_slot() + chronological_index) % 72) by {
            if len == 72 && self.history_head < 72 {
                assert(chronological_index < 72);
            }
        }
        Some(self.level_history[slot])
    }
}

#[derive(Clone, Copy, Debug)]
pub struct StorageTelemetry {
    pub health: Health,
    pub mounted: bool,
    pub total_kib: u64,
    pub free_kib: u64,
    pub event_bytes_written: u64,
    pub pending_events: u32,
    pub write_errors: u32,
}

impl StorageTelemetry {
    /// No card seen yet: health unknown, not mounted, every count zero.
    pub open spec fn is_unset(&self) -> bool {
        &&& self.health == Health::Unknown
        &&& !self.mounted
        &&& self.total_kib == 0 && self.free_kib == 0
        &&& self.event_bytes_written == 0 && self.pending_events == 0 && self.write_errors == 0
    }
}

impl Default for StorageTelemetry {
    fn default() -> (t: Self)
        ensures
            t.is_unset(),
    {
        StorageTelemetry {
            health: Health::Unknown,
            mounted: false,
            total_kib: 0,
            free_kib: 0,
            event_bytes_written: 0,
            pending_events: 0,
            write_errors: 0,
        }
    }
}

#[derive(Clone, Copy, Debug)]
pub struct RuntimeTelemetry {
    pub uptime_ms: u64,
    pub free_heap: u32,
    pub min_free_heap: u32,
    pub free_psram: u32,
    pub loop_hz: u16,
    pub display_flush_ms: u16,
    pub dropped_events: u32,
}

impl RuntimeTelemetry {
    /// Nothing measured yet: every field zero.
    pub open spec fn is_unset(&self) -> bool {
        &&& self.uptime_ms == 0 && self.free_heap == 0 && self.min_free_heap == 0
        &&& self.free_psram == 0 && self.loop_hz == 0 && self.display_flush_ms == 0
        &&& self.dropped_events == 0
    }
}

impl Default for RuntimeTelemetry {
    fn default() -> (t: Self)
        ensures
            t.is_unset(),
    {
        RuntimeTelemetry {
            uptime_ms: 0,
            free_heap: 0,
            min_free_heap: 0,
            free_psram: 0,
            loop_hz: 0,
            display_flush_ms: 0,
            dropped_events: 0,
        }
    }
}

/// Approximate charge of the RLCD-4.2 cell: linear from 3000 mV (empty) to
/// 4120 mV (full).
pub open spec fn spec_battery_percent_rlcd42(millivolts: u32) -> int {
    if millivolts <= 3000 {
        0
    } else if millivolts >= 4120 {
        100
    } else {
        (millivolts - 3000) * 100 / 1120
    }
}

pub fn battery_percent_rlcd42(millivolts: u32) -> (p: u8)
    ensures
        p as int == spec_battery_percent_rlcd42(millivolts),
        p <= 100,
{
    if millivolts <= 3_000 {
        0
    } else if millivolts >= 4_120 {
        100
    } else {
        (((millivolts - 3_000) * 100) / 1_120) as u8
    }
}

/// Approximate charge of the Touch LCD 3.49 cell: linear from 3300 mV
/// (empty) to 4200 mV (full).
pub open spec fn spec_battery_percent_touch349(millivolts: u32) -> int {
    if millivolts <= 3300 {
        0
    } else if millivolts >= 4200 {
        100
    } else {
        (millivolts - 3300) * 100 / 900
    }
}

pub fn battery_percent_touch349(millivolts: u32) -> (p: u8)
    ensures
        p as int == spec_battery_percent_touch349(millivolts),
        p <= 100,
{
    if millivolts <= 3_300 {
        0
    } else if millivolts >= 4_200 {
        100
    } else {
        (((millivolts - 3_300) * 100) / 900) as u8
    }
}

/// A higher cell voltage never reads as a lower charge, on either board.
pub proof fn battery_percent_is_monotonic(a: u32, b: u32)
    requires
        a <= b,
    ensures
        spec_battery_percent_rlcd42(a) <= spec_battery_percent_rlcd42(b),
        spec_battery_percent_touch349(a) <= spec_battery_percent_touch349(b),
        0 <= spec_battery_percent_rlcd42(a) <= 100,
        0 <= spec_battery_percent_touch349(a) <= 100,
{
    if 3000 <= a {
        assert((a - 3000) * 100 / 1120 <= (b - 3000) * 100 / 1120) by (nonlinear_arith)
            requires
                3000 <= a <= b,
        ;
    }
    if 3300 <= a {
        assert((a - 3300) * 100 / 900 <= (b - 3300) * 100 / 900) by (nonlinear_arith)
            requires
                3300 <= a <= b,
        ;
    }
}

} // verus!
