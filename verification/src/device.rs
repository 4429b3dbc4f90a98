//! What the firmware does with readings from the board: folding sensor,
//! clock, battery, storage, audio and network samples into the dashboard
//! state, recording the events that matter, and the small settings rules
//! (volume steps, backlight duty, frame rate).

use vstd::prelude::*;

use crate::audio::{audio_levels, frame_count, is_isqrt, mean_square, peak_of};
use crate::dashboard::DashboardState;
use crate::telemetry::{
    battery_percent_rlcd42, battery_percent_touch349, spec_battery_percent_rlcd42,
    spec_battery_percent_touch349, AudioTelemetry, BatteryTelemetry, ClockTelemetry,
    EnvironmentTelemetry, Health, StorageTelemetry,
};
use crate::text::{decimal, push_decimal, push_signed_decimal, push_str, signed_decimal};

verus! {

/// ESP-IDF's `ESP_ERR_INVALID_CRC`, returned when a sensor frame fails its
/// checksum.
pub const ESP_ERR_INVALID_CRC: i32 = 0x109;

/// Board readiness bits reported at start-up.
pub const BOARD_AUDIO_READY: u32 = 1;
pub const BOARD_ENV_READY: u32 = 2;
pub const BOARD_BATTERY_READY: u32 = 4;
pub const BOARD_SD_READY: u32 = 8;

/// A subsystem is healthy exactly when its readiness bit is set.
pub fn health_from_bit(mask: u32, bit: u32) -> (h: Health)
    ensures
        h == (if mask & bit != 0 {
            Health::Healthy
        } else {
            Health::Error
        }),
{
    if mask & bit != 0 {
        Health::Healthy
    } else {
        Health::Error
    }
}

pub open spec fn sat_add_u64(a: u64, b: u64) -> u64 {
    if a + b > u64::MAX {
        u64::MAX
    } else {
        (a + b) as u64
    }
}

pub open spec fn sat_inc_u32(a: u32) -> u32 {
    if a == u32::MAX {
        a
    } else {
        (a + 1) as u32
    }
}

/// The clock a successful reading sets: healthy, in `zone`, the year
/// clamped to 0..=65535.
pub open spec fn synced_clock(r: (i32, u8, u8, u8, u8, u8, u8), zone: &'static str) -> ClockTelemetry {
    ClockTelemetry {
        health: Health::Healthy,
        zone,
        year: (if r.0 < 0 {
            0
        } else if r.0 > 65535 {
            65535
        } else {
            r.0 as int
        }) as u16,
        month: r.1,
        day: r.2,
        weekday: r.3,
        hour: r.4,
        minute: r.5,
        second: r.6,
    }
}

/// A successful clock reading is kept field for field: the date, weekday
/// and time of day shown are the reading's own (year, month, day, weekday,
/// hour, minute, second), the year clamped to what 16 bits hold.
pub proof fn clock_reading_is_kept(r: (i32, u8, u8, u8, u8, u8, u8), zone: &'static str)
    ensures
        synced_clock(r, zone).health == Health::Healthy,
        0 <= r.0 <= 65535 ==> synced_clock(r, zone).year == r.0,
        synced_clock(r, zone).month == r.1,
        synced_clock(r, zone).day == r.2,
        synced_clock(r, zone).weekday == r.3,
        synced_clock(r, zone).hour == r.4,
        synced_clock(r, zone).minute == r.5,
        synced_clock(r, zone).second == r.6,
        synced_clock(r, zone).zone == zone,
{
}

/// One clock reading: on success the clock becomes healthy with the reading
/// (year clamped to 0..=65535) and the first synchronization is recorded;
/// a failed reading before any success marks the clock stale.
pub fn apply_clock_sample(
    state: &mut DashboardState,
    reading: Option<(i32, u8, u8, u8, u8, u8, u8)>,
    zone: &'static str,
    now_ms: u64,
)
    ensures
        reading matches Some(r) ==> ({
            let synced = DashboardState { clock: synced_clock(r, zone), ..*old(state) };
            if old(state).clock.health != Health::Healthy {
                synced.then_logged(*final(state), now_ms, "TIME"@, "network time synchronized"@)
            } else {
                *final(state) == synced
            }
        }),
        reading matches Some(r) ==> final(state).clock.hour == r.4 && final(state).clock.minute
            == r.5 && final(state).clock.second == r.6 && final(state).clock.month == r.1
            && final(state).clock.day == r.2 && final(state).clock.weekday == r.3,
        reading is None ==> *final(state) == (DashboardState {
            clock: if old(state).clock.health == Health::Unknown {
                ClockTelemetry { health: Health::Stale, ..old(state).clock }
            } else {
                old(state).clock
            },
            ..*old(state)
        }),
{
    match reading {
        Some((year, month, day, weekday, hour, minute, second)) => {
            let first_sync = state.clock.health != Health::Healthy;
            state.clock = ClockTelemetry {
                health: Health::Healthy,
                zone,
                year: if year < 0 {
                    0
                } else if year > 65535 {
                    65535
                } else {
                    year as u16
                },
                month,
                day,
                weekday,
                hour,
                minute,
                second,
            };
            if first_sync {
                state.record(now_ms, "TIME", "network time synchronized");
            }
        },
        None => {
            if state.clock.health == Health::Unknown {
                state.clock.health = Health::Stale;
            }
        },
    }
}

/// Text of an accepted environment sample.
pub open spec fn environment_detail(t: i32, h: u32) -> Seq<char> {
    "t="@ + signed_decimal(t as int) + "cC rh="@ + decimal(h as nat) + "cPct"@
}

/// One environment reading (centi-degrees, centi-percent) or the ESP-IDF
/// error. A success makes the sensor healthy, restarts the sample age,
/// records a recovery after a failure and records the sample; a failure
/// counts CRC errors, records the first failure and marks the sensor failed.
/// Returns whether the sample was accepted.
pub fn apply_environment_sample(state: &mut DashboardState, reading: Result<(i32, u32), i32>, now_ms: u64) -> (accepted: bool)
    ensures
        accepted == reading is Ok,
        reading matches Ok(r) ==> ({
            let sampled = DashboardState {
                environment: EnvironmentTelemetry {
                    health: Health::Healthy,
                    temperature_centi_c: r.0,
                    humidity_centi_pct: r.1,
                    sample_age_ms: 0,
                    crc_errors: old(state).environment.crc_errors,
                },
                ..*old(state)
            };
            if old(state).environment.health != Health::Healthy {
                exists|recovered: DashboardState|
                    #![trigger sampled.then_logged(recovered, now_ms, "SHTC3"@, "sampling recovered"@)]
                    sampled.then_logged(recovered, now_ms, "SHTC3"@, "sampling recovered"@)
                        && recovered.then_logged(
                        *final(state),
                        now_ms,
                        "SHTC3"@,
                        environment_detail(r.0, r.1),
                    )
            } else {
                sampled.then_logged(*final(state), now_ms, "SHTC3"@, environment_detail(r.0, r.1))
            }
        }),
        reading matches Err(code) ==> ({
            let counted = EnvironmentTelemetry {
                crc_errors: if code == ESP_ERR_INVALID_CRC {
                    sat_inc_u32(old(state).environment.crc_errors)
                } else {
                    old(state).environment.crc_errors
                },
                ..old(state).environment
            };
            let before_health = DashboardState { environment: counted, ..*final(state) };
            &&& final(state).environment == (EnvironmentTelemetry {
                health: Health::Error,
                ..counted
            })
            &&& if old(state).environment.health != Health::Error {
                (DashboardState { environment: counted, ..*old(state) }).then_logged(
                    before_health,
                    now_ms,
                    "SHTC3"@,
                    "sample failed"@,
                )
            } else {
                before_health == (DashboardState { environment: counted, ..*old(state) })
            }
        }),
{
    match reading {
        Ok((temperature, humidity)) => {
            let recovered = state.environment.health != Health::Healthy;
            state.environment = EnvironmentTelemetry {
                health: Health::Healthy,
                temperature_centi_c: temperature,
                humidity_centi_pct: humidity,
                sample_age_ms: 0,
                crc_errors: state.environment.crc_errors,
            };
            let ghost sampled = *state;
            if recovered {
                state.record(now_ms, "SHTC3", "sampling recovered");
            }
            let ghost after_recovery = *state;
            let mut detail = String::from_str("t=");
            push_signed_decimal(&mut detail, temperature as i64);
            push_str(&mut detail, "cC rh=");
            push_decimal(&mut detail, humidity as u64);
            push_str(&mut detail, "cPct");
            assert(detail@ =~= environment_detail(temperature, humidity));
            state.record(now_ms, "SHTC3", detail.as_str());
            if recovered {
                assert(sampled.then_logged(after_recovery, now_ms, "SHTC3"@, "sampling recovered"@));
            }
            true
        },
        Err(code) => {
            if code == ESP_ERR_INVALID_CRC {
                state.environment.crc_errors = state.environment.crc_errors.saturating_add(1);
            }
            if state.environment.health != Health::Error {
                state.record(now_ms, "SHTC3", "sample failed");
            }
            let ghost logged = *state;
            state.environment.health = Health::Error;
            assert(logged == (DashboardState { environment: logged.environment, ..*state }));
            false
        },
    }
}

/// Text of an accepted battery sample.
pub open spec fn battery_detail(mv: u32, pct: int, raw: u16) -> Seq<char> {
    "mv="@ + decimal(mv as nat) + " pct="@ + decimal(pct as nat) + " raw="@ + decimal(raw as nat)
}

/// One RLCD battery reading (millivolts, raw ADC): a success stores the
/// reading with its charge estimate and records it; a failure records the
/// first failure and marks the ADC failed.
pub fn apply_battery_sample(state: &mut DashboardState, reading: Option<(u32, u16)>, now_ms: u64)
    ensures
        reading matches Some(r) ==> (DashboardState {
            battery: BatteryTelemetry {
                health: Health::Healthy,
                millivolts: r.0,
                percent: spec_battery_percent_rlcd42(r.0) as u8,
                raw: r.1,
            },
            ..*old(state)
        }).then_logged(
            *final(state),
            now_ms,
            "BAT"@,
            battery_detail(r.0, spec_battery_percent_rlcd42(r.0), r.1),
        ),
        reading is None ==> ({
            let before_health = DashboardState { battery: old(state).battery, ..*final(state) };
            &&& final(state).battery == (BatteryTelemetry {
                health: Health::Error,
                ..old(state).battery
            })
            &&& if old(state).battery.health != Health::Error {
                old(state).then_logged(before_health, now_ms, "BAT"@, "ADC read failed"@)
            } else {
                before_health == *old(state)
            }
        }),
{
    match reading {
        Some((millivolts, raw)) => {
            let percent = battery_percent_rlcd42(millivolts);
            state.battery = BatteryTelemetry { health: Health::Healthy, millivolts, percent, raw };
            let mut detail = String::from_str("mv=");
            push_decimal(&mut detail, millivolts as u64);
            push_str(&mut detail, " pct=");
            push_decimal(&mut detail, percent as u64);
            push_str(&mut detail, " raw=");
            push_decimal(&mut detail, raw as u64);
            state.record(now_ms, "BAT", detail.as_str());
        },
        None => {
            if state.battery.health != Health::Error {
                state.record(now_ms, "BAT", "ADC read failed");
            }
            let ghost logged = *state;
            state.battery.health = Health::Error;
            assert(logged == (DashboardState { battery: logged.battery, ..*state }));
        },
    }
}

/// Text of a storage sample.
pub open spec fn storage_detail(free: u64, total: u64) -> Seq<char> {
    "free="@ + decimal(free as nat) + "KiB total="@ + decimal(total as nat) + "KiB"@
}

/// One SD statistics reading (total and free KiB): a success marks the card
/// mounted and healthy and records the figures; a failure records the first
/// failure and marks the card unmounted.
pub fn apply_storage_sample(state: &mut DashboardState, reading: Option<(u64, u64)>, now_ms: u64)
    ensures
        reading matches Some(r) ==> (DashboardState {
            storage: StorageTelemetry {
                health: Health::Healthy,
                mounted: true,
                total_kib: r.0,
                free_kib: r.1,
                ..old(state).storage
            },
            ..*old(state)
        }).then_logged(*final(state), now_ms, "SD"@, storage_detail(r.1, r.0)),
        reading is None ==> ({
            let before_health = DashboardState { storage: old(state).storage, ..*final(state) };
            &&& final(state).storage == (StorageTelemetry {
                health: Health::Error,
                mounted: false,
                ..old(state).storage
            })
            &&& if old(state).storage.health != Health::Error {
                old(state).then_logged(before_health, now_ms, "SD"@, "card unavailable"@)
            } else {
                before_health == *old(state)
            }
        }),
{
    match reading {
        Some((total, free)) => {
            state.storage.health = Health::Healthy;
            state.storage.mounted = true;
            state.storage.total_kib = total;
            state.storage.free_kib = free;
            let mut detail = String::from_str("free=");
            push_decimal(&mut detail, free);
            push_str(&mut detail, "KiB total=");
            push_decimal(&mut detail, total);
            push_str(&mut detail, "KiB");
            state.record(now_ms, "SD", detail.as_str());
        },
        None => {
            if state.storage.health != Health::Error {
                state.record(now_ms, "SD", "card unavailable");
            }
            let ghost logged = *state;
            state.storage.health = Health::Error;
            state.storage.mounted = false;
            assert(logged == (DashboardState { storage: logged.storage, ..*state }));
        },
    }
}

/// One microphone capture: the live RMS and peak of the chunk, frame
/// counters, and health; a failed read records the first failure. Returns
/// whether samples were captured.
pub fn apply_audio_capture(state: &mut DashboardState, samples: Option<&[i16]>, now_ms: u64) -> (captured: bool)
    ensures
        captured == samples is Some,
        samples matches Some(s) ==> ({
            let frames = frame_count(s@.len());
            &&& *final(state) == (DashboardState {
                audio: AudioTelemetry {
                    health: Health::Healthy,
                    rms: final(state).audio.rms,
                    peak: final(state).audio.peak,
                    frames_total: sat_add_u64(old(state).audio.frames_total, frames as u64),
                    buffered_frames: frames as u32,
                    buffer_capacity_frames: frames as u32,
                    ..old(state).audio
                },
                ..*old(state)
            })
            &&& exists|r: int|
                is_isqrt(mean_square(s@), r) && final(state).audio.rms as int == (if r > 65535 {
                    65535
                } else {
                    r
                })
            &&& final(state).audio.peak as int == (if peak_of(s@, frames) > 65535 {
                65535
            } else {
                peak_of(s@, frames)
            })
        }),
        samples is None ==> ({
            let before_health = DashboardState { audio: old(state).audio, ..*final(state) };
            &&& final(state).audio == (AudioTelemetry { health: Health::Error, ..old(state).audio })
            &&& if old(state).audio.health != Health::Error {
                old(state).then_logged(before_health, now_ms, "MIC"@, "capture read failed"@)
            } else {
                before_health == *old(state)
            }
        }),
{
    match samples {
        None => {
            if state.audio.health != Health::Error {
                state.record(now_ms, "MIC", "capture read failed");
            }
            let ghost logged = *state;
            state.audio.health = Health::Error;
            assert(logged == (DashboardState { audio: logged.audio, ..*state }));
            false
        },
        Some(s) => {
            let (rms, peak) = audio_levels(s);
            let frames = s.len() / 2 + s.len() % 2;
            assert(frames == frame_count(s@.len()));
            state.audio.health = Health::Healthy;
            state.audio.rms = rms;
            state.audio.peak = peak;
            state.audio.frames_total = state.audio.frames_total.saturating_add(frames as u64);
            state.audio.buffer_capacity_frames = frames as u32;
            state.audio.buffered_frames = frames as u32;
            true
        },
    }
}

/// Next speaker volume on the RLCD board: 25, 40, 55, 70, 85, 100, then 25.
pub open spec fn spec_next_volume_rlcd42(v: u8) -> u8 {
    if v <= 25 {
        40
    } else if v <= 40 {
        55
    } else if v <= 55 {
        70
    } else if v <= 70 {
        85
    } else if v <= 85 {
        100
    } else {
        25
    }
}

pub fn next_volume_rlcd42(v: u8) -> (n: u8)
    ensures
        n == spec_next_volume_rlcd42(v),
{
    if v <= 25 {
        40
    } else if v <= 40 {
        55
    } else if v <= 55 {
        70
    } else if v <= 70 {
        85
    } else if v <= 85 {
        100
    } else {
        25
    }
}

/// Next speaker volume on the Touch349 board: 40, 55, 70, 85, 100, then 40.
pub open spec fn spec_next_volume_touch349(v: u8) -> u8 {
    if v <= 40 {
        55
    } else if v <= 55 {
        70
    } else if v <= 70 {
        85
    } else if v <= 85 {
        100
    } else {
        40
    }
}

pub fn next_volume_touch349(v: u8) -> (n: u8)
    ensures
        n == spec_next_volume_touch349(v),
{
    if v <= 40 {
        55
    } else if v <= 55 {
        70
    } else if v <= 70 {
        85
    } else if v <= 85 {
        100
    } else {
        40
    }
}

/// Volume steps stay audible and cycle through a fixed ladder.
pub proof fn volume_steps_cycle(v: u8)
    ensures
        25 <= spec_next_volume_rlcd42(v) <= 100,
        40 <= spec_next_volume_touch349(v) <= 100,
        v == 25 ==> spec_next_volume_rlcd42(
            spec_next_volume_rlcd42(
                spec_next_volume_rlcd42(spec_next_volume_rlcd42(spec_next_volume_rlcd42(spec_next_volume_rlcd42(v)))),
            ),
        ) == v,
        v == 40 ==> spec_next_volume_touch349(
            spec_next_volume_touch349(spec_next_volume_touch349(spec_next_volume_touch349(spec_next_volume_touch349(v)))),
        ) == v,
{
}

/// Backlight PWM duty (active low) for a brightness in percent, at least 20.
pub open spec fn spec_backlight_duty(brightness: u8) -> int {
    let b = if brightness < 20 {
        20
    } else {
        brightness as int
    };
    let scaled = b * 255 / 100;
    if scaled > 255 {
        0
    } else {
        255 - scaled
    }
}

pub fn backlight_duty(brightness: u8) -> (duty: u8)
    ensures
        duty as int == spec_backlight_duty(brightness),
{
    let b: u16 = if brightness < 20 {
        20
    } else {
        brightness as u16
    };
    let scaled: u16 = b * 255 / 100;
    255u16.saturating_sub(scaled) as u8
}

/// Frames per second of a frame that took `frame_us` microseconds (0 when
/// unmeasured), capped at 255.
pub fn display_fps(frame_us: u32) -> (fps: u8)
    ensures
        frame_us == 0 ==> fps == 0,
        frame_us > 0 ==> fps as int == (if 1_000_000int / (frame_us as int) > 255 {
            255
        } else {
            1_000_000int / (frame_us as int)
        }),
{
    if frame_us == 0 {
        0
    } else {
        let f = 1_000_000 / frame_us;
        if f > 255 {
            255
        } else {
            f as u8
        }
    }
}

/// The Touch349 charge estimate of a battery reading: a success stores the
/// reading, a failure only marks the ADC failed.
pub fn apply_touch349_battery(state: &mut DashboardState, reading: Option<(u16, u32)>)
    ensures
        reading matches Some(r) ==> final(state).battery == (BatteryTelemetry {
            health: Health::Healthy,
            millivolts: r.1,
            percent: spec_battery_percent_touch349(r.1) as u8,
            raw: r.0,
        }),
        reading is None ==> final(state).battery == (BatteryTelemetry {
            health: Health::Error,
            ..old(state).battery
        }),
        *final(state) == (DashboardState { battery: final(state).battery, ..*old(state) }),
{
    match reading {
        Some((raw, millivolts)) => {
            state.battery = BatteryTelemetry {
                health: Health::Healthy,
                millivolts,
                percent: battery_percent_touch349(millivolts),
                raw,
            };
        },
        None => {
            state.battery.health = Health::Error;
        },
    }
}

} // verus!
