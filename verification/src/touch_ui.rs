//! The 172x640 portrait touch dashboard: each view as a display list of
//! RGB565 primitives, with its controls where the tap table expects them.

use vstd::prelude::*;
use vstd::view::View as _;
use crate::audio::{level_height, spec_level_height};
use crate::dashboard::{
    back_view, home_tile_view, menu_view, next_brightness, touch_navigation, view_title,
    DashboardState, Navigation, SpeakerTestState, UiAction, View,
};
use crate::draw::{
    all_on_panel, fill_mark, fill_rect, grows, line_mark, line_to, marks, marks_push, outline_mark,
    outline_rect, text_at, text_mark, DrawCmd, Font, Mark,
};
use crate::graphics::{rgb565_storage, Rgb565};
use crate::rlcd::{month_name, position_text, spec_month_name, spec_weekday_name, weekday_name};
use crate::telemetry::{AudioTelemetry, ClockTelemetry, Health};
use crate::text::{
    clip, clipped_name, decimal, lines_of, pad_left, push_char, push_decimal,
    push_decimal_zero_padded, push_str, text_lines,
};

verus! {

/// The colors of the touch layout.
#[derive(Clone, Copy, Debug, PartialEq, Eq, Structural)]
pub enum Tone {
    Background,
    Surface,
    SurfaceAlt,
    Text,
    Muted,
    Accent,
    Good,
    Warn,
    Bad,
}

/// The red, green and blue channels of each tone.
pub open spec fn tone_channels(t: Tone) -> (u8, u8, u8) {
    match t {
        Tone::Background => (1, 3, 5),
        Tone::Surface => (3, 8, 12),
        Tone::SurfaceAlt => (5, 13, 19),
        Tone::Text => (29, 59, 29),
        Tone::Muted => (15, 34, 20),
        Tone::Accent => (2, 49, 29),
        Tone::Good => (7, 51, 18),
        Tone::Warn => (31, 39, 4),
        Tone::Bad => (31, 12, 9),
    }
}

/// The RGB565 value of a tone.
pub open spec fn tone(t: Tone) -> Rgb565 {
    Rgb565 {
        storage: rgb565_storage(tone_channels(t).0, tone_channels(t).1, tone_channels(t).2) as u16,
    }
}

pub fn tone_color(t: Tone) -> (c: Rgb565)
    ensures
        c == tone(t),
{
    let (r, g, b) = match t {
        Tone::Background => (1u8, 3u8, 5u8),
        Tone::Surface => (3, 8, 12),
        Tone::SurfaceAlt => (5, 13, 19),
        Tone::Text => (29, 59, 29),
        Tone::Muted => (15, 34, 20),
        Tone::Accent => (2, 49, 29),
        Tone::Good => (7, 51, 18),
        Tone::Warn => (31, 39, 4),
        Tone::Bad => (31, 12, 9),
    };
    Rgb565::new(r, g, b)
}

/// The list lies on the touch panel.
pub open spec fn on_touch_panel(cmds: Seq<DrawCmd<Rgb565>>) -> bool {
    all_on_panel(cmds, 172, 640)
}

/// The traffic-light tone of a subsystem's health.
pub open spec fn health_tone(h: Health) -> Tone {
    match h {
        Health::Healthy => Tone::Good,
        Health::Error => Tone::Bad,
        _ => Tone::Warn,
    }
}

fn health_tone_of(h: Health) -> (t: Tone)
    ensures
        t == health_tone(h),
{
    match h {
        Health::Healthy => Tone::Good,
        Health::Error => Tone::Bad,
        _ => Tone::Warn,
    }
}

/// The font of a touch text line: bold is the 9x15 font, else 6x10.
pub open spec fn touch_font(bold: bool) -> Font {
    if bold {
        Font::Bold
    } else {
        Font::Small
    }
}

/// A text mark in tone `t`.
pub open spec fn toned_text(x: int, y: int, s: Seq<char>, t: Tone, bold: bool) -> Mark<Rgb565> {
    text_mark(x, y, s, touch_font(bold), tone(t))
}

/// A filled-rectangle mark in tone `t`.
pub open spec fn toned_fill(x: int, y: int, width: int, height: int, t: Tone) -> Mark<Rgb565> {
    fill_mark(x, y, width, height, tone(t))
}

/// Appends a line of text.
fn touch_text(cmds: &mut Vec<DrawCmd<Rgb565>>, s: &str, x: i32, y: i32, t: Tone, bold: bool)
    requires
        0 <= x < 172,
        0 <= y < 640,
    ensures
        grows(old(cmds)@, final(cmds)@, 172, 640),
        marks(final(cmds)@) == marks(old(cmds)@).push(toned_text(x as int, y as int, s@, t, bold)),
{
    broadcast use marks_push;

    text_at(cmds, x, y, s.to_owned(), if bold {
        Font::Bold
    } else {
        Font::Small
    }, tone_color(t), 172, 640);
}

/// Appends a text line held in a `String`.
fn touch_string(cmds: &mut Vec<DrawCmd<Rgb565>>, s: String, x: i32, y: i32, t: Tone, bold: bool)
    requires
        0 <= x < 172,
        0 <= y < 640,
    ensures
        grows(old(cmds)@, final(cmds)@, 172, 640),
        marks(final(cmds)@) == marks(old(cmds)@).push(toned_text(x as int, y as int, s@, t, bold)),
{
    broadcast use marks_push;

    let ghost v = s@;
    text_at(cmds, x, y, s, if bold {
        Font::Bold
    } else {
        Font::Small
    }, tone_color(t), 172, 640);
}

/// Appends a filled rectangle in tone `t`.
fn touch_fill(cmds: &mut Vec<DrawCmd<Rgb565>>, x: i32, y: i32, width: u32, height: u32, t: Tone)
    requires
        0 <= x,
        0 <= y,
        x + width <= 172,
        y + height <= 640,
    ensures
        grows(old(cmds)@, final(cmds)@, 172, 640),
        marks(final(cmds)@) == marks(old(cmds)@).push(
            toned_fill(x as int, y as int, width as int, height as int, t),
        ),
{
    broadcast use marks_push;

    fill_rect(cmds, x, y, width, height, tone_color(t), 172, 640);
}

/// `m` followed by a full-width button: a 156x56 block in `t` with its
/// label in bold.
pub open spec fn with_action(m: Seq<Mark<Rgb565>>, x: int, y: int, label: Seq<char>, t: Tone) -> Seq<
    Mark<Rgb565>,
> {
    m.push(toned_fill(x, y, 156, 56, t)).push(toned_text(x + 14, y + 21, label, Tone::Text, true))
}

/// A full-width button.
fn touch_action(cmds: &mut Vec<DrawCmd<Rgb565>>, x: i32, y: i32, label: &str, t: Tone)
    requires
        0 <= x <= 16,
        0 <= y <= 584,
    ensures
        grows(old(cmds)@, final(cmds)@, 172, 640),
        marks(final(cmds)@) == with_action(marks(old(cmds)@), x as int, y as int, label@, t),
{
    touch_fill(cmds, x, y, 156, 56, t);
    touch_text(cmds, label, x + 14, y + 21, Tone::Text, true);
}

/// `m` followed by a status bar: a 156x38 block in `t` with its label.
pub open spec fn with_pill(m: Seq<Mark<Rgb565>>, x: int, y: int, label: Seq<char>, t: Tone) -> Seq<
    Mark<Rgb565>,
> {
    m.push(toned_fill(x, y, 156, 38, t)).push(toned_text(x + 12, y + 12, label, Tone::Text, false))
}

/// A status bar.
fn touch_status_pill(cmds: &mut Vec<DrawCmd<Rgb565>>, x: i32, y: i32, label: &str, t: Tone)
    requires
        0 <= x <= 16,
        0 <= y <= 600,
    ensures
        grows(old(cmds)@, final(cmds)@, 172, 640),
        marks(final(cmds)@) == with_pill(marks(old(cmds)@), x as int, y as int, label@, t),
{
    touch_fill(cmds, x, y, 156, 38, t);
    touch_text(cmds, label, x + 12, y + 12, Tone::Text, false);
}

/// `m` followed by a card with a label and a health dot in its top-right
/// corner.
pub open spec fn with_card(
    m: Seq<Mark<Rgb565>>,
    x: int,
    y: int,
    width: int,
    height: int,
    label: Seq<char>,
    health: Health,
) -> Seq<Mark<Rgb565>> {
    m.push(toned_fill(x, y, width, height, Tone::Surface)).push(
        toned_text(x + 10, y + 12, label, Tone::Muted, false),
    ).push(toned_fill(x + width - 18, y + 15, 7, 7, health_tone(health)))
}

/// A card with a health dot.
fn touch_card(
    cmds: &mut Vec<DrawCmd<Rgb565>>,
    x: i32,
    y: i32,
    width: u32,
    height: u32,
    label: &str,
    health: Health,
)
    requires
        0 <= x <= 16,
        24 <= width <= 156,
        24 <= height <= 80,
        0 <= y <= 500,
    ensures
        grows(old(cmds)@, final(cmds)@, 172, 640),
        marks(final(cmds)@) == with_card(
            marks(old(cmds)@),
            x as int,
            y as int,
            width as int,
            height as int,
            label@,
            health,
        ),
{
    touch_fill(cmds, x, y, width, height, Tone::Surface);
    touch_text(cmds, label, x + 10, y + 12, Tone::Muted, false);
    touch_fill(cmds, x + width as i32 - 18, y + 15, 7, 7, health_tone_of(health));
}

/// `m` followed by the bottom bar: HOME on the left, lit on the home
/// screen, and BACK on the right.
pub open spec fn with_nav(m: Seq<Mark<Rgb565>>, view: View) -> Seq<Mark<Rgb565>> {
    m.push(toned_fill(0, 568, 172, 72, Tone::Surface)).push(
        toned_fill(
            4,
            576,
            80,
            56,
            if view == View::Home {
                Tone::Accent
            } else {
                Tone::SurfaceAlt
            },
        ),
    ).push(toned_text(24, 597, "HOME"@, Tone::Text, true)).push(
        toned_fill(88, 576, 80, 56, Tone::SurfaceAlt),
    ).push(toned_text(108, 597, "BACK"@, Tone::Text, true))
}

/// The bottom bar.
fn touch_nav(cmds: &mut Vec<DrawCmd<Rgb565>>, view: View)
    ensures
        grows(old(cmds)@, final(cmds)@, 172, 640),
        marks(final(cmds)@) == with_nav(marks(old(cmds)@), view),
{
    touch_fill(cmds, 0, 568, 172, 72, Tone::Surface);
    touch_fill(cmds, 4, 576, 80, 56, if view == View::Home {
        Tone::Accent
    } else {
        Tone::SurfaceAlt
    });
    touch_text(cmds, "HOME", 24, 597, Tone::Text, true);
    touch_fill(cmds, 88, 576, 80, 56, Tone::SurfaceAlt);
    touch_text(cmds, "BACK", 108, 597, Tone::Text, true);
}

/// Width of the header's charge bar: twelve pixels at full charge, never
/// less than one.
pub open spec fn header_battery_width(percent: u8) -> int {
    let p: int = if percent > 100 {
        100
    } else {
        percent as int
    };
    if 12 * p / 100 < 1 {
        1
    } else {
        12 * p / 100
    }
}

/// `m` followed by the header: product name, view title, network dot and
/// battery gauge (red under 20%).
pub open spec fn with_header(m: Seq<Mark<Rgb565>>, state: DashboardState) -> Seq<Mark<Rgb565>> {
    m.push(toned_fill(0, 0, 172, 52, Tone::Surface)).push(
        toned_text(8, 8, "ZONKO HMI"@, Tone::Accent, true),
    ).push(toned_text(8, 28, view_title(state.view), Tone::Text, false)).push(
        toned_fill(151, 12, 10, 10, health_tone(state.wifi.health)),
    ).push(outline_mark(148, 31, 14, 7, tone(Tone::Muted), 1)).push(
        toned_fill(
            149,
            32,
            header_battery_width(state.battery.percent),
            5,
            if state.battery.percent < 20 {
                Tone::Bad
            } else {
                Tone::Good
            },
        ),
    )
}

/// The header.
fn touch_header(cmds: &mut Vec<DrawCmd<Rgb565>>, state: &DashboardState)
    ensures
        grows(old(cmds)@, final(cmds)@, 172, 640),
        marks(final(cmds)@) == with_header(marks(old(cmds)@), *state),
{
    broadcast use marks_push;

    touch_fill(cmds, 0, 0, 172, 52, Tone::Surface);
    touch_text(cmds, "ZONKO HMI", 8, 8, Tone::Accent, true);
    touch_text(cmds, state.view.title(), 8, 28, Tone::Text, false);
    touch_fill(cmds, 151, 12, 10, 10, health_tone_of(state.wifi.health));
    outline_rect(cmds, 148, 31, 14, 7, tone_color(Tone::Muted), 1, 172, 640);
    let p: u32 = if state.battery.percent > 100 {
        100
    } else {
        state.battery.percent as u32
    };
    let scaled = 12 * p / 100;
    let width: u32 = if scaled < 1 {
        1
    } else {
        scaled
    };
    touch_fill(cmds, 149, 32, width, 5, if state.battery.percent < 20 {
        Tone::Bad
    } else {
        Tone::Good
    });
}

/// The rectangle of home tile `index` (row-major, two per row).
pub open spec fn home_tile_origin(index: int) -> (int, int) {
    (if index % 2 == 0 {
        8
    } else {
        88
    }, if index < 2 {
        252
    } else {
        368
    })
}

pub open spec fn home_tile_label(index: int) -> Seq<char> {
    if index == 0 {
        "RECORD"@
    } else if index == 1 {
        "FILES"@
    } else if index == 2 {
        "LIVE"@
    } else {
        "SETTINGS"@
    }
}

pub open spec fn home_tile_tone(index: int) -> Tone {
    if index == 0 {
        Tone::Bad
    } else if index == 1 {
        Tone::Accent
    } else if index == 2 {
        Tone::Good
    } else {
        Tone::Warn
    }
}

/// `m` followed by home tile `i`: its surface, a colored top edge, its
/// label and the tap hint.
pub open spec fn with_home_tile(m: Seq<Mark<Rgb565>>, i: int) -> Seq<Mark<Rgb565>> {
    let (x, y) = home_tile_origin(i);
    m.push(toned_fill(x, y, 76, 100, Tone::Surface)).push(toned_fill(x, y, 76, 5, home_tile_tone(i))).push(
        toned_text(x + 8, y + 42, home_tile_label(i), Tone::Text, false),
    ).push(toned_text(x + 8, y + 68, "TAP"@, Tone::Muted, false))
}

/// `m` followed by the first `n` home tiles.
pub open spec fn with_home_tiles(m: Seq<Mark<Rgb565>>, n: nat) -> Seq<Mark<Rgb565>>
    decreases n,
{
    if n == 0 {
        m
    } else {
        with_home_tile(with_home_tiles(m, (n - 1) as nat), n - 1)
    }
}

/// The home screen's time: `HH:MM`, or dashes while the clock is unknown.
pub open spec fn touch_time(clock: ClockTelemetry) -> Seq<char> {
    if clock.health == Health::Healthy {
        pad_left(decimal(clock.hour as nat), 2, '0') + seq![':'] + pad_left(
            decimal(clock.minute as nat),
            2,
            '0',
        )
    } else {
        "--:--"@
    }
}

/// The home screen's date: `WEEKDAY DD MONTH`.
pub open spec fn touch_date(clock: ClockTelemetry) -> Seq<char> {
    spec_weekday_name(clock.weekday) + seq![' '] + pad_left(decimal(clock.day as nat), 2, '0') + seq![
        ' ',
    ] + spec_month_name(clock.month)
}

/// `m` followed by the home screen: time and date, the network card, four
/// quick-action tiles and a hint.
pub open spec fn with_touch_home(m: Seq<Mark<Rgb565>>, state: DashboardState) -> Seq<Mark<Rgb565>> {
    with_home_tiles(
        with_card(
            m.push(toned_text(14, 74, touch_time(state.clock), Tone::Text, true)).push(
                toned_text(17, 112, touch_date(state.clock), Tone::Muted, false),
            ),
            8,
            148,
            156,
            54,
            "NETWORK"@,
            state.wifi.health,
        ).push(
            toned_text(
                66,
                169,
                if state.wifi.ipv4@.len() == 0 {
                    "CONNECTING..."@
                } else {
                    state.wifi.ipv4@
                },
                Tone::Text,
                false,
            ),
        ).push(toned_text(8, 224, "QUICK ACTIONS"@, Tone::Muted, false)),
        4,
    ).push(toned_text(20, 500, "Tap an action to open"@, Tone::Muted, false))
}

/// The home screen.
fn touch_home(cmds: &mut Vec<DrawCmd<Rgb565>>, state: &DashboardState)
    ensures
        grows(old(cmds)@, final(cmds)@, 172, 640),
        marks(final(cmds)@) == with_touch_home(marks(old(cmds)@), *state),
{
    let mut time = String::new();
    if state.clock.health == Health::Healthy {
        push_decimal_zero_padded(&mut time, state.clock.hour as u64, 2);
        push_char(&mut time, ':');
        push_decimal_zero_padded(&mut time, state.clock.minute as u64, 2);
    } else {
        push_str(&mut time, "--:--");
    }
    assert(time@ =~= touch_time(state.clock));
    touch_string(cmds, time, 14, 74, Tone::Text, true);
    let mut date = String::new();
    push_str(&mut date, weekday_name(state.clock.weekday));
    push_char(&mut date, ' ');
    push_decimal_zero_padded(&mut date, state.clock.day as u64, 2);
    push_char(&mut date, ' ');
    push_str(&mut date, month_name(state.clock.month));
    assert(date@ =~= touch_date(state.clock));
    touch_string(cmds, date, 17, 112, Tone::Muted, false);
    touch_card(cmds, 8, 148, 156, 54, "NETWORK", state.wifi.health);
    if state.wifi.ipv4.as_str().unicode_len() == 0 {
        touch_text(cmds, "CONNECTING...", 66, 169, Tone::Text, false);
    } else {
        touch_text(cmds, state.wifi.ipv4.as_str(), 66, 169, Tone::Text, false);
    }
    touch_text(cmds, "QUICK ACTIONS", 8, 224, Tone::Muted, false);
    let ghost start = cmds@;
    let mut index: usize = 0;
    while index < 4
        invariant
            index <= 4,
            grows(old(cmds)@, cmds@, 172, 640),
            marks(cmds@) == with_home_tiles(marks(start), index as nat),
        decreases 4 - index,
    {
        let x: i32 = if index % 2 == 0 {
            8
        } else {
            88
        };
        let y: i32 = if index < 2 {
            252
        } else {
            368
        };
        let (label, t) = if index == 0 {
            ("RECORD", Tone::Bad)
        } else if index == 1 {
            ("FILES", Tone::Accent)
        } else if index == 2 {
            ("LIVE", Tone::Good)
        } else {
            ("SETTINGS", Tone::Warn)
        };
        touch_fill(cmds, x, y, 76, 100, Tone::Surface);
        touch_fill(cmds, x, y, 76, 5, t);
        touch_text(cmds, label, x + 8, y + 42, Tone::Text, false);
        touch_text(cmds, "TAP", x + 8, y + 68, Tone::Muted, false);
        index = index + 1;
    }
    touch_text(cmds, "Tap an action to open", 20, 500, Tone::Muted, false);
}

/// The launcher labels.
pub open spec fn touch_menu_label(index: int) -> Seq<char> {
    crate::rlcd::spec_menu_label(index)
}

fn menu_label(index: usize) -> (r: &'static str)
    ensures
        r@ == touch_menu_label(index as int),
{
    match index {
        0 => "RECORD",
        1 => "FILES",
        2 => "LIVE AUDIO",
        3 => "DIAGNOSTICS",
        _ => "SETTINGS",
    }
}

/// `m` followed by launcher row `i`, in the accent color when selected.
pub open spec fn with_touch_menu_row(m: Seq<Mark<Rgb565>>, i: int, selected: bool) -> Seq<Mark<Rgb565>> {
    m.push(
        toned_fill(
            8,
            70 + 88 * i,
            156,
            72,
            if selected {
                Tone::Accent
            } else {
                Tone::Surface
            },
        ),
    ).push(toned_text(20, 70 + 88 * i + 18, touch_menu_label(i), Tone::Text, true)).push(
        toned_text(20, 70 + 88 * i + 44, "TAP TO OPEN"@, Tone::Muted, false),
    ).push(toned_text(145, 70 + 88 * i + 25, ">"@, Tone::Text, false))
}

/// `m` followed by the first `n` launcher rows.
pub open spec fn with_touch_menu_rows(m: Seq<Mark<Rgb565>>, menu_index: u8, n: nat) -> Seq<
    Mark<Rgb565>,
>
    decreases n,
{
    if n == 0 {
        m
    } else {
        with_touch_menu_row(
            with_touch_menu_rows(m, menu_index, (n - 1) as nat),
            n - 1,
            n - 1 == menu_index,
        )
    }
}

/// The launcher: five 156x72 rows, the selected one in the accent color.
fn touch_menu(cmds: &mut Vec<DrawCmd<Rgb565>>, menu_index: u8)
    ensures
        grows(old(cmds)@, final(cmds)@, 172, 640),
        marks(final(cmds)@) == with_touch_menu_rows(marks(old(cmds)@), menu_index, 5),
{
    let ghost start = old(cmds)@;
    let mut index: usize = 0;
    while index < 5
        invariant
            index <= 5,
            grows(start, cmds@, 172, 640),
            marks(cmds@) == with_touch_menu_rows(marks(start), menu_index, index as nat),
        decreases 5 - index,
    {
        let y: i32 = 70 + index as i32 * 88;
        touch_fill(cmds, 8, y, 156, 72, if menu_index as usize == index {
            Tone::Accent
        } else {
            Tone::Surface
        });
        touch_text(cmds, menu_label(index), 20, y + 18, Tone::Text, true);
        touch_text(cmds, "TAP TO OPEN", 20, y + 44, Tone::Muted, false);
        touch_text(cmds, ">", 145, y + 25, Tone::Text, false);
        index = index + 1;
    }
}

/// The settings row labels.
pub open spec fn touch_settings_label(index: int) -> Seq<char> {
    if index == 0 {
        "BRIGHTNESS"@
    } else if index == 1 {
        "REFRESH MODE"@
    } else if index == 2 {
        "REDRAW SCREEN"@
    } else {
        "AUDIO DIAGNOSTICS"@
    }
}

/// The backlight level shown: never below the 20% floor.
pub open spec fn shown_brightness(b: u8) -> int {
    if b < 20 {
        20
    } else {
        b as int
    }
}

/// The backlight level shown and reported.
pub fn visible_brightness(b: u8) -> (r: u8)
    ensures
        r == shown_brightness(b),
{
    if b < 20 {
        20
    } else {
        b
    }
}

/// The value shown on settings row `i`.
pub open spec fn touch_settings_value(i: int, brightness: u8) -> Seq<char> {
    if i == 0 {
        decimal(shown_brightness(brightness) as nat) + seq!['%']
    } else if i == 1 {
        "MAX / ON DEMAND"@
    } else if i == 2 {
        "TAP TO RUN"@
    } else {
        "TAP TO OPEN"@
    }
}

/// `m` followed by settings row `i`: its surface, label, value and arrow.
pub open spec fn with_touch_settings_row(m: Seq<Mark<Rgb565>>, i: int, brightness: u8) -> Seq<
    Mark<Rgb565>,
> {
    m.push(toned_fill(8, 72 + 96 * i, 156, 80, Tone::Surface)).push(
        toned_text(16, 72 + 96 * i + 14, touch_settings_label(i), Tone::Muted, false),
    ).push(toned_text(16, 72 + 96 * i + 40, touch_settings_value(i, brightness), Tone::Text, true)).push(
        toned_text(146, 72 + 96 * i + 42, ">"@, Tone::Muted, false),
    )
}

/// `m` followed by the first `n` settings rows.
pub open spec fn with_touch_settings_rows(m: Seq<Mark<Rgb565>>, brightness: u8, n: nat) -> Seq<
    Mark<Rgb565>,
>
    decreases n,
{
    if n == 0 {
        m
    } else {
        with_touch_settings_row(
            with_touch_settings_rows(m, brightness, (n - 1) as nat),
            n - 1,
            brightness,
        )
    }
}

/// `m` followed by the settings view: four rows and a hint.
pub open spec fn with_touch_settings(m: Seq<Mark<Rgb565>>, brightness: u8) -> Seq<Mark<Rgb565>> {
    with_touch_settings_rows(m, brightness, 4).push(
        toned_text(17, 486, "Tap a row to change it"@, Tone::Muted, false),
    )
}

/// Settings: four 156x80 rows, each a label and its current value.
fn touch_settings(cmds: &mut Vec<DrawCmd<Rgb565>>, brightness: u8)
    ensures
        grows(old(cmds)@, final(cmds)@, 172, 640),
        marks(final(cmds)@) == with_touch_settings(marks(old(cmds)@), brightness),
{
    let ghost start = old(cmds)@;
    let mut index: usize = 0;
    while index < 4
        invariant
            index <= 4,
            grows(start, cmds@, 172, 640),
            marks(cmds@) == with_touch_settings_rows(marks(start), brightness, index as nat),
        decreases 4 - index,
    {
        let y: i32 = 72 + index as i32 * 96;
        let label = if index == 0 {
            "BRIGHTNESS"
        } else if index == 1 {
            "REFRESH MODE"
        } else if index == 2 {
            "REDRAW SCREEN"
        } else {
            "AUDIO DIAGNOSTICS"
        };
        let mut value = String::new();
        if index == 0 {
            push_decimal(&mut value, if brightness < 20 {
                20
            } else {
                brightness as u64
            });
            push_char(&mut value, '%');
        } else if index == 1 {
            push_str(&mut value, "MAX / ON DEMAND");
        } else if index == 2 {
            push_str(&mut value, "TAP TO RUN");
        } else {
            push_str(&mut value, "TAP TO OPEN");
        }
        assert(value@ =~= touch_settings_value(index as int, brightness));
        touch_fill(cmds, 8, y, 156, 80, Tone::Surface);
        touch_text(cmds, label, 16, y + 14, Tone::Muted, false);
        touch_string(cmds, value, 16, y + 40, Tone::Text, true);
        touch_text(cmds, ">", 146, y + 42, Tone::Muted, false);
        index = index + 1;
    }
    touch_text(cmds, "Tap a row to change it", 17, 486, Tone::Muted, false);
}

/// Bar `i` of a level strip on the surface at (x, y), `width` by `height`.
pub open spec fn touch_level_bar(
    audio: AudioTelemetry,
    x: int,
    y: int,
    width: int,
    height: int,
    t: Tone,
    i: int,
) -> Mark<Rgb565> {
    line_mark(
        x + 5 + i * (width - 10) / 71,
        y + height - 7,
        x + 5 + i * (width - 10) / 71,
        y + height - 7 - spec_level_height(audio.history()[i], (height - 18) as u32),
        tone(t),
        2,
    )
}

/// `m` followed by the bars of the `n` oldest retained levels.
pub open spec fn with_touch_level_bars(
    m: Seq<Mark<Rgb565>>,
    audio: AudioTelemetry,
    x: int,
    y: int,
    width: int,
    height: int,
    t: Tone,
    n: nat,
) -> Seq<Mark<Rgb565>>
    decreases n,
{
    if n == 0 {
        m
    } else {
        with_touch_level_bars(m, audio, x, y, width, height, t, (n - 1) as nat).push(
            touch_level_bar(audio, x, y, width, height, t, n - 1),
        )
    }
}

/// `m` followed by the level history on a surface: a baseline seven pixels
/// above the bottom and one two-pixel bar per retained level, oldest on
/// the left, on the strip's fixed scale.
pub open spec fn with_touch_waveform(
    m: Seq<Mark<Rgb565>>,
    audio: AudioTelemetry,
    x: int,
    y: int,
    width: int,
    height: int,
    t: Tone,
) -> Seq<Mark<Rgb565>> {
    with_touch_level_bars(
        m.push(toned_fill(x, y, width, height, Tone::Surface)).push(
            line_mark(x + 5, y + height - 7, x + width - 6, y + height - 7, tone(Tone::SurfaceAlt), 1),
        ),
        audio,
        x,
        y,
        width,
        height,
        t,
        audio.history_len as nat,
    )
}

/// The level history of `audio` on a surface.
fn touch_waveform(
    cmds: &mut Vec<DrawCmd<Rgb565>>,
    audio: &AudioTelemetry,
    x: i32,
    y: i32,
    width: u32,
    height: u32,
    t: Tone,
)
    requires
        0 <= x <= 16,
        x + width <= 172,
        20 <= width,
        24 <= height,
        0 <= y,
        y + height <= 568,
    ensures
        audio.history_len <= 72 ==> grows(old(cmds)@, final(cmds)@, 172, 640),
        marks(final(cmds)@) == with_touch_waveform(
            marks(old(cmds)@),
            *audio,
            x as int,
            y as int,
            width as int,
            height as int,
            t,
        ),
{
    broadcast use marks_push;

    touch_fill(cmds, x, y, width, height, Tone::Surface);
    let baseline = y + height as i32 - 7;
    line_to(
        cmds,
        x + 5,
        baseline,
        x + width as i32 - 6,
        baseline,
        tone_color(Tone::SurfaceAlt),
        1,
        172,
        640,
    );
    let ghost start = cmds@;
    let len = audio.history_len as usize;
    let span: i32 = width as i32 - 10;
    let mut index: usize = 0;
    while index < len
        invariant
            len == audio.history_len,
            index <= len,
            0 <= x <= 16,
            x + width <= 172,
            20 <= width,
            24 <= height,
            0 <= y,
            y + height <= 568,
            span == width - 10,
            baseline == y + height - 7,
            len <= 72 ==> grows(old(cmds)@, cmds@, 172, 640),
            marks(cmds@) == with_touch_level_bars(
                marks(start),
                *audio,
                x as int,
                y as int,
                width as int,
                height as int,
                t,
                index as nat,
            ),
        decreases len - index,
    {
        match audio.history_sample(index) {
            Some(v) => {
                assert(index * span / 71 <= 4 * span) by (nonlinear_arith)
                    requires
                        index < 256,
                        0 <= span,
                ;
                assert(index < 72 ==> index * span / 71 <= span) by (nonlinear_arith)
                    requires
                        0 <= span,
                ;
                assert(index * span / 71 >= 0) by (nonlinear_arith)
                    requires
                        index < 256,
                        0 <= span,
                ;
                let px: i32 = x + 5 + (index as i32) * span / 71;
                let level = level_height(v, height - 18) as i32;
                if index < 72 {
                    line_to(cmds, px, baseline, px, baseline - level, tone_color(t), 2, 172, 640);
                } else {
                    // Levels past the ring's 72 fall right of the strip; the
                    // painter clips what leaves the panel.
                    cmds.push(
                        DrawCmd::Line {
                            x0: px,
                            y0: baseline,
                            x1: px,
                            y1: baseline - level,
                            color: tone_color(t),
                            stroke: 2,
                        },
                    );
                }
            },
            None => {},
        }
        index = index + 1;
    }
}

/// The recorder's status line.
pub open spec fn recorder_status(
    recording: bool,
    playing: bool,
    mounted: bool,
    mic: Health,
) -> (Seq<char>, Tone) {
    (
        if recording {
            "RECORDING"@
        } else if playing {
            "PLAYING LAST"@
        } else if !mounted {
            "SD NOT READY"@
        } else if mic != Health::Healthy {
            "MIC NOT READY"@
        } else {
            "READY"@
        },
        if recording {
            Tone::Bad
        } else if !mounted || mic != Health::Healthy {
            Tone::Warn
        } else {
            Tone::Good
        },
    )
}

fn recorder_status_of(recording: bool, playing: bool, mounted: bool, mic: Health) -> (r: (
    &'static str,
    Tone,
))
    ensures
        r.0@ == recorder_status(recording, playing, mounted, mic).0,
        r.1 == recorder_status(recording, playing, mounted, mic).1,
{
    let label = if recording {
        "RECORDING"
    } else if playing {
        "PLAYING LAST"
    } else if !mounted {
        "SD NOT READY"
    } else if mic != Health::Healthy {
        "MIC NOT READY"
    } else {
        "READY"
    };
    let t = if recording {
        Tone::Bad
    } else if !mounted || mic != Health::Healthy {
        Tone::Warn
    } else {
        Tone::Good
    };
    (label, t)
}

/// The recorder's detail line: the playback position while playing, else
/// the recording's size.
pub open spec fn recorder_detail(state: DashboardState) -> Seq<char> {
    if state.playing {
        position_text(state.playback_position_ms, state.playback_duration_ms)
    } else {
        decimal((state.recording_bytes / 1024) as nat) + " KiB"@
    }
}

/// `m` followed by the recorder's buttons. While recording, or before any
/// recording exists, one button starts or stops the recorder; otherwise
/// one plays or stops the last recording and one below starts a new one.
pub open spec fn with_recorder_buttons(m: Seq<Mark<Rgb565>>, state: DashboardState) -> Seq<
    Mark<Rgb565>,
> {
    if state.recording || state.last_recording@.len() == 0 {
        with_action(
            m,
            8,
            448,
            if state.recording {
                "STOP"@
            } else {
                "START RECORDING"@
            },
            Tone::Bad,
        )
    } else {
        with_action(
            with_action(
                m,
                8,
                416,
                if state.playing {
                    "STOP PLAYBACK"@
                } else {
                    "PLAY LAST RECORDING"@
                },
                Tone::Accent,
            ),
            8,
            488,
            "START RECORDING"@,
            Tone::Bad,
        )
    }
}

/// `m` followed by the recorder view.
pub open spec fn with_touch_recorder(m: Seq<Mark<Rgb565>>, state: DashboardState) -> Seq<
    Mark<Rgb565>,
> {
    let status = recorder_status(
        state.recording,
        state.playing,
        state.storage.mounted,
        state.audio.health,
    );
    let shown = with_touch_waveform(
        with_pill(m, 8, 70, status.0, status.1),
        if state.playing {
            state.playback_audio
        } else {
            state.audio
        },
        8,
        124,
        156,
        200,
        Tone::Accent,
    ).push(toned_text(13, 338, "24 kHz / stereo / WAV"@, Tone::Muted, false)).push(
        toned_text(13, 364, recorder_detail(state), Tone::Text, true),
    );
    with_recorder_buttons(
        if state.last_recording@.len() > 0 {
            shown.push(toned_text(13, 390, clip(state.last_recording@, 24), Tone::Muted, false))
        } else {
            shown
        },
        state,
    )
}

/// The recorder: status, the levels of what is being recorded or played,
/// the format, the size or playback time, the last file and its buttons.
fn touch_recorder(cmds: &mut Vec<DrawCmd<Rgb565>>, state: &DashboardState)
    ensures
        state.audio.history_len <= 72 && state.playback_audio.history_len <= 72 ==> grows(
            old(cmds)@,
            final(cmds)@,
            172,
            640,
        ),
        marks(final(cmds)@) == with_touch_recorder(marks(old(cmds)@), *state),
{
    let (label, t) = recorder_status_of(
        state.recording,
        state.playing,
        state.storage.mounted,
        state.audio.health,
    );
    touch_status_pill(cmds, 8, 70, label, t);
    if state.playing {
        touch_waveform(cmds, &state.playback_audio, 8, 124, 156, 200, Tone::Accent);
    } else {
        touch_waveform(cmds, &state.audio, 8, 124, 156, 200, Tone::Accent);
    }
    touch_text(cmds, "24 kHz / stereo / WAV", 13, 338, Tone::Muted, false);
    let mut detail = String::new();
    if state.playing {
        push_decimal_zero_padded(&mut detail, state.playback_position_ms / 60_000, 2);
        push_char(&mut detail, ':');
        push_decimal_zero_padded(&mut detail, state.playback_position_ms / 1_000 % 60, 2);
        push_str(&mut detail, " / ");
        push_decimal_zero_padded(&mut detail, state.playback_duration_ms / 60_000, 2);
        push_char(&mut detail, ':');
        push_decimal_zero_padded(&mut detail, state.playback_duration_ms / 1_000 % 60, 2);
    } else {
        push_decimal(&mut detail, state.recording_bytes / 1024);
        push_str(&mut detail, " KiB");
    }
    assert(detail@ =~= recorder_detail(*state));
    touch_string(cmds, detail, 13, 364, Tone::Text, true);
    let has_last = state.last_recording.as_str().unicode_len() > 0;
    if has_last {
        touch_string(cmds, clipped_name(state.last_recording.as_str(), 24), 13, 390, Tone::Muted, false);
    }
    if state.recording || !has_last {
        touch_action(cmds, 8, 448, if state.recording {
            "STOP"
        } else {
            "START RECORDING"
        }, Tone::Bad);
    } else {
        touch_action(cmds, 8, 416, if state.playing {
            "STOP PLAYBACK"
        } else {
            "PLAY LAST RECORDING"
        }, Tone::Accent);
        touch_action(cmds, 8, 488, "START RECORDING", Tone::Bad);
    }
}

/// Why the file list is empty.
pub open spec fn empty_files_status(mounted: bool, health: Health) -> Seq<char> {
    if !mounted {
        "SD NOT MOUNTED"@
    } else if health == Health::Error {
        "SD SCAN ERROR"@
    } else {
        "SD IS EMPTY"@
    }
}

/// How many rows the touch file list shows from `start`: up to six.
pub open spec fn touch_files_rows(count: int, start: int) -> int {
    if start >= count {
        0
    } else if count - start > 6 {
        6
    } else {
        count - start
    }
}

/// `m` followed by touch file-list row `row`, which shows entry
/// `start + row`: its name and its size in KiB.
pub open spec fn with_touch_file_row(
    m: Seq<Mark<Rgb565>>,
    state: DashboardState,
    start: int,
    row: int,
) -> Seq<Mark<Rgb565>> {
    let index = start + row;
    m.push(
        toned_fill(
            8,
            68 + 72 * row,
            156,
            60,
            if index == state.file_index {
                Tone::Accent
            } else {
                Tone::Surface
            },
        ),
    ).push(toned_text(16, 68 + 72 * row + 12, clip(state.files@[index].name@, 18), Tone::Text, false)).push(
        toned_text(
            16,
            68 + 72 * row + 34,
            decimal((state.files@[index].size / 1024) as nat) + " KiB"@,
            Tone::Muted,
            false,
        ),
    )
}

/// `m` followed by the first `n` rows of the touch file list.
pub open spec fn with_touch_file_rows(
    m: Seq<Mark<Rgb565>>,
    state: DashboardState,
    start: int,
    n: nat,
) -> Seq<Mark<Rgb565>>
    decreases n,
{
    if n == 0 {
        m
    } else {
        with_touch_file_row(with_touch_file_rows(m, state, start, (n - 1) as nat), state, start, n - 1)
    }
}

/// `m` followed by the file list: up to six rows starting three above the
/// selection, or the reason it is empty and a rescan button.
pub open spec fn with_touch_files(m: Seq<Mark<Rgb565>>, state: DashboardState) -> Seq<Mark<Rgb565>> {
    if state.files@.len() == 0 {
        with_action(
            m.push(
                toned_text(
                    28,
                    260,
                    empty_files_status(state.storage.mounted, state.storage.health),
                    Tone::Muted,
                    true,
                ),
            ),
            8,
            448,
            "RESCAN SD"@,
            Tone::Accent,
        )
    } else {
        let start = crate::rlcd::files_window_start(state.file_index, 3);
        with_touch_file_rows(m, state, start, touch_files_rows(state.files@.len() as int, start) as nat)
    }
}

/// The file list.
fn touch_files(cmds: &mut Vec<DrawCmd<Rgb565>>, state: &DashboardState)
    ensures
        grows(old(cmds)@, final(cmds)@, 172, 640),
        marks(final(cmds)@) == with_touch_files(marks(old(cmds)@), *state),
{
    let count = state.files.len();
    if count == 0 {
        let status = if !state.storage.mounted {
            "SD NOT MOUNTED"
        } else if state.storage.health == Health::Error {
            "SD SCAN ERROR"
        } else {
            "SD IS EMPTY"
        };
        touch_text(cmds, status, 28, 260, Tone::Muted, true);
        touch_action(cmds, 8, 448, "RESCAN SD", Tone::Accent);
        return ;
    }
    let start = state.file_index.saturating_sub(3);
    let ghost begin = old(cmds)@;
    let mut row: usize = 0;
    while row < 6 && start < count && row < count - start
        invariant
            row <= 6,
            count == state.files@.len(),
            start == crate::rlcd::files_window_start(state.file_index, 3),
            row <= touch_files_rows(count as int, start as int),
            grows(begin, cmds@, 172, 640),
            marks(cmds@) == with_touch_file_rows(marks(begin), *state, start as int, row as nat),
        decreases 6 - row,
    {
        let index = start + row;
        let y: i32 = 68 + row as i32 * 72;
        touch_fill(cmds, 8, y, 156, 60, if index == state.file_index {
            Tone::Accent
        } else {
            Tone::Surface
        });
        let entry = &state.files[index];
        touch_string(cmds, clipped_name(entry.name.as_str(), 18), 16, y + 12, Tone::Text, false);
        let mut size = String::new();
        push_decimal(&mut size, entry.size / 1024);
        push_str(&mut size, " KiB");
        assert(size@ =~= decimal((entry.size / 1024) as nat) + " KiB"@);
        touch_string(cmds, size, 16, y + 34, Tone::Muted, false);
        row = row + 1;
    }
}

/// `m` followed by the player view: state, name, levels, progress, volume
/// and the play/pause button.
pub open spec fn with_touch_player(m: Seq<Mark<Rgb565>>, state: DashboardState) -> Seq<Mark<Rgb565>> {
    with_action(
        with_touch_waveform(
            with_pill(
                m,
                8,
                70,
                if state.playing {
                    "PLAYING"@
                } else {
                    "PAUSED"@
                },
                if state.playing {
                    Tone::Good
                } else {
                    Tone::Warn
                },
            ).push(toned_text(10, 118, clip(state.playback_name@, 20), Tone::Text, true)),
            state.playback_audio,
            8,
            160,
            156,
            190,
            Tone::Accent,
        ).push(toned_fill(12, 374, 148, 10, Tone::SurfaceAlt)).push(
            toned_fill(
                12,
                374,
                crate::rlcd::spec_progress_width(
                    148,
                    state.playback_position_ms,
                    state.playback_duration_ms,
                ),
                10,
                Tone::Accent,
            ),
        ).push(
            toned_text(
                12,
                406,
                "VOLUME "@ + decimal(state.speaker_volume as nat) + seq!['%'],
                Tone::Muted,
                false,
            ),
        ),
        8,
        458,
        if state.playing {
            "PAUSE"@
        } else {
            "PLAY"@
        },
        Tone::Accent,
    )
}

/// The player.
fn touch_player(cmds: &mut Vec<DrawCmd<Rgb565>>, state: &DashboardState)
    requires
        148 * state.playback_position_ms <= u64::MAX,
    ensures
        state.playback_audio.history_len <= 72 ==> grows(old(cmds)@, final(cmds)@, 172, 640),
        marks(final(cmds)@) == with_touch_player(marks(old(cmds)@), *state),
{
    touch_status_pill(cmds, 8, 70, if state.playing {
        "PLAYING"
    } else {
        "PAUSED"
    }, if state.playing {
        Tone::Good
    } else {
        Tone::Warn
    });
    touch_string(cmds, clipped_name(state.playback_name.as_str(), 20), 10, 118, Tone::Text, true);
    touch_waveform(cmds, &state.playback_audio, 8, 160, 156, 190, Tone::Accent);
    let progress = crate::rlcd::progress_width(
        148,
        state.playback_position_ms,
        state.playback_duration_ms,
    );
    touch_fill(cmds, 12, 374, 148, 10, Tone::SurfaceAlt);
    touch_fill(cmds, 12, 374, progress as u32, 10, Tone::Accent);
    let mut volume = String::new();
    push_str(&mut volume, "VOLUME ");
    push_decimal(&mut volume, state.speaker_volume as u64);
    push_char(&mut volume, '%');
    assert(volume@ =~= "VOLUME "@ + decimal(state.speaker_volume as nat) + seq!['%']);
    touch_string(cmds, volume, 12, 406, Tone::Muted, false);
    touch_action(cmds, 8, 458, if state.playing {
        "PAUSE"
    } else {
        "PLAY"
    }, Tone::Accent);
}

/// How many preview lines the touch viewer shows: up to 18.
pub open spec fn touch_preview_rows(state: DashboardState) -> int {
    if lines_of(state.viewer_preview@).len() < 18 {
        lines_of(state.viewer_preview@).len() as int
    } else {
        18
    }
}

/// `m` followed by the first `n` preview lines, each clipped to 23
/// columns, twenty pixels apart.
pub open spec fn with_touch_preview_rows(m: Seq<Mark<Rgb565>>, preview: Seq<char>, n: nat) -> Seq<
    Mark<Rgb565>,
>
    decreases n,
{
    if n == 0 {
        m
    } else {
        with_touch_preview_rows(m, preview, (n - 1) as nat).push(
            toned_text(13, 140 + 20 * (n - 1), clip(lines_of(preview)[n - 1], 23), Tone::Text, false),
        )
    }
}

/// `m` followed by the viewer: name, size and offset, then the preview on
/// a surface.
pub open spec fn with_touch_viewer(m: Seq<Mark<Rgb565>>, state: DashboardState) -> Seq<Mark<Rgb565>> {
    with_touch_preview_rows(
        m.push(toned_text(10, 72, clip(state.viewer_name@, 20), Tone::Text, true)).push(
            toned_text(
                10,
                98,
                decimal(state.viewer_size as nat) + " B  @"@ + decimal(state.viewer_offset as nat),
                Tone::Muted,
                false,
            ),
        ).push(toned_fill(8, 130, 156, 390, Tone::Surface)),
        state.viewer_preview@,
        touch_preview_rows(state) as nat,
    )
}

/// The viewer.
fn touch_viewer(cmds: &mut Vec<DrawCmd<Rgb565>>, state: &DashboardState)
    ensures
        grows(old(cmds)@, final(cmds)@, 172, 640),
        marks(final(cmds)@) == with_touch_viewer(marks(old(cmds)@), *state),
{
    touch_string(cmds, clipped_name(state.viewer_name.as_str(), 20), 10, 72, Tone::Text, true);
    let mut info = String::new();
    push_decimal(&mut info, state.viewer_size);
    push_str(&mut info, " B  @");
    push_decimal(&mut info, state.viewer_offset);
    assert(info@ =~= decimal(state.viewer_size as nat) + " B  @"@ + decimal(state.viewer_offset as nat));
    touch_string(cmds, info, 10, 98, Tone::Muted, false);
    touch_fill(cmds, 8, 130, 156, 390, Tone::Surface);
    let rows = text_lines(state.viewer_preview.as_str(), 18);
    let ghost begin = cmds@;
    let mut index: usize = 0;
    while index < rows.len()
        invariant
            rows@.len() == touch_preview_rows(*state),
            rows@.len() <= 18,
            forall|i: int| 0 <= i < rows@.len() ==> #[trigger] rows@[i]@ == lines_of(
                state.viewer_preview@,
            )[i],
            index <= rows@.len(),
            grows(old(cmds)@, cmds@, 172, 640),
            marks(cmds@) == with_touch_preview_rows(marks(begin), state.viewer_preview@, index as nat),
        decreases rows@.len() - index,
    {
        touch_string(
            cmds,
            clipped_name(rows[index].as_str(), 23),
            13,
            140 + index as i32 * 20,
            Tone::Text,
            false,
        );
        index = index + 1;
    }
}

/// `m` followed by live levels, or a notice when the microphone is not
/// ready; both end with the button that opens the recorder.
pub open spec fn with_touch_live(m: Seq<Mark<Rgb565>>, state: DashboardState) -> Seq<Mark<Rgb565>> {
    with_action(
        if state.audio.health != Health::Healthy {
            m.push(toned_text(30, 260, "MIC NOT READY"@, Tone::Warn, true))
        } else {
            with_touch_waveform(m, state.audio, 8, 72, 156, 330, Tone::Accent).push(
                toned_text(12, 426, "RMS "@ + decimal(state.audio.rms as nat), Tone::Text, true),
            ).push(toned_text(12, 458, "PEAK "@ + decimal(state.audio.peak as nat), Tone::Muted, false))
        },
        8,
        508,
        "OPEN RECORDER"@,
        Tone::Bad,
    )
}

/// Live levels.
fn touch_live(cmds: &mut Vec<DrawCmd<Rgb565>>, state: &DashboardState)
    ensures
        state.audio.history_len <= 72 ==> grows(old(cmds)@, final(cmds)@, 172, 640),
        marks(final(cmds)@) == with_touch_live(marks(old(cmds)@), *state),
{
    if state.audio.health != Health::Healthy {
        touch_text(cmds, "MIC NOT READY", 30, 260, Tone::Warn, true);
        touch_action(cmds, 8, 508, "OPEN RECORDER", Tone::Bad);
        return ;
    }
    touch_waveform(cmds, &state.audio, 8, 72, 156, 330, Tone::Accent);
    let mut rms = String::new();
    push_str(&mut rms, "RMS ");
    push_decimal(&mut rms, state.audio.rms as u64);
    assert(rms@ =~= "RMS "@ + decimal(state.audio.rms as nat));
    touch_string(cmds, rms, 12, 426, Tone::Text, true);
    let mut peak = String::new();
    push_str(&mut peak, "PEAK ");
    push_decimal(&mut peak, state.audio.peak as u64);
    assert(peak@ =~= "PEAK "@ + decimal(state.audio.peak as nat));
    touch_string(cmds, peak, 12, 458, Tone::Muted, false);
    touch_action(cmds, 8, 508, "OPEN RECORDER", Tone::Bad);
}

/// The speaker-test button for each test state.
pub open spec fn speaker_button(s: SpeakerTestState) -> (Seq<char>, Tone) {
    match s {
        SpeakerTestState::Idle => ("PLAY SPEAKER TEST"@, Tone::Accent),
        SpeakerTestState::Running => ("PLAYING BEEPS"@, Tone::Warn),
        SpeakerTestState::PassedToCodec => ("SIGNAL SENT - TEST AGAIN"@, Tone::Good),
        SpeakerTestState::Error => ("SPEAKER ERROR - RETRY"@, Tone::Bad),
    }
}

fn speaker_button_of(s: SpeakerTestState) -> (r: (&'static str, Tone))
    ensures
        r.0@ == speaker_button(s).0,
        r.1 == speaker_button(s).1,
{
    match s {
        SpeakerTestState::Idle => ("PLAY SPEAKER TEST", Tone::Accent),
        SpeakerTestState::Running => ("PLAYING BEEPS", Tone::Warn),
        SpeakerTestState::PassedToCodec => ("SIGNAL SENT - TEST AGAIN", Tone::Good),
        SpeakerTestState::Error => ("SPEAKER ERROR - RETRY", Tone::Bad),
    }
}

/// `m` followed by diagnostics: four health cards, memory and timing, and
/// the speaker test button.
pub open spec fn with_touch_diagnostics(m: Seq<Mark<Rgb565>>, state: DashboardState) -> Seq<
    Mark<Rgb565>,
> {
    with_action(
        with_card(
            with_card(
                with_card(
                    with_card(m, 8, 68, 156, 60, "NETWORK"@, state.wifi.health),
                    8,
                    140,
                    156,
                    60,
                    "AUDIO"@,
                    state.audio.health,
                ),
                8,
                212,
                156,
                60,
                "STORAGE"@,
                state.storage.health,
            ),
            8,
            284,
            156,
            60,
            "BATTERY"@,
            state.battery.health,
        ).push(
            toned_text(
                12,
                374,
                "HEAP "@ + decimal((state.runtime.free_heap / 1024) as nat) + seq!['K'],
                Tone::Text,
                false,
            ),
        ).push(
            toned_text(
                12,
                398,
                "PSRAM "@ + decimal((state.runtime.free_psram / 1024) as nat) + seq!['K'],
                Tone::Text,
                false,
            ),
        ).push(
            toned_text(
                12,
                422,
                "LOOP "@ + decimal(state.runtime.loop_hz as nat) + "Hz"@,
                Tone::Text,
                false,
            ),
        ).push(
            toned_text(
                12,
                444,
                "LCD "@ + decimal(state.runtime.display_flush_ms as nat) + "ms"@,
                Tone::Text,
                false,
            ),
        ).push(toned_text(12, 466, "EXTERNAL SPEAKER REQUIRED"@, Tone::Warn, false)),
        8,
        488,
        speaker_button(state.speaker_test_state).0,
        speaker_button(state.speaker_test_state).1,
    )
}

/// Diagnostics.
fn touch_diagnostics(cmds: &mut Vec<DrawCmd<Rgb565>>, state: &DashboardState)
    ensures
        grows(old(cmds)@, final(cmds)@, 172, 640),
        marks(final(cmds)@) == with_touch_diagnostics(marks(old(cmds)@), *state),
{
    touch_card(cmds, 8, 68, 156, 60, "NETWORK", state.wifi.health);
    touch_card(cmds, 8, 140, 156, 60, "AUDIO", state.audio.health);
    touch_card(cmds, 8, 212, 156, 60, "STORAGE", state.storage.health);
    touch_card(cmds, 8, 284, 156, 60, "BATTERY", state.battery.health);
    let mut heap = String::new();
    push_str(&mut heap, "HEAP ");
    push_decimal(&mut heap, (state.runtime.free_heap / 1024) as u64);
    push_char(&mut heap, 'K');
    assert(heap@ =~= "HEAP "@ + decimal((state.runtime.free_heap / 1024) as nat) + seq!['K']);
    touch_string(cmds, heap, 12, 374, Tone::Text, false);
    let mut psram = String::new();
    push_str(&mut psram, "PSRAM ");
    push_decimal(&mut psram, (state.runtime.free_psram / 1024) as u64);
    push_char(&mut psram, 'K');
    assert(psram@ =~= "PSRAM "@ + decimal((state.runtime.free_psram / 1024) as nat) + seq!['K']);
    touch_string(cmds, psram, 12, 398, Tone::Text, false);
    let mut hz = String::new();
    push_str(&mut hz, "LOOP ");
    push_decimal(&mut hz, state.runtime.loop_hz as u64);
    push_str(&mut hz, "Hz");
    assert(hz@ =~= "LOOP "@ + decimal(state.runtime.loop_hz as nat) + "Hz"@);
    touch_string(cmds, hz, 12, 422, Tone::Text, false);
    let mut lcd = String::new();
    push_str(&mut lcd, "LCD ");
    push_decimal(&mut lcd, state.runtime.display_flush_ms as u64);
    push_str(&mut lcd, "ms");
    assert(lcd@ =~= "LCD "@ + decimal(state.runtime.display_flush_ms as nat) + "ms"@);
    touch_string(cmds, lcd, 12, 444, Tone::Text, false);
    touch_text(cmds, "EXTERNAL SPEAKER REQUIRED", 12, 466, Tone::Warn, false);
    let (label, t) = speaker_button_of(state.speaker_test_state);
    touch_action(cmds, 8, 488, label, t);
}

/// `m` followed by the body of `state.view`.
pub open spec fn with_touch_view(m: Seq<Mark<Rgb565>>, state: DashboardState) -> Seq<Mark<Rgb565>> {
    match state.view {
        View::Home => with_touch_home(m, state),
        View::Menu => with_touch_menu_rows(m, state.menu_index, 5),
        View::Recorder => with_touch_recorder(m, state),
        View::Files => with_touch_files(m, state),
        View::Player => with_touch_player(m, state),
        View::Viewer => with_touch_viewer(m, state),
        View::Live => with_touch_live(m, state),
        View::Diagnostics => with_touch_diagnostics(m, state),
        View::Settings => with_touch_settings(m, state.display_brightness),
    }
}

/// What the touch dashboard shows for `state`, first primitive first: the
/// panel cleared to the background, the header, the view, then the bottom
/// bar.
pub open spec fn touch_marks(state: DashboardState) -> Seq<Mark<Rgb565>> {
    with_nav(
        with_touch_view(with_header(seq![Mark::Clear(tone(Tone::Background))], state), state),
        state.view,
    )
}

/// The whole touch dashboard for `state`, first primitive first. Every
/// primitive lies on the 172x640 panel while both level histories hold at
/// most the ring's 72 levels; bars of levels past that fall to the right
/// of the panel, where painting clips them.
pub fn render_touch349_dashboard(state: &DashboardState) -> (cmds: Vec<DrawCmd<Rgb565>>)
    requires
        state.view == View::Player ==> 148 * state.playback_position_ms <= u64::MAX,
    ensures
        state.audio.history_len <= 72 && state.playback_audio.history_len <= 72
            ==> on_touch_panel(cmds@),
        marks(cmds@) == touch_marks(*state),
{
    broadcast use marks_push;

    let mut cmds: Vec<DrawCmd<Rgb565>> = Vec::new();
    cmds.push(DrawCmd::Clear(tone_color(Tone::Background)));
    assert(on_touch_panel(cmds@));
    assert(marks(cmds@) =~= seq![Mark::Clear(tone(Tone::Background))]);
    touch_header(&mut cmds, state);
    match state.view {
        View::Home => touch_home(&mut cmds, state),
        View::Menu => touch_menu(&mut cmds, state.menu_index),
        View::Recorder => touch_recorder(&mut cmds, state),
        View::Files => touch_files(&mut cmds, state),
        View::Player => touch_player(&mut cmds, state),
        View::Viewer => touch_viewer(&mut cmds, state),
        View::Live => touch_live(&mut cmds, state),
        View::Diagnostics => touch_diagnostics(&mut cmds, state),
        View::Settings => touch_settings(&mut cmds, state.display_brightness),
    }
    touch_nav(&mut cmds, state.view);
    cmds
}

/// The point (x, y) lies in the rectangle at (x0, y0) of size w x h.
pub open spec fn inside(x: u16, y: u16, x0: int, y0: int, w: int, h: int) -> bool {
    x0 <= x < x0 + w && y0 <= y < y0 + h
}

/// What the tap table does anywhere inside each control's rectangle.
proof fn tap_outcomes(
    n: Navigation,
    brightness: u8,
    recording: bool,
    has_last: bool,
    files_len: nat,
    x: u16,
    y: u16,
)
    ensures
        ({
            let r = touch_navigation(n, brightness, recording, has_last, files_len, x, y);
            &&& inside(x, y, 4, 576, 80, 56) ==> r.0.view == View::Home
            &&& inside(x, y, 88, 576, 80, 56) ==> r.0.view == back_view(n.view)
            &&& n.view == View::Home ==> forall|i: int|
                0 <= i < 4 && inside(
                    x,
                    y,
                    #[trigger] home_tile_origin(i).0,
                    home_tile_origin(i).1,
                    76,
                    100,
                ) ==> r.0.view == home_tile_view(i)
            &&& n.view == View::Menu ==> forall|i: int|
                0 <= i < 5 && #[trigger] inside(x, y, 8, 70 + 88 * i, 156, 72) ==> r.0.view
                    == menu_view(i)
            &&& n.view == View::Settings && inside(x, y, 8, 72, 156, 80) ==> r.1 == next_brightness(
                brightness,
            ) && r.2
            &&& n.view == View::Settings && (inside(x, y, 8, 168, 156, 80) || inside(
                x,
                y,
                8,
                264,
                156,
                80,
            )) ==> r.0.action == Some(UiAction::RefreshDisplay)
            &&& n.view == View::Settings && inside(x, y, 8, 360, 156, 80) ==> r.0.view
                == View::Diagnostics
            &&& n.view == View::Recorder && (recording || !has_last) && inside(
                x,
                y,
                8,
                448,
                156,
                56,
            ) ==> r.0.action == Some(UiAction::ToggleRecording)
            &&& n.view == View::Recorder && !recording && has_last && inside(x, y, 8, 416, 156, 56)
                ==> r.0.action == Some(UiAction::ToggleLastRecording)
            &&& n.view == View::Recorder && !recording && has_last && inside(x, y, 8, 488, 156, 56)
                ==> r.0.action == Some(UiAction::ToggleRecording)
            &&& n.view == View::Files && files_len == 0 && inside(x, y, 8, 448, 156, 56) ==> r.0.action
                == Some(UiAction::RefreshFiles)
            &&& n.view == View::Player && inside(x, y, 8, 458, 156, 56) ==> r.0.action == Some(
                UiAction::TogglePlayback,
            )
            &&& n.view == View::Diagnostics && inside(x, y, 8, 488, 156, 56) ==> r.0.action == Some(
                UiAction::SpeakerTest,
            )
            &&& n.view == View::Live && inside(x, y, 8, 508, 156, 56) ==> r.0.view == View::Recorder
        }),
{
    let r = touch_navigation(n, brightness, recording, has_last, files_len, x, y);
    if n.view == View::Menu {
        assert forall|i: int|
            0 <= i < 5 && #[trigger] inside(x, y, 8, 70 + 88 * i, 156, 72) implies r.0.view
                == menu_view(i) by {
            assert((y - 68) / 88 == i);
        }
    }
    if n.view == View::Settings {
        if inside(x, y, 8, 168, 156, 80) {
            assert((y - 72) / 96 == 1);
        }
        if inside(x, y, 8, 264, 156, 80) {
            assert((y - 72) / 96 == 2);
        }
        if inside(x, y, 8, 360, 156, 80) {
            assert((y - 72) / 96 == 3);
        }
        if inside(x, y, 8, 72, 156, 80) {
            assert((y - 72) / 96 == 0);
        }
    }
}

/// The home tiles from `m` on: four marks per tile, its surface first and
/// its label third.
proof fn home_tiles_layout(m: Seq<Mark<Rgb565>>, n: nat)
    requires
        n <= 4,
    ensures
        with_home_tiles(m, n).len() == m.len() + 4 * n,
        forall|k: int| 0 <= k < m.len() ==> #[trigger] with_home_tiles(m, n)[k] == m[k],
        forall|i: int|
            0 <= i < n ==> #[trigger] with_home_tiles(m, n)[m.len() + 4 * i] == toned_fill(
                home_tile_origin(i).0,
                home_tile_origin(i).1,
                76,
                100,
                Tone::Surface,
            ) && with_home_tiles(m, n)[m.len() + 4 * i + 2] == toned_text(
                home_tile_origin(i).0 + 8,
                home_tile_origin(i).1 + 42,
                home_tile_label(i),
                Tone::Text,
                false,
            ),
    decreases n,
{
    if n > 0 {
        home_tiles_layout(m, (n - 1) as nat);
    }
}

/// The launcher rows from `m` on: four marks per row, its block first and
/// its label second.
proof fn menu_rows_layout(m: Seq<Mark<Rgb565>>, menu_index: u8, n: nat)
    requires
        n <= 5,
    ensures
        with_touch_menu_rows(m, menu_index, n).len() == m.len() + 4 * n,
        forall|k: int| 0 <= k < m.len() ==> #[trigger] with_touch_menu_rows(m, menu_index, n)[k] == m[k],
        forall|i: int|
            0 <= i < n ==> #[trigger] with_touch_menu_rows(m, menu_index, n)[m.len() + 4 * i]
                == toned_fill(
                8,
                70 + 88 * i,
                156,
                72,
                if i == menu_index {
                    Tone::Accent
                } else {
                    Tone::Surface
                },
            ) && with_touch_menu_rows(m, menu_index, n)[m.len() + 4 * i + 1] == toned_text(
                20,
                70 + 88 * i + 18,
                touch_menu_label(i),
                Tone::Text,
                true,
            ),
    decreases n,
{
    if n > 0 {
        menu_rows_layout(m, menu_index, (n - 1) as nat);
    }
}

/// The settings rows from `m` on: four marks per row, its surface first
/// and its label second.
proof fn settings_rows_layout(m: Seq<Mark<Rgb565>>, brightness: u8, n: nat)
    requires
        n <= 4,
    ensures
        with_touch_settings_rows(m, brightness, n).len() == m.len() + 4 * n,
        forall|k: int| 0 <= k < m.len() ==> #[trigger] with_touch_settings_rows(m, brightness, n)[k] == m[k],
        forall|i: int|
            0 <= i < n ==> #[trigger] with_touch_settings_rows(m, brightness, n)[m.len() + 4 * i]
                == toned_fill(8, 72 + 96 * i, 156, 80, Tone::Surface) && with_touch_settings_rows(
                m,
                brightness,
                n,
            )[m.len() + 4 * i + 1] == toned_text(
                16,
                72 + 96 * i + 14,
                touch_settings_label(i),
                Tone::Muted,
                false,
            ),
    decreases n,
{
    if n > 0 {
        settings_rows_layout(m, brightness, (n - 1) as nat);
    }
}

/// A button drawn by `touch_action` at height `y` whose block is mark
/// `at`: the 156x56 block in `t`, then its label.
pub open spec fn shows_button(marks: Seq<Mark<Rgb565>>, at: int, y: int, label: Seq<char>, t: Tone) -> bool {
    &&& 0 <= at
    &&& at + 1 < marks.len()
    &&& marks[at] == toned_fill(8, y, 156, 56, t)
    &&& marks[at + 1] == toned_text(22, y + 21, label, Tone::Text, true)
}

/// The hit regions align with the visual targets: every control the touch
/// dashboard draws for `state` is drawn at a rectangle in which a tap
/// anywhere does what its label says. HOME and BACK in the bottom bar, the
/// four home tiles, the five launcher rows, the settings rows, and the
/// full-width buttons of the recorder (which ones depends on whether a
/// recording runs or a last one exists), the empty file list, the player,
/// the live view and diagnostics.
pub proof fn drawn_controls_answer_taps(state: DashboardState, x: u16, y: u16)
    ensures
        ({
            let marks = touch_marks(state);
            let len = marks.len() as int;
            let r = touch_navigation(
                state.navigation(),
                state.display_brightness,
                state.recording,
                state.last_recording@.len() > 0,
                state.files@.len(),
                x,
                y,
            );
            let view = state.view;
            &&& marks[len - 4] == toned_fill(
                4,
                576,
                80,
                56,
                if view == View::Home {
                    Tone::Accent
                } else {
                    Tone::SurfaceAlt
                },
            ) && marks[len - 3] == toned_text(24, 597, "HOME"@, Tone::Text, true)
            &&& inside(x, y, 4, 576, 80, 56) ==> r.0.view == View::Home
            &&& marks[len - 2] == toned_fill(88, 576, 80, 56, Tone::SurfaceAlt) && marks[len - 1]
                == toned_text(108, 597, "BACK"@, Tone::Text, true)
            &&& inside(x, y, 88, 576, 80, 56) ==> r.0.view == back_view(view)
            &&& view == View::Home ==> forall|i: int|
                0 <= i < 4 ==> #[trigger] marks[14 + 4 * i] == toned_fill(
                    home_tile_origin(i).0,
                    home_tile_origin(i).1,
                    76,
                    100,
                    Tone::Surface,
                ) && marks[14 + 4 * i + 2] == toned_text(
                    home_tile_origin(i).0 + 8,
                    home_tile_origin(i).1 + 42,
                    home_tile_label(i),
                    Tone::Text,
                    false,
                ) && (inside(x, y, home_tile_origin(i).0, home_tile_origin(i).1, 76, 100)
                    ==> r.0.view == home_tile_view(i))
            &&& view == View::Menu ==> forall|i: int|
                0 <= i < 5 ==> #[trigger] marks[7 + 4 * i] == toned_fill(
                    8,
                    70 + 88 * i,
                    156,
                    72,
                    if i == state.menu_index {
                        Tone::Accent
                    } else {
                        Tone::Surface
                    },
                ) && marks[7 + 4 * i + 1] == toned_text(
                    20,
                    70 + 88 * i + 18,
                    touch_menu_label(i),
                    Tone::Text,
                    true,
                ) && (inside(x, y, 8, 70 + 88 * i, 156, 72) ==> r.0.view == menu_view(i))
            &&& view == View::Settings ==> forall|i: int|
                0 <= i < 4 ==> #[trigger] marks[7 + 4 * i] == toned_fill(
                    8,
                    72 + 96 * i,
                    156,
                    80,
                    Tone::Surface,
                ) && marks[7 + 4 * i + 1] == toned_text(
                    16,
                    72 + 96 * i + 14,
                    touch_settings_label(i),
                    Tone::Muted,
                    false,
                )
            &&& view == View::Settings && inside(x, y, 8, 72, 156, 80) ==> r.1 == next_brightness(
                state.display_brightness,
            ) && r.2
            &&& view == View::Settings && (inside(x, y, 8, 168, 156, 80) || inside(
                x,
                y,
                8,
                264,
                156,
                80,
            )) ==> r.0.action == Some(UiAction::RefreshDisplay)
            &&& view == View::Settings && inside(x, y, 8, 360, 156, 80) ==> r.0.view
                == View::Diagnostics
            &&& view == View::Recorder && (state.recording || state.last_recording@.len() == 0)
                ==> shows_button(
                marks,
                len - 7,
                448,
                if state.recording {
                    "STOP"@
                } else {
                    "START RECORDING"@
                },
                Tone::Bad,
            ) && (inside(x, y, 8, 448, 156, 56) ==> r.0.action == Some(UiAction::ToggleRecording))
            &&& view == View::Recorder && !(state.recording || state.last_recording@.len() == 0)
                ==> shows_button(
                marks,
                len - 9,
                416,
                if state.playing {
                    "STOP PLAYBACK"@
                } else {
                    "PLAY LAST RECORDING"@
                },
                Tone::Accent,
            ) && (inside(x, y, 8, 416, 156, 56) ==> r.0.action == Some(
                UiAction::ToggleLastRecording,
            )) && shows_button(marks, len - 7, 488, "START RECORDING"@, Tone::Bad) && (inside(
                x,
                y,
                8,
                488,
                156,
                56,
            ) ==> r.0.action == Some(UiAction::ToggleRecording))
            &&& view == View::Files && state.files@.len() == 0 ==> shows_button(
                marks,
                len - 7,
                448,
                "RESCAN SD"@,
                Tone::Accent,
            ) && (inside(x, y, 8, 448, 156, 56) ==> r.0.action == Some(UiAction::RefreshFiles))
            &&& view == View::Player ==> shows_button(
                marks,
                len - 7,
                458,
                if state.playing {
                    "PAUSE"@
                } else {
                    "PLAY"@
                },
                Tone::Accent,
            ) && (inside(x, y, 8, 458, 156, 56) ==> r.0.action == Some(UiAction::TogglePlayback))
            &&& view == View::Diagnostics ==> shows_button(
                marks,
                len - 7,
                488,
                speaker_button(state.speaker_test_state).0,
                speaker_button(state.speaker_test_state).1,
            ) && (inside(x, y, 8, 488, 156, 56) ==> r.0.action == Some(UiAction::SpeakerTest))
            &&& view == View::Live ==> shows_button(
                marks,
                len - 7,
                508,
                "OPEN RECORDER"@,
                Tone::Bad,
            ) && (inside(x, y, 8, 508, 156, 56) ==> r.0.view == View::Recorder)
        }),
{
    tap_outcomes(
        state.navigation(),
        state.display_brightness,
        state.recording,
        state.last_recording@.len() > 0,
        state.files@.len(),
        x,
        y,
    );
    let header = with_header(seq![Mark::Clear(tone(Tone::Background))], state);
    assert(header.len() == 7);
    if state.view == View::Home {
        let before = with_card(
            header.push(toned_text(14, 74, touch_time(state.clock), Tone::Text, true)).push(
                toned_text(17, 112, touch_date(state.clock), Tone::Muted, false),
            ),
            8,
            148,
            156,
            54,
            "NETWORK"@,
            state.wifi.health,
        ).push(
            toned_text(
                66,
                169,
                if state.wifi.ipv4@.len() == 0 {
                    "CONNECTING..."@
                } else {
                    state.wifi.ipv4@
                },
                Tone::Text,
                false,
            ),
        ).push(toned_text(8, 224, "QUICK ACTIONS"@, Tone::Muted, false));
        assert(before.len() == 14);
        home_tiles_layout(before, 4);
    }
    if state.view == View::Menu {
        menu_rows_layout(header, state.menu_index, 5);
    }
    if state.view == View::Settings {
        settings_rows_layout(header, state.display_brightness, 4);
    }
}

/// A tap on a drawn row of the touch file list opens the file that row
/// shows. With `files_len` files listed and the selection at `file_index`,
/// the list shows files from `file_index` minus three (0 at the top); a tap
/// inside row `row`'s rectangle (columns 8..164, rows `68 + 72 * row` to 60
/// pixels below) selects file `start + row`, the last file past the end of
/// the list, and asks for it to be opened. When the row is one the list
/// draws, that is the file drawn in it.
pub proof fn tapped_row_selects_its_file(
    n: crate::dashboard::Navigation,
    brightness: u8,
    recording: bool,
    has_last_recording: bool,
    files_len: nat,
    row: u16,
    x: u16,
    y: u16,
)
    requires
        n.view == crate::dashboard::View::Files,
        0 < files_len <= usize::MAX,
        row < 6,
        8 <= x < 164,
        68 + 72 * row <= y < 68 + 72 * row + 60,
    ensures
        ({
            let start: int = if n.file_index >= 3 {
                n.file_index - 3
            } else {
                0
            };
            let after = crate::dashboard::touch_navigation(
                n,
                brightness,
                recording,
                has_last_recording,
                files_len,
                x,
                y,
            ).0;
            &&& after.file_index == (if start + row < files_len {
                start + row
            } else {
                files_len - 1
            })
            &&& after.action == Some(crate::dashboard::UiAction::OpenSelectedFile)
            &&& after.view == crate::dashboard::View::Files
            &&& start == crate::rlcd::files_window_start(n.file_index, 3)
            &&& row < touch_files_rows(files_len as int, start) ==> after.file_index == start + row
        }),
{
    assert((y - 68) / 72 == row as int);
}

/// A tap on the Files list that lands in no drawn row's rectangle (the gaps
/// between rows, the margins, the header, or below the list, above the
/// bottom bar) changes neither the view nor the selection and asks for
/// nothing.
pub proof fn taps_between_rows_select_nothing(
    n: crate::dashboard::Navigation,
    brightness: u8,
    recording: bool,
    has_last_recording: bool,
    files_len: nat,
    x: u16,
    y: u16,
)
    requires
        n.view == crate::dashboard::View::Files,
        0 < files_len <= usize::MAX,
        y < 568,
        !(8 <= x < 164 && 68 <= y < 500 && (y - 68) % 72 < 60),
    ensures
        ({
            let after = crate::dashboard::touch_navigation(
                n,
                brightness,
                recording,
                has_last_recording,
                files_len,
                x,
                y,
            ).0;
            &&& after.file_index == n.file_index
            &&& after.view == crate::dashboard::View::Files
            &&& after.action is None
        }),
{
}

} // verus!
