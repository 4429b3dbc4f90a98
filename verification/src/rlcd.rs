//! The 300x400 reflective dashboard: each view laid out as a display list
//! of black ink on the white panel.

use vstd::prelude::*;
use vstd::seq_lib::lemma_concat_associative;
use vstd::view::View as _;
use crate::audio::{level_height, spec_level_height};
use crate::dashboard::{DashboardState, View};
use crate::draw::{
    all_on_panel, fill_mark, fill_rect, grows, line_mark, line_to, marks, marks_push,
    outline_mark, outline_rect, pixel_at, text_at, text_mark, DrawCmd, Font, Mark,
};
use crate::graphics::BinaryColor;
use crate::telemetry::{
    health_label, AudioTelemetry, ClockTelemetry, EnvironmentTelemetry, Health, WifiTelemetry,
};
use crate::text::{
    clip, clipped_name, decimal, decimal_string, lines_of, pad_left, pad_right, push_char,
    push_decimal, push_decimal_zero_padded, push_padded_left, push_padded_right, push_str,
    text_lines,
};

verus! {

/// Panel width in pixels.
pub const RLCD_WIDTH: i32 = 300;

/// Panel height in pixels.
pub const RLCD_HEIGHT: i32 = 400;

/// The panel's white background.
pub open spec fn bg() -> BinaryColor {
    BinaryColor::On
}

/// Black ink.
pub open spec fn ink() -> BinaryColor {
    BinaryColor::Off
}

/// The list lies on the reflective panel.
pub open spec fn on_rlcd(cmds: Seq<DrawCmd<BinaryColor>>) -> bool {
    all_on_panel(cmds, 300, 400)
}

/// Three-letter day names, Sunday first.
pub open spec fn spec_weekday_name(day: u8) -> Seq<char> {
    if day == 0 {
        "SUN"@
    } else if day == 1 {
        "MON"@
    } else if day == 2 {
        "TUE"@
    } else if day == 3 {
        "WED"@
    } else if day == 4 {
        "THU"@
    } else if day == 5 {
        "FRI"@
    } else if day == 6 {
        "SAT"@
    } else {
        "---"@
    }
}

/// Name of the day of the week (0 is Sunday); dashes past Saturday.
pub fn weekday_name(day: u8) -> (r: &'static str)
    ensures
        r@ == spec_weekday_name(day),
{
    match day {
        0 => "SUN",
        1 => "MON",
        2 => "TUE",
        3 => "WED",
        4 => "THU",
        5 => "FRI",
        6 => "SAT",
        _ => "---",
    }
}

/// Three-letter month names, January as 1.
pub open spec fn spec_month_name(month: u8) -> Seq<char> {
    if month == 1 {
        "JAN"@
    } else if month == 2 {
        "FEB"@
    } else if month == 3 {
        "MAR"@
    } else if month == 4 {
        "APR"@
    } else if month == 5 {
        "MAY"@
    } else if month == 6 {
        "JUN"@
    } else if month == 7 {
        "JUL"@
    } else if month == 8 {
        "AUG"@
    } else if month == 9 {
        "SEP"@
    } else if month == 10 {
        "OCT"@
    } else if month == 11 {
        "NOV"@
    } else if month == 12 {
        "DEC"@
    } else {
        "---"@
    }
}

/// Name of the month (1 is January); dashes outside 1..=12.
pub fn month_name(month: u8) -> (r: &'static str)
    ensures
        r@ == spec_month_name(month),
{
    match month {
        1 => "JAN",
        2 => "FEB",
        3 => "MAR",
        4 => "APR",
        5 => "MAY",
        6 => "JUN",
        7 => "JUL",
        8 => "AUG",
        9 => "SEP",
        10 => "OCT",
        11 => "NOV",
        12 => "DEC",
        _ => "---",
    }
}

/// What the two hardware keys do in each view.
pub open spec fn spec_footer_labels(view: View) -> (Seq<char>, Seq<char>) {
    match view {
        View::Home => ("KEY HOME"@, "BOOT MENU"@),
        View::Menu => ("KEY BACK"@, "BOOT NEXT/OPEN"@),
        View::Recorder => ("KEY BACK"@, "BOOT REC/PLAY"@),
        View::Files => ("KEY BACK"@, "BOOT NEXT/OPEN"@),
        View::Player => ("KEY BACK"@, "BOOT PLAY/STOP"@),
        View::Viewer => ("KEY BACK"@, "BOOT NEXT/TOP"@),
        View::Live => ("KEY BACK"@, "BOOT HOLD REC"@),
        View::Diagnostics => ("KEY BACK"@, "BOOT MORE/TOP"@),
        View::Settings => ("KEY BACK"@, "BOOT NEXT/SET"@),
    }
}

/// The footer legend for the KEY and BOOT buttons of `view`.
pub fn footer_labels(view: View) -> (r: (&'static str, &'static str))
    ensures
        r.0@ == spec_footer_labels(view).0,
        r.1@ == spec_footer_labels(view).1,
{
    match view {
        View::Home => ("KEY HOME", "BOOT MENU"),
        View::Menu => ("KEY BACK", "BOOT NEXT/OPEN"),
        View::Recorder => ("KEY BACK", "BOOT REC/PLAY"),
        View::Files => ("KEY BACK", "BOOT NEXT/OPEN"),
        View::Player => ("KEY BACK", "BOOT PLAY/STOP"),
        View::Viewer => ("KEY BACK", "BOOT NEXT/TOP"),
        View::Live => ("KEY BACK", "BOOT HOLD REC"),
        View::Diagnostics => ("KEY BACK", "BOOT MORE/TOP"),
        View::Settings => ("KEY BACK", "BOOT NEXT/SET"),
    }
}

/// Number of signal bars lit for a link: none unless it is up, then four
/// from -55 dBm, three from -65, two from -75, else one.
pub open spec fn wifi_bars(rssi: i16, health: Health) -> int {
    if health != Health::Healthy {
        0
    } else if rssi >= -55 {
        4
    } else if rssi >= -65 {
        3
    } else if rssi >= -75 {
        2
    } else {
        1
    }
}

/// A stronger signal never shows fewer bars.
pub proof fn wifi_bars_are_monotonic(a: i16, b: i16, health: Health)
    requires
        a <= b,
    ensures
        wifi_bars(a, health) <= wifi_bars(b, health),
        0 <= wifi_bars(b, health) <= 4,
{
}

/// Width in pixels of the charge bar inside the 30x12 battery outline:
/// 26 pixels at full charge, never less than one.
pub open spec fn battery_fill_width(percent: u8) -> int {
    let p: int = if percent > 100 {
        100
    } else {
        percent as int
    };
    if p * 26 / 100 < 1 {
        1
    } else {
        p * 26 / 100
    }
}

/// The seven-segment pattern of each decimal digit (bit 0 top, then
/// clockwise, bit 6 the middle bar); digits past 9 show 9.
pub open spec fn spec_segment_mask(digit: u8) -> u8 {
    if digit == 0 {
        0x3f
    } else if digit == 1 {
        0x06
    } else if digit == 2 {
        0x5b
    } else if digit == 3 {
        0x4f
    } else if digit == 4 {
        0x66
    } else if digit == 5 {
        0x6d
    } else if digit == 6 {
        0x7d
    } else if digit == 7 {
        0x07
    } else if digit == 8 {
        0x7f
    } else {
        0x6f
    }
}

/// The segments lit for a digit of the large clock.
pub fn segment_mask(digit: u8) -> (m: u8)
    ensures
        m == spec_segment_mask(digit),
{
    match digit {
        0 => 0x3f,
        1 => 0x06,
        2 => 0x5b,
        3 => 0x4f,
        4 => 0x66,
        5 => 0x6d,
        6 => 0x7d,
        7 => 0x07,
        8 => 0x7f,
        _ => 0x6f,
    }
}

/// No two digits light the same segments, so every clock digit reads
/// unambiguously.
pub proof fn segment_masks_are_distinct(a: u8, b: u8)
    requires
        a <= 9,
        b <= 9,
        a != b,
    ensures
        spec_segment_mask(a) != spec_segment_mask(b),
{
}

/// The point lies on the fixed 20% halftone that draws an unlit segment.
pub open spec fn on_halftone(x: int, y: int) -> bool {
    (x + 2 * y) % 5 == 0
}

/// A pixel of ink.
pub open spec fn ink_pixel(x: int, y: int) -> Mark<BinaryColor> {
    Mark::Pixel { x, y, color: ink() }
}

/// A filled rectangle of ink.
pub open spec fn ink_fill(x: int, y: int, width: int, height: int) -> Mark<BinaryColor> {
    Mark::Fill { x, y, width, height, color: ink() }
}

/// The halftone pixels of the first `n` columns of row `y` from `x0`.
pub open spec fn halftone_row(x0: int, y: int, n: nat) -> Seq<Mark<BinaryColor>>
    decreases n,
{
    if n == 0 {
        Seq::empty()
    } else {
        halftone_row(x0, y, (n - 1) as nat) + if on_halftone(x0 + n - 1, y) {
            seq![ink_pixel(x0 + n - 1, y)]
        } else {
            Seq::empty()
        }
    }
}

/// The halftone pixels of the first `n` rows of a `w`-wide box, row by row.
pub open spec fn halftone_rows(x0: int, y0: int, w: nat, n: nat) -> Seq<Mark<BinaryColor>>
    decreases n,
{
    if n == 0 {
        Seq::empty()
    } else {
        halftone_rows(x0, y0, w, (n - 1) as nat) + halftone_row(x0, y0 + n - 1, w)
    }
}

/// One bar of the large clock at (ox, oy), `w` x `h`. Lit, it is two ink
/// rectangles overlapping into a chamfered bar one pixel wider on each
/// long side, then four shoulder pixels; unlit, the halftone of its box.
#[verifier::opaque]
pub open spec fn segment_marks(ox: int, oy: int, w: int, h: int, active: bool) -> Seq<
    Mark<BinaryColor>,
> {
    if active {
        let horizontal = w > h;
        let gx = if horizontal {
            ox
        } else {
            ox - 1
        };
        let gy = if horizontal {
            oy - 1
        } else {
            oy
        };
        let gw = if horizontal {
            w
        } else {
            w + 2
        };
        let gh = if horizontal {
            h + 2
        } else {
            h
        };
        let long = ink_fill(gx + 2, gy, gw - 4, gh);
        let tall = ink_fill(gx, gy + 2, gw, gh - 4);
        (if horizontal {
            seq![long, tall]
        } else {
            seq![tall, long]
        }) + seq![
            ink_pixel(gx + 1, gy + 1),
            ink_pixel(gx + gw - 2, gy + 1),
            ink_pixel(gx + 1, gy + gh - 2),
            ink_pixel(gx + gw - 2, gy + gh - 2),
        ]
    } else {
        halftone_rows(ox, oy, w as nat, h as nat)
    }
}

/// One bar of the large clock.
fn draw_clock_segment(
    cmds: &mut Vec<DrawCmd<BinaryColor>>,
    ox: i32,
    oy: i32,
    width: u32,
    height: u32,
    active: bool,
)
    requires
        1 <= ox,
        1 <= oy,
        4 <= width <= 40,
        4 <= height <= 40,
        ox + width + 1 <= 300,
        oy + height + 1 <= 400,
    ensures
        grows(old(cmds)@, final(cmds)@, 300, 400),
        marks(final(cmds)@) == marks(old(cmds)@) + segment_marks(
            ox as int,
            oy as int,
            width as int,
            height as int,
            active,
        ),
{
    broadcast use marks_push;

    reveal(segment_marks);
    if active {
        let horizontal = width > height;
        let (gx, gy, gw, gh) = if horizontal {
            (ox, oy - 1, width, height + 2)
        } else {
            (ox - 1, oy, width + 2, height)
        };
        if horizontal {
            fill_rect(cmds, gx + 2, gy, gw - 4, gh, BinaryColor::Off, 300, 400);
            fill_rect(cmds, gx, gy + 2, gw, gh - 4, BinaryColor::Off, 300, 400);
        } else {
            fill_rect(cmds, gx, gy + 2, gw, gh - 4, BinaryColor::Off, 300, 400);
            fill_rect(cmds, gx + 2, gy, gw - 4, gh, BinaryColor::Off, 300, 400);
        }
        let right = gx + gw as i32 - 2;
        let bottom = gy + gh as i32 - 2;
        pixel_at(cmds, gx + 1, gy + 1, BinaryColor::Off, 300, 400);
        pixel_at(cmds, right, gy + 1, BinaryColor::Off, 300, 400);
        pixel_at(cmds, gx + 1, bottom, BinaryColor::Off, 300, 400);
        pixel_at(cmds, right, bottom, BinaryColor::Off, 300, 400);
        assert(marks(cmds@) =~= marks(old(cmds)@) + segment_marks(
            ox as int,
            oy as int,
            width as int,
            height as int,
            active,
        ));
        return ;
    }
    let ghost start = old(cmds)@;
    let mut dy: i32 = 0;
    while dy < height as i32
        invariant
            0 <= dy <= height,
            1 <= ox,
            1 <= oy,
            4 <= width <= 40,
            4 <= height <= 40,
            ox + width + 1 <= 300,
            oy + height + 1 <= 400,
            grows(start, cmds@, 300, 400),
            marks(cmds@) == marks(start) + halftone_rows(
                ox as int,
                oy as int,
                width as nat,
                dy as nat,
            ),
        decreases height - dy,
    {
        let ghost row_start = cmds@;
        let mut dx: i32 = 0;
        while dx < width as i32
            invariant
                0 <= dy < height,
                0 <= dx <= width,
                1 <= ox,
                1 <= oy,
                4 <= width <= 40,
                4 <= height <= 40,
                ox + width + 1 <= 300,
                oy + height + 1 <= 400,
                grows(start, cmds@, 300, 400),
                marks(cmds@) == marks(row_start) + halftone_row(
                    ox as int,
                    (oy + dy) as int,
                    dx as nat,
                ),
                marks(row_start) == marks(start) + halftone_rows(
                    ox as int,
                    oy as int,
                    width as nat,
                    dy as nat,
                ),
            decreases width - dx,
        {
            let px = ox + dx;
            let py = oy + dy;
            let ghost before = cmds@;
            let ghost prefix = halftone_row(ox as int, (oy + dy) as int, dx as nat);
            if (px + py * 2) % 5 == 0 {
                pixel_at(cmds, px, py, BinaryColor::Off, 300, 400);
                assert(marks(cmds@) == marks(before).push(ink_pixel(px as int, py as int)));
            }
            dx = dx + 1;
            assert(halftone_row(ox as int, (oy + dy) as int, dx as nat) == prefix + if on_halftone(
                (ox + dx - 1) as int,
                (oy + dy) as int,
            ) {
                seq![ink_pixel((ox + dx - 1) as int, (oy + dy) as int)]
            } else {
                Seq::empty()
            });
            assert(marks(cmds@) =~= marks(row_start) + halftone_row(
                ox as int,
                (oy + dy) as int,
                dx as nat,
            ));
        }
        dy = dy + 1;
        assert(marks(cmds@) =~= marks(start) + halftone_rows(
            ox as int,
            oy as int,
            width as nat,
            dy as nat,
        ));
    }
}

/// The seven bars of a large digit at (x, y) for segment mask `m`: top,
/// middle, bottom, then upper right, lower right, lower left, upper left.
#[verifier::opaque]
pub open spec fn mask_marks(x: int, y: int, m: u8) -> Seq<Mark<BinaryColor>> {
    segment_marks(x + 6, y, 32, 7, m & 1 != 0) + segment_marks(x + 6, y + 38, 32, 7, m & 64 != 0)
        + segment_marks(x + 6, y + 76, 32, 7, m & 8 != 0) + segment_marks(
        x + 38,
        y + 7,
        7,
        31,
        m & 2 != 0,
    ) + segment_marks(x + 38, y + 45, 7, 31, m & 4 != 0) + segment_marks(
        x,
        y + 45,
        7,
        31,
        m & 16 != 0,
    ) + segment_marks(x, y + 7, 7, 31, m & 32 != 0)
}

/// One large digit; digits above 9 show as 9.
pub open spec fn digit_marks(x: int, y: int, digit: u8) -> Seq<Mark<BinaryColor>> {
    mask_marks(
        x,
        y,
        spec_segment_mask(
            if digit > 9 {
                9
            } else {
                digit
            },
        ),
    )
}

/// The seven segments of one digit, lit where `mask` has a bit set.
fn draw_segments(cmds: &mut Vec<DrawCmd<BinaryColor>>, x: i32, y: i32, mask: u8)
    requires
        1 <= x <= 200,
        1 <= y <= 100,
    ensures
        grows(old(cmds)@, final(cmds)@, 300, 400),
        marks(final(cmds)@) == marks(old(cmds)@) + mask_marks(x as int, y as int, mask),
{
    reveal(mask_marks);
    let ghost m0 = marks(cmds@);
    draw_clock_segment(cmds, x + 6, y, 32, 7, mask & 1 != 0);
    let ghost mut t = segment_marks(x + 6, y as int, 32, 7, mask & 1 != 0);
    assert(marks(cmds@) == m0 + t);
    draw_clock_segment(cmds, x + 6, y + 38, 32, 7, mask & 64 != 0);
    proof {
        let s = segment_marks(x + 6, y + 38, 32, 7, mask & 64 != 0);
        lemma_concat_associative(m0, t, s);
        t = t + s;
    }
    draw_clock_segment(cmds, x + 6, y + 76, 32, 7, mask & 8 != 0);
    proof {
        let s = segment_marks(x + 6, y + 76, 32, 7, mask & 8 != 0);
        lemma_concat_associative(m0, t, s);
        t = t + s;
    }
    draw_clock_segment(cmds, x + 38, y + 7, 7, 31, mask & 2 != 0);
    proof {
        let s = segment_marks(x + 38, y + 7, 7, 31, mask & 2 != 0);
        lemma_concat_associative(m0, t, s);
        t = t + s;
    }
    draw_clock_segment(cmds, x + 38, y + 45, 7, 31, mask & 4 != 0);
    proof {
        let s = segment_marks(x + 38, y + 45, 7, 31, mask & 4 != 0);
        lemma_concat_associative(m0, t, s);
        t = t + s;
    }
    draw_clock_segment(cmds, x, y + 45, 7, 31, mask & 16 != 0);
    proof {
        let s = segment_marks(x as int, y + 45, 7, 31, mask & 16 != 0);
        lemma_concat_associative(m0, t, s);
        t = t + s;
    }
    draw_clock_segment(cmds, x, y + 7, 7, 31, mask & 32 != 0);
    proof {
        let s = segment_marks(x as int, y + 7, 7, 31, mask & 32 != 0);
        lemma_concat_associative(m0, t, s);
        t = t + s;
    }
}

/// One digit of the large clock, lit as `segment_mask` says.
fn draw_large_digit(cmds: &mut Vec<DrawCmd<BinaryColor>>, x: i32, y: i32, digit: u8)
    requires
        1 <= x <= 200,
        1 <= y <= 100,
    ensures
        grows(old(cmds)@, final(cmds)@, 300, 400),
        marks(final(cmds)@) == marks(old(cmds)@) + digit_marks(x as int, y as int, digit),
{
    let mask = segment_mask(if digit > 9 {
        9
    } else {
        digit
    });
    draw_segments(cmds, x, y, mask);
}

/// HH:MM in large digits at (x, y) with a two-dot colon.
pub open spec fn clock_marks(x: int, y: int, hour: u8, minute: u8) -> Seq<Mark<BinaryColor>> {
    digit_marks(x, y, hour / 10) + digit_marks(x + 50, y, hour % 10) + seq![
        ink_fill(x + 101, y + 20, 7, 7),
        ink_fill(x + 101, y + 53, 7, 7),
    ] + digit_marks(x + 116, y, minute / 10) + digit_marks(x + 166, y, minute % 10)
}

/// HH:MM in large seven-segment digits with a two-dot colon.
fn draw_large_clock(cmds: &mut Vec<DrawCmd<BinaryColor>>, x: i32, y: i32, hour: u8, minute: u8)
    requires
        1 <= x <= 8,
        1 <= y <= 100,
    ensures
        grows(old(cmds)@, final(cmds)@, 300, 400),
        marks(final(cmds)@) == marks(old(cmds)@) + clock_marks(x as int, y as int, hour, minute),
{
    broadcast use marks_push;

    draw_large_digit(cmds, x, y, hour / 10);
    draw_large_digit(cmds, x + 50, y, hour % 10);
    fill_rect(cmds, x + 101, y + 20, 7, 7, BinaryColor::Off, 300, 400);
    fill_rect(cmds, x + 101, y + 53, 7, 7, BinaryColor::Off, 300, 400);
    draw_large_digit(cmds, x + 116, y, minute / 10);
    draw_large_digit(cmds, x + 166, y, minute % 10);
    assert(marks(cmds@) =~= marks(old(cmds)@) + clock_marks(x as int, y as int, hour, minute));
}

/// Bar `i` of the signal glyph at (x, y), `3 + 3i` tall on a common
/// baseline: filled when lit, outlined when not.
pub open spec fn wifi_bar_mark(x: int, y: int, i: int, lit: bool) -> Mark<BinaryColor> {
    if lit {
        fill_mark(x + 6 * i, y + 9 - 3 * i, 4, 3 + 3 * i, ink())
    } else {
        outline_mark(x + 6 * i, y + 9 - 3 * i, 4, 3 + 3 * i, ink(), 1)
    }
}

/// `m` followed by the first `n` bars of the glyph, the first `lit` of
/// them filled.
pub open spec fn with_wifi_bars(m: Seq<Mark<BinaryColor>>, x: int, y: int, lit: int, n: nat) -> Seq<
    Mark<BinaryColor>,
>
    decreases n,
{
    if n == 0 {
        m
    } else {
        with_wifi_bars(m, x, y, lit, (n - 1) as nat).push(wifi_bar_mark(x, y, n - 1, n - 1 < lit))
    }
}

/// `m` followed by the four signal bars at (x, y), the first `wifi_bars`
/// filled.
pub open spec fn with_wifi(m: Seq<Mark<BinaryColor>>, x: int, y: int, rssi: i16, health: Health) -> Seq<
    Mark<BinaryColor>,
> {
    with_wifi_bars(m, x, y, wifi_bars(rssi, health), 4)
}

/// The four signal bars at (x, y): the first `wifi_bars` filled, the rest
/// outlined.
fn draw_wifi(cmds: &mut Vec<DrawCmd<BinaryColor>>, x: i32, y: i32, rssi: i16, health: Health)
    requires
        0 <= x <= 250,
        0 <= y <= 300,
    ensures
        grows(old(cmds)@, final(cmds)@, 300, 400),
        marks(final(cmds)@) == with_wifi(marks(old(cmds)@), x as int, y as int, rssi, health),
{
    broadcast use marks_push;

    let bars: i32 = if health != Health::Healthy {
        0
    } else if rssi >= -55 {
        4
    } else if rssi >= -65 {
        3
    } else if rssi >= -75 {
        2
    } else {
        1
    };
    let ghost start = old(cmds)@;
    let mut index: i32 = 0;
    while index < 4
        invariant
            0 <= index <= 4,
            0 <= x <= 250,
            0 <= y <= 300,
            bars == wifi_bars(rssi, health),
            grows(start, cmds@, 300, 400),
            marks(cmds@) == with_wifi_bars(marks(start), x as int, y as int, bars as int, index as nat),
        decreases 4 - index,
    {
        let height: u32 = (3 + index * 3) as u32;
        let bx = x + index * 6;
        let by = y + 12 - height as i32;
        if index < bars {
            fill_rect(cmds, bx, by, 4, height, BinaryColor::Off, 300, 400);
        } else {
            outline_rect(cmds, bx, by, 4, height, BinaryColor::Off, 1, 300, 400);
        }
        index = index + 1;
    }
}

/// `m` followed by the battery glyph at (x, y): outline, terminal and a
/// charge bar `battery_fill_width` wide.
pub open spec fn with_battery(m: Seq<Mark<BinaryColor>>, x: int, y: int, percent: u8) -> Seq<
    Mark<BinaryColor>,
> {
    m.push(outline_mark(x, y, 30, 12, ink(), 1)).push(fill_mark(x + 30, y + 3, 3, 6, ink())).push(
        fill_mark(x + 2, y + 2, battery_fill_width(percent), 8, ink()),
    )
}

/// The battery glyph at (x, y).
fn draw_battery(cmds: &mut Vec<DrawCmd<BinaryColor>>, x: i32, y: i32, percent: u8)
    requires
        0 <= x <= 250,
        0 <= y <= 300,
    ensures
        grows(old(cmds)@, final(cmds)@, 300, 400),
        marks(final(cmds)@) == with_battery(marks(old(cmds)@), x as int, y as int, percent),
{
    broadcast use marks_push;

    outline_rect(cmds, x, y, 30, 12, BinaryColor::Off, 1, 300, 400);
    fill_rect(cmds, x + 30, y + 3, 3, 6, BinaryColor::Off, 300, 400);
    let p: u32 = if percent > 100 {
        100
    } else {
        percent as u32
    };
    let scaled = p * 26 / 100;
    let width: u32 = if scaled < 1 {
        1
    } else {
        scaled
    };
    fill_rect(cmds, x + 2, y + 2, width, 8, BinaryColor::Off, 300, 400);
}

/// Appends a line of text read from a string slice.
fn put(cmds: &mut Vec<DrawCmd<BinaryColor>>, x: i32, y: i32, s: &str, font: Font, color: BinaryColor)
    requires
        0 <= x < 300,
        0 <= y < 400,
    ensures
        grows(old(cmds)@, final(cmds)@, 300, 400),
        marks(final(cmds)@) == marks(old(cmds)@).push(text_mark(x as int, y as int, s@, font, color)),
{
    broadcast use marks_push;

    text_at(cmds, x, y, s.to_owned(), font, color, 300, 400);
}

/// Appends a line of text held in a `String`.
fn put_string(
    cmds: &mut Vec<DrawCmd<BinaryColor>>,
    x: i32,
    y: i32,
    s: String,
    font: Font,
    color: BinaryColor,
)
    requires
        0 <= x < 300,
        0 <= y < 400,
    ensures
        grows(old(cmds)@, final(cmds)@, 300, 400),
        marks(final(cmds)@) == marks(old(cmds)@).push(text_mark(x as int, y as int, s@, font, color)),
{
    broadcast use marks_push;

    let ghost v = s@;
    text_at(cmds, x, y, s, font, color, 300, 400);
}

/// `m` followed by a view's heading, its underline and the hint to go home.
pub open spec fn with_title(m: Seq<Mark<BinaryColor>>, title: Seq<char>) -> Seq<Mark<BinaryColor>> {
    m.push(text_mark(10, 10, title, Font::Bold, ink())).push(line_mark(10, 32, 290, 32, ink(), 2)).push(
        text_mark(198, 13, "HOLD KEY = HOME"@, Font::Small, ink()),
    )
}

/// A view's heading.
fn render_title(cmds: &mut Vec<DrawCmd<BinaryColor>>, title: &str)
    ensures
        grows(old(cmds)@, final(cmds)@, 300, 400),
        marks(final(cmds)@) == with_title(marks(old(cmds)@), title@),
{
    broadcast use marks_push;

    put(cmds, 10, 10, title, Font::Bold, BinaryColor::Off);
    line_to(cmds, 10, 32, 290, 32, BinaryColor::Off, 2, 300, 400);
    put(cmds, 198, 13, "HOLD KEY = HOME", Font::Small, BinaryColor::Off);
}

/// The labels of the launcher rows.
pub open spec fn spec_menu_label(index: int) -> Seq<char> {
    if index == 0 {
        "RECORD"@
    } else if index == 1 {
        "FILES"@
    } else if index == 2 {
        "LIVE AUDIO"@
    } else if index == 3 {
        "DIAGNOSTICS"@
    } else {
        "SETTINGS"@
    }
}

fn menu_label(index: usize) -> (r: &'static str)
    ensures
        r@ == spec_menu_label(index as int),
{
    match index {
        0 => "RECORD",
        1 => "FILES",
        2 => "LIVE AUDIO",
        3 => "DIAGNOSTICS",
        _ => "SETTINGS",
    }
}

/// The frame of a list row: solid ink when selected, an outline otherwise.
pub open spec fn row_box(x: int, y: int, width: int, height: int, selected: bool) -> Mark<BinaryColor> {
    if selected {
        fill_mark(x, y, width, height, ink())
    } else {
        outline_mark(x, y, width, height, ink(), 1)
    }
}

/// Text on a list row: white on a selected row, ink otherwise.
pub open spec fn row_ink(selected: bool) -> BinaryColor {
    if selected {
        bg()
    } else {
        ink()
    }
}

/// `m` followed by launcher row `i`: its frame, the cursor and the label.
pub open spec fn with_menu_row(m: Seq<Mark<BinaryColor>>, i: int, selected: bool) -> Seq<
    Mark<BinaryColor>,
> {
    m.push(row_box(12, 48 + 58 * i, 276, 44, selected)).push(
        text_mark(
            24,
            48 + 58 * i + 15,
            if selected {
                ">"@
            } else {
                " "@
            },
            Font::Small,
            row_ink(selected),
        ),
    ).push(text_mark(46, 48 + 58 * i + 14, spec_menu_label(i), Font::Bold, row_ink(selected)))
}

/// `m` followed by the first `n` launcher rows, row `menu_index` selected.
pub open spec fn with_menu_rows(m: Seq<Mark<BinaryColor>>, menu_index: u8, n: nat) -> Seq<
    Mark<BinaryColor>,
>
    decreases n,
{
    if n == 0 {
        m
    } else {
        with_menu_row(with_menu_rows(m, menu_index, (n - 1) as nat), n - 1, n - 1 == menu_index)
    }
}

/// The launcher: five rows, the selected one drawn in solid ink with its
/// label in white.
fn render_menu(cmds: &mut Vec<DrawCmd<BinaryColor>>, menu_index: u8)
    ensures
        grows(old(cmds)@, final(cmds)@, 300, 400),
        marks(final(cmds)@) == with_menu_rows(marks(old(cmds)@), menu_index, 5),
{
    broadcast use marks_push;

    let ghost start = old(cmds)@;
    let mut index: usize = 0;
    while index < 5
        invariant
            index <= 5,
            grows(start, cmds@, 300, 400),
            marks(cmds@) == with_menu_rows(marks(start), menu_index, index as nat),
        decreases 5 - index,
    {
        let y: i32 = 48 + index as i32 * 58;
        let selected = menu_index as usize == index;
        if selected {
            fill_rect(cmds, 12, y, 276, 44, BinaryColor::Off, 300, 400);
        } else {
            outline_rect(cmds, 12, y, 276, 44, BinaryColor::Off, 1, 300, 400);
        }
        let paper = if selected {
            BinaryColor::On
        } else {
            BinaryColor::Off
        };
        put(cmds, 24, y + 15, if selected {
            ">"
        } else {
            " "
        }, Font::Small, paper);
        put(cmds, 46, y + 14, menu_label(index), Font::Bold, paper);
        index = index + 1;
    }
}

/// Horizontal position of history bar `index` in the 280-pixel frame.
pub open spec fn waveform_x(index: int) -> int {
    15 + index * 270 / 71
}

/// Bar `i` of a level strip at `top`, `height` tall.
pub open spec fn level_bar(audio: AudioTelemetry, top: int, height: int, i: int) -> Mark<BinaryColor> {
    line_mark(
        waveform_x(i),
        top + height - 5,
        waveform_x(i),
        top + height - 5 - spec_level_height(audio.history()[i], (height - 8) as u32),
        ink(),
        2,
    )
}

/// `m` followed by the bars of the `n` oldest retained levels.
pub open spec fn with_level_bars(
    m: Seq<Mark<BinaryColor>>,
    audio: AudioTelemetry,
    top: int,
    height: int,
    n: nat,
) -> Seq<Mark<BinaryColor>>
    decreases n,
{
    if n == 0 {
        m
    } else {
        with_level_bars(m, audio, top, height, (n - 1) as nat).push(
            level_bar(audio, top, height, n - 1),
        )
    }
}

/// `m` followed by the level history in a framed strip: a baseline and one
/// two-pixel bar per retained level, oldest on the left, `level_height`
/// tall on the strip's fixed scale.
pub open spec fn with_waveform(
    m: Seq<Mark<BinaryColor>>,
    audio: AudioTelemetry,
    top: int,
    height: int,
) -> Seq<Mark<BinaryColor>> {
    with_level_bars(
        m.push(outline_mark(10, top, 280, height, ink(), 1)).push(
            line_mark(14, top + height - 5, 286, top + height - 5, ink(), 1),
        ),
        audio,
        top,
        height,
        audio.history_len as nat,
    )
}

/// The level history of `audio` in a strip at `top`.
fn draw_waveform(cmds: &mut Vec<DrawCmd<BinaryColor>>, audio: &AudioTelemetry, top: i32, height: u32)
    requires
        0 <= top,
        16 <= height,
        top + height <= 376,
    ensures
        audio.history_len <= 72 ==> grows(old(cmds)@, final(cmds)@, 300, 400),
        marks(final(cmds)@) == with_waveform(marks(old(cmds)@), *audio, top as int, height as int),
{
    broadcast use marks_push;

    outline_rect(cmds, 10, top, 280, height, BinaryColor::Off, 1, 300, 400);
    let baseline = top + height as i32 - 5;
    line_to(cmds, 14, baseline, 286, baseline, BinaryColor::Off, 1, 300, 400);
    let ghost start = cmds@;
    let len = audio.history_len as usize;
    let mut index: usize = 0;
    while index < len
        invariant
            len == audio.history_len,
            index <= len,
            0 <= top,
            16 <= height,
            top + height <= 376,
            baseline == top + height - 5,
            len <= 72 ==> grows(old(cmds)@, cmds@, 300, 400),
            marks(cmds@) == with_level_bars(
                marks(start),
                *audio,
                top as int,
                height as int,
                index as nat,
            ),
        decreases len - index,
    {
        let sample = audio.history_sample(index);
        match sample {
            Some(v) => {
                assert(index * 270 / 71 <= 971) by (nonlinear_arith)
                    requires
                        index < 256,
                ;
                assert(index < 72 ==> index * 270 / 71 <= 270) by (nonlinear_arith);
                let x: i32 = 15 + (index as i32) * 270 / 71;
                let level = level_height(v, height - 8) as i32;
                if index < 72 {
                    line_to(cmds, x, baseline, x, baseline - level, BinaryColor::Off, 2, 300, 400);
                } else {
                    // Levels past the ring's 72 fall right of the strip; the
                    // painter clips what leaves the panel.
                    cmds.push(
                        DrawCmd::Line {
                            x0: x,
                            y0: baseline,
                            x1: x,
                            y1: baseline - level,
                            color: BinaryColor::Off,
                            stroke: 2,
                        },
                    );
                }
            },
            None => {},
        }
        index = index + 1;
    }
}

/// The `{}.{:01} C` reading of a temperature in hundredths of a degree:
/// whole degrees truncated toward zero, then the tenths digit.
pub open spec fn spec_temperature_text(centi: i32) -> Seq<char> {
    let mag: nat = if centi < 0 {
        (-centi) as nat
    } else {
        centi as nat
    };
    let whole: nat = mag / 100;
    (if centi < 0 && whole > 0 {
        seq!['-']
    } else {
        Seq::<char>::empty()
    }) + decimal(whole) + seq!['.'] + decimal((mag / 10) % 10) + " C"@
}

/// The temperature line of the home screen.
pub fn temperature_text(centi: i32) -> (s: String)
    ensures
        s@ == spec_temperature_text(centi),
{
    let t: i64 = centi as i64;
    let mag: u64 = if t < 0 {
        (0 - t) as u64
    } else {
        t as u64
    };
    let whole = mag / 100;
    let mut s = String::new();
    if t < 0 && whole > 0 {
        push_char(&mut s, '-');
    }
    push_decimal(&mut s, whole);
    push_char(&mut s, '.');
    push_decimal(&mut s, (mag / 10) % 10);
    push_str(&mut s, " C");
    proof {
        reveal_strlit(" C");
    }
    assert(s@ =~= spec_temperature_text(centi));
    s
}

/// The network state in words.
pub open spec fn spec_network_label(health: Health) -> Seq<char> {
    if health == Health::Healthy {
        "ONLINE"@
    } else if health == Health::Error {
        "OFFLINE"@
    } else {
        "CONNECTING"@
    }
}

pub fn network_label(health: Health) -> (r: &'static str)
    ensures
        r@ == spec_network_label(health),
{
    if health == Health::Healthy {
        "ONLINE"
    } else if health == Health::Error {
        "OFFLINE"
    } else {
        "CONNECTING"
    }
}

/// The date line under the clock: `WEEKDAY  DD MONTH YYYY`.
pub open spec fn date_line(clock: ClockTelemetry) -> Seq<char> {
    spec_weekday_name(clock.weekday) + "  "@ + pad_left(decimal(clock.day as nat), 2, '0') + seq![' ']
        + spec_month_name(clock.month) + seq![' '] + decimal(clock.year as nat)
}

/// `m` followed by the top of the home screen: the large clock with its
/// seconds, zone and date, or a syncing notice while the time is unknown.
pub open spec fn with_clock_block(m: Seq<Mark<BinaryColor>>, clock: ClockTelemetry) -> Seq<
    Mark<BinaryColor>,
> {
    if clock.health == Health::Healthy {
        (m + clock_marks(8, 16, clock.hour, clock.minute)).push(
            text_mark(252, 38, pad_left(decimal(clock.second as nat), 2, '0'), Font::Bold, ink()),
        ).push(text_mark(252, 65, clock.zone@, Font::Small, ink())).push(
            text_mark(14, 108, date_line(clock), Font::Bold, ink()),
        )
    } else {
        m.push(text_mark(40, 36, "--:--"@, Font::Large, ink())).push(
            text_mark(40, 78, "SYNCING NETWORK TIME"@, Font::Bold, ink()),
        )
    }
}

/// `m` followed by the divider and the environment card.
pub open spec fn with_env_card(m: Seq<Mark<BinaryColor>>, env: EnvironmentTelemetry) -> Seq<
    Mark<BinaryColor>,
> {
    let card = m.push(line_mark(10, 132, 290, 132, ink(), 2)).push(
        outline_mark(10, 146, 135, 70, ink(), 1),
    ).push(text_mark(20, 155, "ENV CAL"@, Font::Small, ink()));
    if env.health == Health::Healthy {
        card.push(
            text_mark(20, 176, spec_temperature_text(env.temperature_centi_c), Font::Bold, ink()),
        ).push(
            text_mark(
                20,
                200,
                decimal((env.humidity_centi_pct / 100) as nat) + "% RH"@,
                Font::Small,
                ink(),
            ),
        )
    } else {
        card.push(text_mark(20, 176, "SENSOR ERR"@, Font::Bold, ink())).push(
            text_mark(20, 200, "NO FRESH SAMPLE"@, Font::Small, ink()),
        )
    }
}

/// `m` followed by the network card: signal bars, state and address.
pub open spec fn with_network_card(m: Seq<Mark<BinaryColor>>, wifi: WifiTelemetry) -> Seq<
    Mark<BinaryColor>,
> {
    with_wifi(
        m.push(outline_mark(155, 146, 135, 70, ink(), 1)).push(
            text_mark(165, 155, "NETWORK"@, Font::Small, ink()),
        ),
        165,
        183,
        wifi.rssi_dbm,
        wifi.health,
    ).push(text_mark(195, 176, spec_network_label(wifi.health), Font::Bold, ink())).push(
        text_mark(
            165,
            200,
            if wifi.ipv4@.len() == 0 {
                "NO ADDRESS"@
            } else {
                wifi.ipv4@
            },
            Font::Small,
            ink(),
        ),
    )
}

/// `m` followed by the battery card, the card's SD state and the recorder
/// line.
pub open spec fn with_power_card(m: Seq<Mark<BinaryColor>>, state: DashboardState) -> Seq<
    Mark<BinaryColor>,
> {
    let card = m.push(outline_mark(10, 226, 280, 54, ink(), 1)).push(
        text_mark(20, 237, "BATTERY"@, Font::Small, ink()),
    );
    let charge = if state.battery.health == Health::Healthy {
        with_battery(card, 76, 236, state.battery.percent).push(
            text_mark(115, 236, decimal(state.battery.percent as nat) + seq!['%'], Font::Bold, ink()),
        )
    } else {
        card.push(text_mark(76, 236, "ADC ERR"@, Font::Bold, ink()))
    };
    charge.push(
        text_mark(
            188,
            237,
            if state.storage.mounted {
                "SD READY"@
            } else {
                "NO SD CARD"@
            },
            Font::Small,
            ink(),
        ),
    ).push(
        text_mark(
            12,
            292,
            if state.recording {
                "REC  Recording to SD"@
            } else {
                "Recorder idle - audio is not being saved"@
            },
            Font::Small,
            ink(),
        ),
    )
}

/// `m` followed by the home screen.
pub open spec fn with_home(m: Seq<Mark<BinaryColor>>, state: DashboardState) -> Seq<Mark<BinaryColor>> {
    with_waveform(
        with_power_card(
            with_network_card(
                with_env_card(with_clock_block(m, state.clock), state.environment),
                state.wifi,
            ),
            state,
        ),
        state.audio,
        311,
        48,
    )
}

/// The home screen: the large clock or a syncing notice, then the
/// environment, network and battery cards, the recorder state and the
/// level history.
fn render_clock_home(cmds: &mut Vec<DrawCmd<BinaryColor>>, state: &DashboardState)
    ensures
        state.audio.history_len <= 72 ==> grows(old(cmds)@, final(cmds)@, 300, 400),
        marks(final(cmds)@) == with_home(marks(old(cmds)@), *state),
{
    broadcast use marks_push;

    let ink = BinaryColor::Off;
    if state.clock.health == Health::Healthy {
        draw_large_clock(cmds, 8, 16, state.clock.hour, state.clock.minute);
        let mut sec = String::new();
        push_decimal_zero_padded(&mut sec, state.clock.second as u64, 2);
        assert(sec@ =~= pad_left(decimal(state.clock.second as nat), 2, '0'));
        put_string(cmds, 252, 38, sec, Font::Bold, ink);
        put(cmds, 252, 65, state.clock.zone, Font::Small, ink);
        let mut date = String::new();
        push_str(&mut date, weekday_name(state.clock.weekday));
        push_str(&mut date, "  ");
        push_decimal_zero_padded(&mut date, state.clock.day as u64, 2);
        push_char(&mut date, ' ');
        push_str(&mut date, month_name(state.clock.month));
        push_char(&mut date, ' ');
        push_decimal(&mut date, state.clock.year as u64);
        assert(date@ =~= date_line(state.clock));
        put_string(cmds, 14, 108, date, Font::Bold, ink);
    } else {
        put(cmds, 40, 36, "--:--", Font::Large, ink);
        put(cmds, 40, 78, "SYNCING NETWORK TIME", Font::Bold, ink);
    }
    line_to(cmds, 10, 132, 290, 132, ink, 2, 300, 400);
    outline_rect(cmds, 10, 146, 135, 70, ink, 1, 300, 400);
    put(cmds, 20, 155, "ENV CAL", Font::Small, ink);
    if state.environment.health == Health::Healthy {
        put_string(cmds, 20, 176, temperature_text(state.environment.temperature_centi_c), Font::Bold, ink);
        let mut rh = String::new();
        push_decimal(&mut rh, (state.environment.humidity_centi_pct / 100) as u64);
        push_str(&mut rh, "% RH");
        assert(rh@ =~= decimal((state.environment.humidity_centi_pct / 100) as nat) + "% RH"@);
        put_string(cmds, 20, 200, rh, Font::Small, ink);
    } else {
        put(cmds, 20, 176, "SENSOR ERR", Font::Bold, ink);
        put(cmds, 20, 200, "NO FRESH SAMPLE", Font::Small, ink);
    }
    outline_rect(cmds, 155, 146, 135, 70, ink, 1, 300, 400);
    put(cmds, 165, 155, "NETWORK", Font::Small, ink);
    draw_wifi(cmds, 165, 183, state.wifi.rssi_dbm, state.wifi.health);
    put(cmds, 195, 176, network_label(state.wifi.health), Font::Bold, ink);
    if state.wifi.ipv4.as_str().unicode_len() == 0 {
        put(cmds, 165, 200, "NO ADDRESS", Font::Small, ink);
    } else {
        put(cmds, 165, 200, state.wifi.ipv4.as_str(), Font::Small, ink);
    }
    outline_rect(cmds, 10, 226, 280, 54, ink, 1, 300, 400);
    put(cmds, 20, 237, "BATTERY", Font::Small, ink);
    if state.battery.health == Health::Healthy {
        draw_battery(cmds, 76, 236, state.battery.percent);
        let mut pct = String::new();
        push_decimal(&mut pct, state.battery.percent as u64);
        push_char(&mut pct, '%');
        assert(pct@ =~= decimal(state.battery.percent as nat) + seq!['%']);
        put_string(cmds, 115, 236, pct, Font::Bold, ink);
    } else {
        put(cmds, 76, 236, "ADC ERR", Font::Bold, ink);
    }
    put(cmds, 188, 237, if state.storage.mounted {
        "SD READY"
    } else {
        "NO SD CARD"
    }, Font::Small, ink);
    put(cmds, 12, 292, if state.recording {
        "REC  Recording to SD"
    } else {
        "Recorder idle - audio is not being saved"
    }, Font::Small, ink);
    draw_waveform(cmds, &state.audio, 311, 48);
}

/// Appends `minutes_seconds`.
fn push_minutes_seconds(out: &mut String, seconds: u64)
    ensures
        final(out)@ == old(out)@ + minutes_seconds(seconds as int),
{
    push_decimal_zero_padded(out, seconds / 60, 2);
    push_char(out, ':');
    push_decimal_zero_padded(out, seconds % 60, 2);
    assert(final(out)@ =~= old(out)@ + minutes_seconds(seconds as int));
}

/// Whole seconds the current recording has run; zero when idle.
pub open spec fn spec_recording_elapsed_s(recording: bool, uptime_ms: u64, started_ms: u64) -> int {
    if recording {
        (if uptime_ms >= started_ms {
            uptime_ms - started_ms
        } else {
            0
        }) / 1000
    } else {
        0
    }
}

pub fn recording_elapsed_s(recording: bool, uptime_ms: u64, started_ms: u64) -> (s: u64)
    ensures
        s == spec_recording_elapsed_s(recording, uptime_ms, started_ms),
{
    if recording {
        uptime_ms.saturating_sub(started_ms) / 1000
    } else {
        0
    }
}

/// `mm:ss` of a number of seconds, minutes unbounded.
pub open spec fn minutes_seconds(seconds: int) -> Seq<char> {
    pad_left(decimal((seconds / 60) as nat), 2, '0') + seq![':'] + pad_left(
        decimal((seconds % 60) as nat),
        2,
        '0',
    )
}

/// The recorder's time and size line.
pub open spec fn recorder_line(state: DashboardState) -> Seq<char> {
    minutes_seconds(
        spec_recording_elapsed_s(
            state.recording,
            state.runtime.uptime_ms,
            state.recording_started_ms,
        ),
    ) + "   "@ + decimal((state.recording_bytes / 1024) as nat) + " KiB   24 kHz stereo WAV"@
}

/// `m` followed by the recorder view.
pub open spec fn with_recorder(m: Seq<Mark<BinaryColor>>, state: DashboardState) -> Seq<
    Mark<BinaryColor>,
> {
    with_waveform(
        m.push(
            text_mark(
                14,
                48,
                if state.recording {
                    "RECORDING"@
                } else {
                    "READY - NOT RECORDING"@
                },
                Font::Bold,
                ink(),
            ),
        ),
        state.audio,
        78,
        170,
    ).push(text_mark(14, 265, recorder_line(state), Font::Small, ink())).push(
        text_mark(
            14,
            291,
            if state.last_recording@.len() == 0 {
                "No recording yet"@
            } else {
                state.last_recording@
            },
            Font::Small,
            ink(),
        ),
    ).push(
        text_mark(14, 338, "BOOT click: record/stop   BOOT hold: play last"@, Font::Small, ink()),
    )
}

/// The recorder: state, live levels, elapsed time and size, the last file.
fn render_recorder(cmds: &mut Vec<DrawCmd<BinaryColor>>, state: &DashboardState)
    ensures
        state.audio.history_len <= 72 ==> grows(old(cmds)@, final(cmds)@, 300, 400),
        marks(final(cmds)@) == with_recorder(marks(old(cmds)@), *state),
{
    broadcast use marks_push;

    let ink = BinaryColor::Off;
    put(cmds, 14, 48, if state.recording {
        "RECORDING"
    } else {
        "READY - NOT RECORDING"
    }, Font::Bold, ink);
    draw_waveform(cmds, &state.audio, 78, 170);
    let elapsed = recording_elapsed_s(
        state.recording,
        state.runtime.uptime_ms,
        state.recording_started_ms,
    );
    let mut s = String::new();
    push_minutes_seconds(&mut s, elapsed);
    push_str(&mut s, "   ");
    push_decimal(&mut s, state.recording_bytes / 1024);
    push_str(&mut s, " KiB   24 kHz stereo WAV");
    assert(s@ =~= recorder_line(*state));
    put_string(cmds, 14, 265, s, Font::Small, ink);
    if state.last_recording.as_str().unicode_len() == 0 {
        put(cmds, 14, 291, "No recording yet", Font::Small, ink);
    } else {
        put(cmds, 14, 291, state.last_recording.as_str(), Font::Small, ink);
    }
    put(cmds, 14, 338, "BOOT click: record/stop   BOOT hold: play last", Font::Small, ink);
}

/// First row of the file list: the selection stays in the fifth row once
/// the list has scrolled.
pub open spec fn files_window_start(file_index: usize, rows_above: usize) -> int {
    if file_index >= rows_above {
        file_index - rows_above
    } else {
        0
    }
}

/// One row of the RLCD file list: the name clipped and padded to 32
/// columns, then the size in KiB right-aligned in five.
pub open spec fn spec_file_row(name: Seq<char>, size: u64) -> Seq<char> {
    pad_right(clip(name, 32), 32) + seq![' '] + pad_left(decimal((size / 1024) as nat), 5, ' ')
        + seq!['K']
}

pub fn file_row(name: &str, size: u64) -> (s: String)
    ensures
        s@ == spec_file_row(name@, size),
{
    let mut s = String::new();
    let clipped = clipped_name(name, 32);
    push_padded_right(&mut s, clipped.as_str(), 32);
    push_char(&mut s, ' ');
    let kib = decimal_string(size / 1024);
    push_padded_left(&mut s, kib.as_str(), 5, ' ');
    push_char(&mut s, 'K');
    assert(s@ =~= spec_file_row(name@, size));
    s
}

/// How many rows the file list shows from `start`: up to nine.
pub open spec fn files_rows(count: int, start: int) -> int {
    if start >= count {
        0
    } else if count - start > 9 {
        9
    } else {
        count - start
    }
}

/// `m` followed by file-list row `row`, which shows entry `start + row`.
pub open spec fn with_file_row(m: Seq<Mark<BinaryColor>>, state: DashboardState, start: int, row: int) -> Seq<
    Mark<BinaryColor>,
> {
    let index = start + row;
    let selected = index == state.file_index;
    m.push(row_box(10, 44 + 33 * row, 280, 27, selected)).push(
        text_mark(
            17,
            44 + 33 * row + 9,
            spec_file_row(state.files@[index].name@, state.files@[index].size),
            Font::Small,
            row_ink(selected),
        ),
    )
}

/// `m` followed by the first `n` rows of the file list.
pub open spec fn with_file_rows(
    m: Seq<Mark<BinaryColor>>,
    state: DashboardState,
    start: int,
    n: nat,
) -> Seq<Mark<BinaryColor>>
    decreases n,
{
    if n == 0 {
        m
    } else {
        with_file_row(with_file_rows(m, state, start, (n - 1) as nat), state, start, n - 1)
    }
}

/// The file-count and free-space line.
pub open spec fn files_summary(state: DashboardState) -> Seq<char> {
    decimal(state.files@.len()) + " files  |  "@ + decimal((state.storage.free_kib / 1024) as nat)
        + " MiB free"@
}

/// `m` followed by the file list: up to nine rows from the one four above
/// the selection, then the summary; a notice when there are no files.
pub open spec fn with_files(m: Seq<Mark<BinaryColor>>, state: DashboardState) -> Seq<Mark<BinaryColor>> {
    if state.files@.len() == 0 {
        m.push(
            text_mark(14, 58, "No files found. Hold BOOT in Settings to rescan."@, Font::Small, ink()),
        )
    } else {
        let start = files_window_start(state.file_index, 4);
        with_file_rows(m, state, start, files_rows(state.files@.len() as int, start) as nat).push(
            text_mark(12, 352, files_summary(state), Font::Small, ink()),
        )
    }
}

/// The file list: up to nine rows around the selection, the selected row
/// in solid ink, then the file count and free space.
fn render_files(cmds: &mut Vec<DrawCmd<BinaryColor>>, state: &DashboardState)
    ensures
        grows(old(cmds)@, final(cmds)@, 300, 400),
        marks(final(cmds)@) == with_files(marks(old(cmds)@), *state),
{
    broadcast use marks_push;

    let ink = BinaryColor::Off;
    let count = state.files.len();
    if count == 0 {
        put(cmds, 14, 58, "No files found. Hold BOOT in Settings to rescan.", Font::Small, ink);
        return ;
    }
    let start = state.file_index.saturating_sub(4);
    let ghost begin = old(cmds)@;
    let mut row: usize = 0;
    while row < 9 && start < count && row < count - start
        invariant
            row <= 9,
            ink == BinaryColor::Off,
            count == state.files@.len(),
            start == files_window_start(state.file_index, 4),
            row <= files_rows(count as int, start as int),
            grows(begin, cmds@, 300, 400),
            marks(cmds@) == with_file_rows(marks(begin), *state, start as int, row as nat),
        decreases 9 - row,
    {
        let index = start + row;
        let y: i32 = 44 + row as i32 * 33;
        let selected = index == state.file_index;
        if selected {
            fill_rect(cmds, 10, y, 280, 27, ink, 300, 400);
        } else {
            outline_rect(cmds, 10, y, 280, 27, ink, 1, 300, 400);
        }
        let entry = &state.files[index];
        let text = file_row(entry.name.as_str(), entry.size);
        put_string(cmds, 17, y + 9, text, Font::Small, if selected {
            BinaryColor::On
        } else {
            ink
        });
        row = row + 1;
    }
    let mut s = String::new();
    push_decimal(&mut s, count as u64);
    push_str(&mut s, " files  |  ");
    push_decimal(&mut s, state.storage.free_kib / 1024);
    push_str(&mut s, " MiB free");
    assert(s@ =~= files_summary(*state));
    put_string(cmds, 12, 352, s, Font::Small, ink);
}

/// Width in pixels of a progress bar `full` pixels long: the played share
/// of the file, nothing when its length is unknown.
pub open spec fn spec_progress_width(full: u64, position_ms: u64, duration_ms: u64) -> int {
    if duration_ms == 0 {
        0
    } else if full * position_ms / (duration_ms as int) > full {
        full as int
    } else {
        full * position_ms / (duration_ms as int)
    }
}

pub fn progress_width(full: u64, position_ms: u64, duration_ms: u64) -> (w: u64)
    requires
        full * position_ms <= u64::MAX,
    ensures
        w == spec_progress_width(full, position_ms, duration_ms),
        w <= full,
{
    if duration_ms == 0 {
        0
    } else {
        let scaled = full * position_ms / duration_ms;
        if scaled > full {
            full
        } else {
            scaled
        }
    }
}

/// `mm:ss / mm:ss` of a position and a length in milliseconds, each minute
/// count unbounded.
pub open spec fn position_text(position_ms: u64, duration_ms: u64) -> Seq<char> {
    pad_left(decimal((position_ms / 60_000) as nat), 2, '0') + seq![':'] + pad_left(
        decimal((position_ms / 1_000 % 60) as nat),
        2,
        '0',
    ) + " / "@ + pad_left(decimal((duration_ms / 60_000) as nat), 2, '0') + seq![':'] + pad_left(
        decimal((duration_ms / 1_000 % 60) as nat),
        2,
        '0',
    )
}

/// Appends `position_text`.
fn push_position(out: &mut String, position_ms: u64, duration_ms: u64)
    ensures
        final(out)@ == old(out)@ + position_text(position_ms, duration_ms),
{
    push_decimal_zero_padded(out, position_ms / 60_000, 2);
    push_char(out, ':');
    push_decimal_zero_padded(out, position_ms / 1_000 % 60, 2);
    push_str(out, " / ");
    push_decimal_zero_padded(out, duration_ms / 60_000, 2);
    push_char(out, ':');
    push_decimal_zero_padded(out, duration_ms / 1_000 % 60, 2);
    assert(final(out)@ =~= old(out)@ + position_text(position_ms, duration_ms));
}

/// The player's time and volume line.
pub open spec fn player_line(state: DashboardState) -> Seq<char> {
    position_text(state.playback_position_ms, state.playback_duration_ms) + "       VOL "@ + decimal(
        state.speaker_volume as nat,
    ) + seq!['%']
}

/// `m` followed by the player view.
pub open spec fn with_player(m: Seq<Mark<BinaryColor>>, state: DashboardState) -> Seq<Mark<BinaryColor>> {
    let width = spec_progress_width(268, state.playback_position_ms, state.playback_duration_ms);
    let framed = with_waveform(
        m.push(
            text_mark(
                14,
                48,
                if state.playing {
                    "||  PLAYING"@
                } else {
                    ">   PAUSED"@
                },
                Font::Bold,
                ink(),
            ),
        ).push(text_mark(14, 72, clip(state.playback_name@, 44), Font::Small, ink())),
        state.playback_audio,
        94,
        176,
    ).push(outline_mark(16, 287, 268, 14, ink(), 1));
    (if width > 0 {
        framed.push(fill_mark(16, 287, width, 14, ink()))
    } else {
        framed
    }).push(text_mark(16, 316, player_line(state), Font::Small, ink())).push(
        text_mark(16, 348, "BOOT click play/pause  |  hold stop"@, Font::Small, ink()),
    )
}

/// The player: state, name, levels of what is playing, a progress bar and
/// the times.
fn render_player(cmds: &mut Vec<DrawCmd<BinaryColor>>, state: &DashboardState)
    requires
        268 * state.playback_position_ms <= u64::MAX,
    ensures
        state.playback_audio.history_len <= 72 ==> grows(old(cmds)@, final(cmds)@, 300, 400),
        marks(final(cmds)@) == with_player(marks(old(cmds)@), *state),
{
    broadcast use marks_push;

    let ink = BinaryColor::Off;
    put(cmds, 14, 48, if state.playing {
        "||  PLAYING"
    } else {
        ">   PAUSED"
    }, Font::Bold, ink);
    put_string(cmds, 14, 72, clipped_name(state.playback_name.as_str(), 44), Font::Small, ink);
    draw_waveform(cmds, &state.playback_audio, 94, 176);
    let width = progress_width(268, state.playback_position_ms, state.playback_duration_ms);
    outline_rect(cmds, 16, 287, 268, 14, ink, 1, 300, 400);
    if width > 0 {
        fill_rect(cmds, 16, 287, width as u32, 14, ink, 300, 400);
    }
    let mut s = String::new();
    push_position(&mut s, state.playback_position_ms, state.playback_duration_ms);
    push_str(&mut s, "       VOL ");
    push_decimal(&mut s, state.speaker_volume as u64);
    push_char(&mut s, '%');
    assert(s@ =~= player_line(*state));
    put_string(cmds, 16, 316, s, Font::Small, ink);
    put(cmds, 16, 348, "BOOT click play/pause  |  hold stop", Font::Small, ink);
}

/// The viewer's heading: name, size and offset.
pub open spec fn viewer_heading(state: DashboardState) -> Seq<char> {
    clip(state.viewer_name@, 24) + "  "@ + decimal(state.viewer_size as nat) + " B  @"@ + decimal(
        state.viewer_offset as nat,
    )
}

/// How many preview lines the viewer shows: up to 29.
pub open spec fn preview_rows(state: DashboardState) -> int {
    if lines_of(state.viewer_preview@).len() < 29 {
        lines_of(state.viewer_preview@).len() as int
    } else {
        29
    }
}

/// `m` followed by the first `n` preview lines, ten pixels apart.
pub open spec fn with_preview_rows(m: Seq<Mark<BinaryColor>>, preview: Seq<char>, n: nat) -> Seq<
    Mark<BinaryColor>,
>
    decreases n,
{
    if n == 0 {
        m
    } else {
        with_preview_rows(m, preview, (n - 1) as nat).push(
            text_mark(13, 65 + 10 * (n - 1), lines_of(preview)[n - 1], Font::Small, ink()),
        )
    }
}

/// `m` followed by the viewer: heading, frame and preview lines.
pub open spec fn with_viewer(m: Seq<Mark<BinaryColor>>, state: DashboardState) -> Seq<Mark<BinaryColor>> {
    with_preview_rows(
        m.push(text_mark(10, 43, viewer_heading(state), Font::Small, ink())).push(
            outline_mark(8, 58, 284, 305, ink(), 1),
        ),
        state.viewer_preview@,
        preview_rows(state) as nat,
    )
}

/// The viewer: name, size and offset, then up to 29 preview lines in a
/// frame.
fn render_viewer(cmds: &mut Vec<DrawCmd<BinaryColor>>, state: &DashboardState)
    ensures
        grows(old(cmds)@, final(cmds)@, 300, 400),
        marks(final(cmds)@) == with_viewer(marks(old(cmds)@), *state),
{
    broadcast use marks_push;

    let ink = BinaryColor::Off;
    let mut s = clipped_name(state.viewer_name.as_str(), 24);
    push_str(&mut s, "  ");
    push_decimal(&mut s, state.viewer_size);
    push_str(&mut s, " B  @");
    push_decimal(&mut s, state.viewer_offset);
    assert(s@ =~= viewer_heading(*state));
    put_string(cmds, 10, 43, s, Font::Small, ink);
    outline_rect(cmds, 8, 58, 284, 305, ink, 1, 300, 400);
    let rows = text_lines(state.viewer_preview.as_str(), 29);
    let ghost begin = cmds@;
    let mut index: usize = 0;
    while index < rows.len()
        invariant
            ink == BinaryColor::Off,
            rows@.len() == preview_rows(*state),
            rows@.len() <= 29,
            forall|i: int| 0 <= i < rows@.len() ==> #[trigger] rows@[i]@ == lines_of(
                state.viewer_preview@,
            )[i],
            index <= rows@.len(),
            grows(old(cmds)@, cmds@, 300, 400),
            marks(cmds@) == with_preview_rows(marks(begin), state.viewer_preview@, index as nat),
        decreases rows@.len() - index,
    {
        put(cmds, 13, 65 + index as i32 * 10, rows[index].as_str(), Font::Small, ink);
        index = index + 1;
    }
}

/// The live view's level line.
pub open spec fn live_line(audio: AudioTelemetry) -> Seq<char> {
    "RMS "@ + decimal(audio.rms as nat) + "   PEAK "@ + decimal(audio.peak as nat) + "   "@ + decimal(
        audio.sample_rate_hz as nat,
    ) + " Hz"@
}

/// `m` followed by the live-levels view.
pub open spec fn with_live(m: Seq<Mark<BinaryColor>>, state: DashboardState) -> Seq<Mark<BinaryColor>> {
    with_waveform(m, state.audio, 48, 240).push(
        text_mark(14, 306, live_line(state.audio), Font::Bold, ink()),
    ).push(text_mark(14, 335, "Visualization only. Audio is not saved."@, Font::Small, ink())).push(
        text_mark(14, 352, "Hold BOOT to open the recorder."@, Font::Small, ink()),
    )
}

/// Live levels: the history, the current RMS and peak, and a reminder that
/// nothing is saved.
fn render_live(cmds: &mut Vec<DrawCmd<BinaryColor>>, state: &DashboardState)
    ensures
        state.audio.history_len <= 72 ==> grows(old(cmds)@, final(cmds)@, 300, 400),
        marks(final(cmds)@) == with_live(marks(old(cmds)@), *state),
{
    broadcast use marks_push;

    let ink = BinaryColor::Off;
    draw_waveform(cmds, &state.audio, 48, 240);
    let mut s = String::new();
    push_str(&mut s, "RMS ");
    push_decimal(&mut s, state.audio.rms as u64);
    push_str(&mut s, "   PEAK ");
    push_decimal(&mut s, state.audio.peak as u64);
    push_str(&mut s, "   ");
    push_decimal(&mut s, state.audio.sample_rate_hz as u64);
    push_str(&mut s, " Hz");
    assert(s@ =~= live_line(state.audio));
    put_string(cmds, 14, 306, s, Font::Bold, ink);
    put(cmds, 14, 335, "Visualization only. Audio is not saved.", Font::Small, ink);
    put(cmds, 14, 352, "Hold BOOT to open the recorder.", Font::Small, ink);
}

/// The first event row shown: up to twelve rows ending `event_offset`
/// events before the newest.
pub open spec fn spec_events_skip(len: usize, event_offset: usize) -> int {
    let available: int = if len >= event_offset {
        len - event_offset
    } else {
        0
    };
    if available >= 12 {
        available - 12
    } else {
        0
    }
}

/// One event row: time right-aligned in six columns, source left-aligned in
/// six, then the detail.
pub open spec fn spec_event_row(at_ms: u64, source: Seq<char>, detail: Seq<char>) -> Seq<char> {
    pad_left(decimal(at_ms as nat), 6, ' ') + seq![' '] + pad_right(source, 6) + seq![' '] + detail
}

pub fn event_row(at_ms: u64, source: &str, detail: &str) -> (s: String)
    ensures
        s@ == spec_event_row(at_ms, source@, detail@),
{
    let mut s = String::new();
    let t = decimal_string(at_ms);
    push_padded_left(&mut s, t.as_str(), 6, ' ');
    push_char(&mut s, ' ');
    push_padded_right(&mut s, source, 6);
    push_char(&mut s, ' ');
    push_str(&mut s, detail);
    assert(s@ =~= spec_event_row(at_ms, source@, detail@));
    s
}

/// The subsystem health line.
pub open spec fn health_line(state: DashboardState) -> Seq<char> {
    "NET "@ + health_label(state.wifi.health) + "  ENV "@ + health_label(state.environment.health)
        + "  MIC "@ + health_label(state.audio.health) + "  SD "@ + health_label(state.storage.health)
}

/// The memory line.
pub open spec fn heap_line(state: DashboardState) -> Seq<char> {
    "HEAP "@ + decimal((state.runtime.free_heap / 1024) as nat) + "K  MIN "@ + decimal(
        (state.runtime.min_free_heap / 1024) as nat,
    ) + seq!['K']
}

/// The timing line.
pub open spec fn timing_line(state: DashboardState) -> Seq<char> {
    "PSRAM "@ + decimal((state.runtime.free_psram / 1024) as nat) + "K  LOOP "@ + decimal(
        state.runtime.loop_hz as nat,
    ) + "Hz  LCD "@ + decimal(state.runtime.display_flush_ms as nat) + "ms"@
}

/// How many event rows the diagnostics view shows from `spec_events_skip`:
/// up to twelve.
pub open spec fn event_rows(state: DashboardState) -> int {
    let skip = spec_events_skip(state.events@.len() as usize, state.event_offset);
    if state.events@.len() - skip > 12 {
        12
    } else {
        state.events@.len() - skip
    }
}

/// `m` followed by the first `n` event rows, twenty pixels apart.
pub open spec fn with_event_rows(m: Seq<Mark<BinaryColor>>, state: DashboardState, n: nat) -> Seq<
    Mark<BinaryColor>,
>
    decreases n,
{
    if n == 0 {
        m
    } else {
        let event = state.events@[spec_events_skip(state.events@.len() as usize, state.event_offset)
            + n - 1];
        with_event_rows(m, state, (n - 1) as nat).push(
            text_mark(
                12,
                108 + 20 * (n - 1),
                spec_event_row(event.at_ms, event.source@, event.detail@),
                Font::Small,
                ink(),
            ),
        )
    }
}

/// `m` followed by the diagnostics view.
pub open spec fn with_diagnostics(m: Seq<Mark<BinaryColor>>, state: DashboardState) -> Seq<
    Mark<BinaryColor>,
> {
    with_event_rows(
        m.push(text_mark(12, 44, health_line(state), Font::Small, ink())).push(
            text_mark(12, 62, heap_line(state), Font::Small, ink()),
        ).push(text_mark(12, 78, timing_line(state), Font::Small, ink())).push(
            line_mark(10, 98, 290, 98, ink(), 1),
        ),
        state,
        event_rows(state) as nat,
    )
}

/// Diagnostics: subsystem health, memory and timing, then the event log.
fn render_diagnostics(cmds: &mut Vec<DrawCmd<BinaryColor>>, state: &DashboardState)
    ensures
        grows(old(cmds)@, final(cmds)@, 300, 400),
        marks(final(cmds)@) == with_diagnostics(marks(old(cmds)@), *state),
{
    broadcast use marks_push;

    let ink = BinaryColor::Off;
    let mut s = String::new();
    push_str(&mut s, "NET ");
    push_str(&mut s, state.wifi.health.label());
    push_str(&mut s, "  ENV ");
    push_str(&mut s, state.environment.health.label());
    push_str(&mut s, "  MIC ");
    push_str(&mut s, state.audio.health.label());
    push_str(&mut s, "  SD ");
    push_str(&mut s, state.storage.health.label());
    assert(s@ =~= health_line(*state));
    put_string(cmds, 12, 44, s, Font::Small, ink);
    let mut heap = String::new();
    push_str(&mut heap, "HEAP ");
    push_decimal(&mut heap, (state.runtime.free_heap / 1024) as u64);
    push_str(&mut heap, "K  MIN ");
    push_decimal(&mut heap, (state.runtime.min_free_heap / 1024) as u64);
    push_char(&mut heap, 'K');
    assert(heap@ =~= heap_line(*state));
    put_string(cmds, 12, 62, heap, Font::Small, ink);
    let mut perf = String::new();
    push_str(&mut perf, "PSRAM ");
    push_decimal(&mut perf, (state.runtime.free_psram / 1024) as u64);
    push_str(&mut perf, "K  LOOP ");
    push_decimal(&mut perf, state.runtime.loop_hz as u64);
    push_str(&mut perf, "Hz  LCD ");
    push_decimal(&mut perf, state.runtime.display_flush_ms as u64);
    push_str(&mut perf, "ms");
    assert(perf@ =~= timing_line(*state));
    put_string(cmds, 12, 78, perf, Font::Small, ink);
    line_to(cmds, 10, 98, 290, 98, ink, 1, 300, 400);
    let len = state.events.len();
    let available = len.saturating_sub(state.event_offset);
    let skip = available.saturating_sub(12);
    let ghost begin = cmds@;
    let mut index: usize = 0;
    while index < 12 && skip < len && index < len - skip
        invariant
            index <= 12,
            ink == BinaryColor::Off,
            len == state.events@.len(),
            skip == spec_events_skip(len, state.event_offset),
            skip <= len,
            index <= event_rows(*state),
            grows(old(cmds)@, cmds@, 300, 400),
            marks(cmds@) == with_event_rows(marks(begin), *state, index as nat),
        decreases 12 - index,
    {
        let event = &state.events[skip + index];
        let row = event_row(event.at_ms, event.source, event.detail.as_str());
        put_string(cmds, 12, 108 + index as i32 * 20, row, Font::Small, ink);
        index = index + 1;
    }
}

/// The settings rows in order.
pub open spec fn spec_settings_label(
    index: int,
    volume: u8,
    logging: bool,
    poweroff_prepared: bool,
) -> Seq<char> {
    if index == 0 {
        "Refresh display"@
    } else if index == 1 {
        "Speaker volume: "@ + decimal(volume as nat) + seq!['%']
    } else if index == 2 {
        "Test speaker tone"@
    } else if index == 3 {
        if logging {
            "Event log: ON"@
        } else {
            "Event log: OFF"@
        }
    } else if index == 4 {
        "Rescan SD files"@
    } else if poweroff_prepared {
        "Power off: READY"@
    } else {
        "Prepare power off"@
    }
}

fn settings_label(index: usize, volume: u8, logging: bool, poweroff_prepared: bool) -> (s: String)
    ensures
        s@ == spec_settings_label(index as int, volume, logging, poweroff_prepared),
{
    if index == 1 {
        let mut s = String::new();
        push_str(&mut s, "Speaker volume: ");
        push_decimal(&mut s, volume as u64);
        push_char(&mut s, '%');
        assert(s@ =~= spec_settings_label(index as int, volume, logging, poweroff_prepared));
        return s;
    }
    let text = if index == 0 {
        "Refresh display"
    } else if index == 2 {
        "Test speaker tone"
    } else if index == 3 {
        if logging {
            "Event log: ON"
        } else {
            "Event log: OFF"
        }
    } else if index == 4 {
        "Rescan SD files"
    } else if poweroff_prepared {
        "Power off: READY"
    } else {
        "Prepare power off"
    };
    text.to_owned()
}

/// `m` followed by settings row `i`: its frame and its label.
pub open spec fn with_settings_row(m: Seq<Mark<BinaryColor>>, state: DashboardState, i: int) -> Seq<
    Mark<BinaryColor>,
> {
    let selected = i == state.settings_index;
    m.push(row_box(10, 44 + 50 * i, 280, 38, selected)).push(
        text_mark(
            20,
            44 + 50 * i + 14,
            spec_settings_label(
                i,
                state.speaker_volume,
                state.event_logging_enabled,
                state.poweroff_prepared,
            ),
            Font::Small,
            row_ink(selected),
        ),
    )
}

/// `m` followed by the first `n` settings rows.
pub open spec fn with_settings_rows(m: Seq<Mark<BinaryColor>>, state: DashboardState, n: nat) -> Seq<
    Mark<BinaryColor>,
>
    decreases n,
{
    if n == 0 {
        m
    } else {
        with_settings_row(with_settings_rows(m, state, (n - 1) as nat), state, n - 1)
    }
}

/// `m` followed by the settings view: six rows, then the opt-in note.
pub open spec fn with_settings(m: Seq<Mark<BinaryColor>>, state: DashboardState) -> Seq<
    Mark<BinaryColor>,
> {
    with_settings_rows(m, state, 6).push(
        text_mark(12, 353, "Event logging and WAV recording are opt-in."@, Font::Small, ink()),
    )
}

/// System settings: six rows, the selected one in solid ink with white
/// text.
fn render_system_settings(cmds: &mut Vec<DrawCmd<BinaryColor>>, state: &DashboardState)
    ensures
        grows(old(cmds)@, final(cmds)@, 300, 400),
        marks(final(cmds)@) == with_settings(marks(old(cmds)@), *state),
{
    broadcast use marks_push;

    let ghost start = old(cmds)@;
    let mut index: usize = 0;
    while index < 6
        invariant
            index <= 6,
            grows(start, cmds@, 300, 400),
            marks(cmds@) == with_settings_rows(marks(start), *state, index as nat),
        decreases 6 - index,
    {
        let y: i32 = 44 + index as i32 * 50;
        let selected = state.settings_index as usize == index;
        if selected {
            fill_rect(cmds, 10, y, 280, 38, BinaryColor::Off, 300, 400);
        } else {
            outline_rect(cmds, 10, y, 280, 38, BinaryColor::Off, 1, 300, 400);
        }
        let label = settings_label(
            index,
            state.speaker_volume,
            state.event_logging_enabled,
            state.poweroff_prepared,
        );
        put_string(cmds, 20, y + 14, label, Font::Small, if selected {
            BinaryColor::On
        } else {
            BinaryColor::Off
        });
        index = index + 1;
    }
    put(cmds, 12, 353, "Event logging and WAV recording are opt-in.", Font::Small, BinaryColor::Off);
}

/// `m` followed by the black footer bar with the button legend in white.
pub open spec fn with_footer(m: Seq<Mark<BinaryColor>>, view: View) -> Seq<Mark<BinaryColor>> {
    m.push(fill_mark(0, 376, 300, 24, ink())).push(
        text_mark(6, 383, spec_footer_labels(view).0, Font::Small, bg()),
    ).push(text_mark(112, 383, "PWR HOLD OFF"@, Font::Small, bg())).push(
        text_mark(216, 383, spec_footer_labels(view).1, Font::Small, bg()),
    )
}

/// The footer legend for `view`.
fn render_footer(cmds: &mut Vec<DrawCmd<BinaryColor>>, view: View)
    ensures
        grows(old(cmds)@, final(cmds)@, 300, 400),
        marks(final(cmds)@) == with_footer(marks(old(cmds)@), view),
{
    broadcast use marks_push;

    fill_rect(cmds, 0, 376, 300, 24, BinaryColor::Off, 300, 400);
    let (key, boot) = footer_labels(view);
    put(cmds, 6, 383, key, Font::Small, BinaryColor::On);
    put(cmds, 112, 383, "PWR HOLD OFF", Font::Small, BinaryColor::On);
    put(cmds, 216, 383, boot, Font::Small, BinaryColor::On);
}

/// `m` followed by the body of `state.view`, under its heading unless the
/// view is home.
pub open spec fn with_view(m: Seq<Mark<BinaryColor>>, state: DashboardState) -> Seq<Mark<BinaryColor>> {
    if state.view == View::Home {
        with_home(m, state)
    } else {
        let titled = with_title(m, crate::dashboard::view_title(state.view));
        match state.view {
            View::Menu => with_menu_rows(titled, state.menu_index, 5),
            View::Recorder => with_recorder(titled, state),
            View::Files => with_files(titled, state),
            View::Player => with_player(titled, state),
            View::Viewer => with_viewer(titled, state),
            View::Live => with_live(titled, state),
            View::Diagnostics => with_diagnostics(titled, state),
            View::Settings => with_settings(titled, state),
            View::Home => titled,
        }
    }
}

/// What the reflective dashboard shows for `state`, first primitive first:
/// the panel cleared to white, the current view, then the footer legend.
pub open spec fn dashboard_marks(state: DashboardState) -> Seq<Mark<BinaryColor>> {
    with_footer(with_view(seq![Mark::Clear(bg())], state), state.view)
}

/// The whole reflective dashboard for `state`, first primitive first. Every
/// primitive lies on the 300x400 panel while both level histories hold at
/// most the ring's 72 levels; bars of levels past that fall to the right
/// of the panel, where painting clips them.
pub fn render_dashboard(state: &DashboardState) -> (cmds: Vec<DrawCmd<BinaryColor>>)
    requires
        state.view == View::Player ==> 268 * state.playback_position_ms <= u64::MAX,
    ensures
        state.audio.history_len <= 72 && state.playback_audio.history_len <= 72 ==> on_rlcd(
            cmds@,
        ),
        marks(cmds@) == dashboard_marks(*state),
{
    broadcast use marks_push;

    let mut cmds: Vec<DrawCmd<BinaryColor>> = Vec::new();
    cmds.push(DrawCmd::Clear(BinaryColor::On));
    assert(on_rlcd(cmds@));
    assert(marks(cmds@) =~= seq![Mark::Clear(bg())]);
    if state.view == View::Home {
        render_clock_home(&mut cmds, state);
    } else {
        render_title(&mut cmds, state.view.title());
        match state.view {
            View::Menu => render_menu(&mut cmds, state.menu_index),
            View::Recorder => render_recorder(&mut cmds, state),
            View::Files => render_files(&mut cmds, state),
            View::Player => render_player(&mut cmds, state),
            View::Viewer => render_viewer(&mut cmds, state),
            View::Live => render_live(&mut cmds, state),
            View::Diagnostics => render_diagnostics(&mut cmds, state),
            View::Settings => render_system_settings(&mut cmds, state),
            View::Home => {},
        }
    }
    render_footer(&mut cmds, state.view);
    cmds
}

/// The footer legend follows the buttons' physical order when facing the
/// panel, on every screen: KEY on the left, PWR in the middle, BOOT on the
/// right, in white on the black bar that closes the display list.
pub proof fn footer_follows_button_order(state: DashboardState)
    ensures
        ({
            let m = dashboard_marks(state);
            let n = m.len() as int;
            let (key, boot) = spec_footer_labels(state.view);
            &&& m[n - 4] == fill_mark(0, 376, 300, 24, ink())
            &&& m[n - 3] == text_mark(6, 383, key, Font::Small, bg())
            &&& m[n - 2] == text_mark(112, 383, "PWR HOLD OFF"@, Font::Small, bg())
            &&& m[n - 1] == text_mark(216, 383, boot, Font::Small, bg())
            &&& key.take(4) == "KEY "@
            &&& boot.take(5) == "BOOT "@
        }),
{
    reveal_strlit("KEY ");
    reveal_strlit("BOOT ");
    reveal_strlit("KEY HOME");
    reveal_strlit("KEY BACK");
    match state.view {
        View::Home => {
            reveal_strlit("BOOT MENU");
        },
        View::Menu | View::Files => {
            reveal_strlit("BOOT NEXT/OPEN");
        },
        View::Recorder => {
            reveal_strlit("BOOT REC/PLAY");
        },
        View::Player => {
            reveal_strlit("BOOT PLAY/STOP");
        },
        View::Viewer => {
            reveal_strlit("BOOT NEXT/TOP");
        },
        View::Live => {
            reveal_strlit("BOOT HOLD REC");
        },
        View::Diagnostics => {
            reveal_strlit("BOOT MORE/TOP");
        },
        View::Settings => {
            reveal_strlit("BOOT NEXT/SET");
        },
    }
    let (key, boot) = spec_footer_labels(state.view);
    assert(key.take(4) =~= "KEY "@);
    assert(boot.take(5) =~= "BOOT "@);
}

} // verus!
