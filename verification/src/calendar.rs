//! The proleptic Gregorian calendar that the touch clock's dates follow.

use vstd::prelude::*;
use crate::touch_runtime::spec_civil_from_days;

verus! {

/// A leap year: divisible by four, and by 400 if by 100.
pub open spec fn is_leap(year: int) -> bool {
    year % 4 == 0 && (year % 100 != 0 || year % 400 == 0)
}

/// Days in `month` (1..=12) of `year`.
pub open spec fn days_in_month(year: int, month: int) -> int {
    if month == 2 {
        if is_leap(year) {
            29
        } else {
            28
        }
    } else if month == 4 || month == 6 || month == 9 || month == 11 {
        30
    } else {
        31
    }
}

/// The date after `(year, month, day)`.
pub open spec fn next_date(date: (int, int, int)) -> (int, int, int) {
    let (year, month, day) = date;
    if day < days_in_month(year, month) {
        (year, month, day + 1)
    } else if month < 12 {
        (year, month + 1, 1)
    } else {
        (year + 1, 1, 1)
    }
}

/// Year of an era's day `doe`, counting years from March.
spec fn year_of_era(doe: int) -> int {
    (doe - doe / 1460 + doe / 36524 - doe / 146096) / 365
}

/// Days of an era before its year `y` begins.
spec fn days_before(y: int) -> int {
    365 * y + y / 4 - y / 100 + y / 400
}

/// Index from March of the month holding day `doy` of a March-based year.
spec fn month_index(doy: int) -> int {
    (5 * doy + 2) / 153
}

/// Day of a March-based year on which month index `mp` begins.
spec fn month_start(mp: int) -> int {
    (153 * mp + 2) / 5
}

proof fn year_brackets(doe: u32)
    requires
        doe < 146097,
    ensures
        0 <= year_of_era(doe as int) <= 399,
        days_before(year_of_era(doe as int)) <= doe < days_before(year_of_era(doe as int) + 1),
{
    assert(0 <= year_of_era(doe as int) <= 399 && days_before(year_of_era(doe as int)) <= doe
        && doe < days_before(year_of_era(doe as int) + 1)) by (bit_vector)
        requires
            doe < 146097,
    ;
}

proof fn days_before_monotone(a: u32, b: u32)
    requires
        a <= b <= 400,
    ensures
        days_before(a as int) <= days_before(b as int),
{
    assert(days_before(a as int) <= days_before(b as int)) by (bit_vector)
        requires
            a <= b <= 400,
    ;
}

proof fn year_length(y: u32)
    requires
        y <= 399,
    ensures
        days_before(y + 1) - days_before(y as int) == if is_leap(y + 1) {
            366int
        } else {
            365int
        },
        days_before(y as int) == 365 * y + y / 4 - y / 100,
{
    assert(days_before(y + 1) - days_before(y as int) == if is_leap(y + 1) {
        366int
    } else {
        365int
    }) by (bit_vector)
        requires
            y <= 399,
    ;
    assert(days_before(y as int) == 365 * y + y / 4 - y / 100) by (bit_vector)
        requires
            y <= 399,
    ;
}

proof fn month_brackets(doy: u32)
    requires
        doy <= 365,
    ensures
        0 <= month_index(doy as int) <= 11,
        month_start(month_index(doy as int)) <= doy < month_start(month_index(doy as int) + 1),
{
    assert(0 <= month_index(doy as int) <= 11 && month_start(month_index(doy as int)) <= doy
        && doy < month_start(month_index(doy as int) + 1)) by (bit_vector)
        requires
            doy <= 365,
    ;
}

proof fn month_step(doy: u32)
    requires
        doy < 365,
    ensures
        month_index(doy + 1) == month_index(doy as int) || (month_index(doy + 1) == month_index(
            doy as int,
        ) + 1 && doy + 1 == month_start(month_index(doy as int) + 1)),
        month_index(doy + 1) == month_index(doy as int) + 1 ==> doy + 1 == month_start(month_index(doy as int) + 1),
{
    month_brackets(doy);
    month_brackets((doy + 1) as u32);
    assert(month_index(doy + 1) == month_index(doy as int) || (month_index(doy + 1) == month_index(
            doy as int,
        ) + 1 && doy + 1 == month_start(month_index(doy as int) + 1))) by (bit_vector)
        requires
            doy < 365,
    ;
}

/// The date of an era's day `doe`, years counted from the era's start.
spec fn date_in_era(doe: int) -> (int, int, int) {
    let y = year_of_era(doe);
    let doy = doe - days_before(y);
    let mp = month_index(doy);
    let day = doy - month_start(mp) + 1;
    let month = if mp < 10 {
        mp + 3
    } else {
        mp - 9
    };
    (y + if month <= 2 {
        1int
    } else {
        0
    }, month, day)
}

proof fn date_in_era_matches(doe: u32)
    requires
        doe < 146097,
    ensures
        spec_civil_from_days(doe - 719468) == date_in_era(doe as int),
{
    year_brackets(doe);
    let y = year_of_era(doe as int);
    year_length(y as u32);
    assert((doe as int) / 146097 == 0);
    assert((doe as int) % 146097 == doe);
}

proof fn step_in_era(doe: u32)
    requires
        doe < 146096,
    ensures
        next_date(date_in_era(doe as int)) == date_in_era(doe + 1),
{
    let t = doe as int;
    year_brackets(doe);
    year_brackets((doe + 1) as u32);
    let y = year_of_era(t);
    let y1 = year_of_era(t + 1);
    year_length(y as u32);
    let doy = t - days_before(y);
    assert(0 <= doy <= 365);
    month_brackets(doy as u32);
    let mp = month_index(doy);
    let ylen = days_before(y + 1) - days_before(y);
    if t + 1 < days_before(y + 1) {
        if y1 < y {
            days_before_monotone((y1 + 1) as u32, y as u32);
        } else if y1 > y {
            days_before_monotone((y + 1) as u32, y1 as u32);
        }
        assert(y1 == y);
        assert(doy < 365);
        month_step(doy as u32);
        month_brackets((doy + 1) as u32);
        if mp == 11 {
            assert(month_start(11) == 337);
            assert(month_index(doy + 1) == 11) by {
                if month_index(doy + 1) == 12 {
                    assert(month_start(12) == 367);
                }
            }
        } else {
            assert(month_start(1) == 31 && month_start(2) == 61 && month_start(3) == 92
                && month_start(4) == 122 && month_start(5) == 153 && month_start(6) == 184
                && month_start(7) == 214 && month_start(8) == 245 && month_start(9) == 275
                && month_start(10) == 306 && month_start(11) == 337);
        }
    } else {
        assert(t + 1 == days_before(y + 1));
        if y1 < y + 1 {
            days_before_monotone((y1 + 1) as u32, y as u32);
            assert(false);
        } else if y1 > y + 1 {
            days_before_monotone((y + 2) as u32, y1 as u32);
            assert(false);
        }
        assert(y1 == y + 1);
        year_length(y1 as u32);
        assert(month_start(11) == 337 && month_start(12) == 367);
        assert(month_index(0) == 0 && month_start(0) == 0);
        assert(mp == 11);
    }
}

/// A date `years` years later in the 400-year cycle falls on the same
/// month and day, and the cycle keeps leap years.
proof fn shift_by_eras(date: (int, int, int), era: int)
    ensures
        next_date((date.0 + 400 * era, date.1, date.2)) == ({
            let n = next_date(date);
            (n.0 + 400 * era, n.1, n.2)
        }),
{
    let y = date.0;
    assert((y + 400 * era) % 4 == y % 4 && (y + 400 * era) % 100 == y % 100 && (y + 400 * era)
        % 400 == y % 400) by (nonlinear_arith);
}

/// The date of day `days` is its era's date shifted by whole eras.
proof fn date_by_era(days: int)
    ensures
        ({
            let z = days + 719468;
            let d = date_in_era(z % 146097);
            spec_civil_from_days(days) == (d.0 + 400 * (z / 146097), d.1, d.2)
        }),
{
    let z = days + 719468;
    let r = z % 146097;
    date_in_era_matches(r as u32);
    assert((r + 719468 - 719468) / 146097 == 0);
    year_brackets(r as u32);
    year_length(year_of_era(r) as u32);
}

proof fn epoch_date()
    ensures
        spec_civil_from_days(0) == (1970int, 1int, 1int),
{
    date_by_era(0);
    assert(719468int / 146097 == 4 && 719468int % 146097 == 135080);
    assert(year_of_era(135080) == 369);
    assert(days_before(369) == 134774);
    assert(month_index(306) == 10 && month_start(10) == 306);
}

proof fn step_inside_era(days: int)
    requires
        (days + 719468) % 146097 < 146096,
    ensures
        next_date(spec_civil_from_days(days)) == spec_civil_from_days(days + 1),
{
    date_by_era(days);
    date_by_era(days + 1);
    let z = days + 719468;
    let e = z / 146097;
    let r = z % 146097;
    vstd::arithmetic::div_mod::lemma_fundamental_div_mod_converse(z + 1, 146097, e, r + 1);
    step_in_era(r as u32);
    shift_by_eras(date_in_era(r), e);
}

proof fn step_across_eras(days: int)
    requires
        (days + 719468) % 146097 == 146096,
    ensures
        next_date(spec_civil_from_days(days)) == spec_civil_from_days(days + 1),
{
    date_by_era(days);
    date_by_era(days + 1);
    let z = days + 719468;
    let e = z / 146097;
    vstd::arithmetic::div_mod::lemma_fundamental_div_mod_converse(z + 1, 146097, e + 1, 0);
    assert(year_of_era(146096) == 399);
    assert(days_before(399) == 145731);
    assert(month_index(365) == 11 && month_start(11) == 337);
    assert(date_in_era(146096) == (400int, 2int, 29int));
    assert(year_of_era(0) == 0 && days_before(0) == 0);
    assert(month_index(0) == 0 && month_start(0) == 0);
    assert(date_in_era(0) == (0int, 3int, 1int));
    shift_by_eras((400, 2, 29), e);
    assert(400 + 400 * e == 0 + 400 * (e + 1));
}

/// An era's date has a month of the year and a day inside that month.
proof fn era_date_is_valid(doe: u32)
    requires
        doe < 146097,
    ensures
        1 <= date_in_era(doe as int).1 <= 12,
        1 <= date_in_era(doe as int).2 <= days_in_month(
            date_in_era(doe as int).0,
            date_in_era(doe as int).1,
        ),
{
    year_brackets(doe);
    let y = year_of_era(doe as int);
    year_length(y as u32);
    let doy = doe - days_before(y);
    assert(0 <= doy <= 365);
    month_brackets(doy as u32);
    assert(month_start(0) == 0 && month_start(1) == 31 && month_start(2) == 61 && month_start(3)
        == 92 && month_start(4) == 122 && month_start(5) == 153 && month_start(6) == 184
        && month_start(7) == 214 && month_start(8) == 245 && month_start(9) == 275 && month_start(
        10,
    ) == 306 && month_start(11) == 337 && month_start(12) == 367);
}

/// Every day count names a real calendar date: its month lies in 1..=12
/// and its day in 1..=the days of that month.
pub proof fn day_counts_name_valid_dates(days: int)
    ensures
        1 <= spec_civil_from_days(days).1 <= 12,
        1 <= spec_civil_from_days(days).2 <= days_in_month(
            spec_civil_from_days(days).0,
            spec_civil_from_days(days).1,
        ),
{
    date_by_era(days);
    let z = days + 719468;
    let e = z / 146097;
    let r = z % 146097;
    era_date_is_valid(r as u32);
    let y = date_in_era(r).0;
    assert((y + 400 * e) % 4 == y % 4 && (y + 400 * e) % 100 == y % 100 && (y + 400 * e) % 400
        == y % 400) by (nonlinear_arith);
}

/// Day 0 is 1970-01-01, and consecutive day counts name consecutive dates
/// of the proleptic Gregorian calendar: the dates the touch clock shows
/// are the calendar's, for every day count.
pub proof fn days_count_calendar_dates(days: int)
    ensures
        spec_civil_from_days(0) == (1970int, 1int, 1int),
        next_date(spec_civil_from_days(days)) == spec_civil_from_days(days + 1),
{
    epoch_date();
    if (days + 719468) % 146097 < 146096 {
        step_inside_era(days);
    } else {
        step_across_eras(days);
    }
}

} // verus!
