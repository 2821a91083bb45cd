//! The text of the progress, remaining-time and update-time cells of the task table.
use crate::text::{decimal, push_char, push_decimal, push_padded, zero_pad};
use vstd::prelude::*;

verus! {

/// `"{p}%"`, or nothing when the progress is unknown.
pub open spec fn progress_text(p: Option<u8>) -> Seq<char> {
    match p {
        Some(v) => decimal(v as nat).push('%'),
        None => Seq::empty(),
    }
}

pub fn format_progress(progress_percent: Option<u8>) -> (r: String)
    ensures
        r@ == progress_text(progress_percent),
{
    let mut s = String::new();
    if let Some(p) = progress_percent {
        push_decimal(&mut s, p as u64);
        push_char(&mut s, '%');
        assert(s@ =~= decimal(p as nat).push('%'));
    }
    s
}

/// `h:mm:ss` when at least an hour, else `m:ss`; nothing for a negative duration.
pub open spec fn duration_text(seconds: int) -> Seq<char> {
    if seconds < 0 {
        Seq::empty()
    } else {
        let hours = seconds / 3600;
        let minutes = seconds % 3600 / 60;
        let secs = seconds % 60;
        if hours > 0 {
            decimal(hours as nat) + seq![':'] + zero_pad(decimal(minutes as nat), 2) + seq![':']
                + zero_pad(decimal(secs as nat), 2)
        } else {
            decimal(minutes as nat) + seq![':'] + zero_pad(decimal(secs as nat), 2)
        }
    }
}

pub fn format_duration(seconds: i64) -> (r: String)
    ensures
        r@ == duration_text(seconds as int),
{
    let mut s = String::new();
    if seconds < 0 {
        return s;
    }
    let hours = seconds / 3600;
    let minutes = seconds % 3600 / 60;
    let secs = seconds % 60;
    if hours > 0 {
        push_decimal(&mut s, hours as u64);
        push_char(&mut s, ':');
        push_padded(&mut s, minutes as u64, 2);
        push_char(&mut s, ':');
        push_padded(&mut s, secs as u64, 2);
        assert(s@ =~= decimal(hours as nat) + seq![':'] + zero_pad(decimal(minutes as nat), 2)
            + seq![':'] + zero_pad(decimal(secs as nat), 2));
    } else {
        push_decimal(&mut s, minutes as u64);
        push_char(&mut s, ':');
        push_padded(&mut s, secs as u64, 2);
        assert(s@ =~= decimal(minutes as nat) + seq![':'] + zero_pad(decimal(secs as nat), 2));
    }
    s
}

/// The remaining time, or nothing when unknown.
pub open spec fn eta_text(eta: Option<i64>) -> Seq<char> {
    match eta {
        Some(v) => duration_text(v as int),
        None => Seq::empty(),
    }
}

pub fn format_eta(eta_seconds: Option<i64>) -> (r: String)
    ensures
        r@ == eta_text(eta_seconds),
{
    match eta_seconds {
        Some(v) => format_duration(v),
        None => String::new(),
    }
}

/// The proleptic Gregorian date `(year, month, day)` of the day that lies `days`
/// days after 1970-01-01, by the era-based civil calendar computation.
pub open spec fn civil(days: int) -> (int, int, int) {
    let z = days + 719468;
    let era = (if z >= 0 { z } else { z - 146096 }) / 146097;
    let doe = z - era * 146097;
    let yoe = (doe - doe / 1460 + doe / 36524 - doe / 146096) / 365;
    let doy = doe - (365 * yoe + yoe / 4 - yoe / 100);
    let mp = (5 * doy + 2) / 153;
    let day = doy - (153 * mp + 2) / 5 + 1;
    let month = mp + if mp < 10 { 3int } else { -9int };
    let year = yoe + era * 400 + if month <= 2 { 1int } else { 0int };
    (year, month, day)
}

/// The day of era, year of era and day of year stay in their calendar ranges.
proof fn lemma_civil_ranges(z: int)
    requires
        z >= 0,
    ensures
        ({
            let era = z / 146097;
            let doe = z - era * 146097;
            let yoe = (doe - doe / 1460 + doe / 36524 - doe / 146096) / 365;
            let doy = doe - (365 * yoe + yoe / 4 - yoe / 100);
            let mp = (5 * doy + 2) / 153;
            &&& 0 <= era
            &&& 0 <= doe < 146097
            &&& 0 <= yoe <= 399
            &&& 0 <= doy <= 365
            &&& 0 <= mp <= 11
            &&& 1 <= doy - (153 * mp + 2) / 5 + 1 <= 31
        }),
{
    let era = z / 146097;
    let doe = z - era * 146097;
    assert(0 <= doe < 146097) by (nonlinear_arith)
        requires
            z >= 0,
            era == z / 146097,
            doe == z - era * 146097,
    ;
    assert(0 <= era) by (nonlinear_arith)
        requires
            z >= 0,
            era == z / 146097,
    ;
    let yoe = (doe - doe / 1460 + doe / 36524 - doe / 146096) / 365;
    assert(0 <= yoe <= 399) by (nonlinear_arith)
        requires
            0 <= doe < 146097,
            yoe == (doe - doe / 1460 + doe / 36524 - doe / 146096) / 365,
    ;
    let doy = doe - (365 * yoe + yoe / 4 - yoe / 100);
    assert(0 <= doy <= 365) by (nonlinear_arith)
        requires
            0 <= doe < 146097,
            yoe == (doe - doe / 1460 + doe / 36524 - doe / 146096) / 365,
            doy == doe - (365 * yoe + yoe / 4 - yoe / 100),
    ;
    let mp = (5 * doy + 2) / 153;
    assert(0 <= mp <= 11) by (nonlinear_arith)
        requires
            0 <= doy <= 365,
            mp == (5 * doy + 2) / 153,
    ;
    assert(1 <= doy - (153 * mp + 2) / 5 + 1 <= 31) by (nonlinear_arith)
        requires
            0 <= doy <= 365,
            mp == (5 * doy + 2) / 153,
    ;
}

/// Law: for any day on or after 1970-01-01 the month lies in 1..=12, the day of
/// the month in 1..=31 and the year is at least 1970.
pub proof fn law_civil_date_ranges(days: int)
    requires
        days >= 0,
    ensures
        1 <= civil(days).1 <= 12,
        1 <= civil(days).2 <= 31,
        civil(days).0 >= 1970,
{
    let z = days + 719468;
    lemma_civil_ranges(z);
    let era = z / 146097;
    let doe = z - era * 146097;
    let yoe = (doe - doe / 1460 + doe / 36524 - doe / 146096) / 365;
    assert(era >= 4 || (era == 4 && yoe >= 370) || true);
    assert(yoe + era * 400 >= 1969) by (nonlinear_arith)
        requires
            z >= 719468,
            era == z / 146097,
            doe == z - era * 146097,
            0 <= doe < 146097,
            yoe == (doe - doe / 1460 + doe / 36524 - doe / 146096) / 365,
    ;
    let doy = doe - (365 * yoe + yoe / 4 - yoe / 100);
    let mp = (5 * doy + 2) / 153;
    let month = mp + if mp < 10 { 3int } else { -9int };
    if yoe + era * 400 == 1969 {
        assert(month <= 2) by (nonlinear_arith)
            requires
                z >= 719468,
                era == z / 146097,
                doe == z - era * 146097,
                yoe == (doe - doe / 1460 + doe / 36524 - doe / 146096) / 365,
                yoe + era * 400 == 1969,
                doy == doe - (365 * yoe + yoe / 4 - yoe / 100),
                mp == (5 * doy + 2) / 153,
                month == mp + if mp < 10 { 3int } else { -9int },
        ;
    }
}

/// The date of a day on or after 1970-01-01.
fn civil_from_days(days: i64) -> (r: (i64, i64, i64))
    requires
        0 <= days <= 200_000_000_000_000,
    ensures
        r.0 == civil(days as int).0,
        r.1 == civil(days as int).1,
        r.2 == civil(days as int).2,
{
    let z = days + 719_468;
    proof {
        lemma_civil_ranges(z as int);
        assert(z / 146097 <= 2_000_000_000_000) by (nonlinear_arith)
            requires
                0 <= z <= 200_000_000_719_468,
        ;
    }
    let era = z / 146_097;
    let day_of_era = z - era * 146_097;
    let year_of_era = (day_of_era - day_of_era / 1_460 + day_of_era / 36_524 - day_of_era / 146_096)
        / 365;
    let day_of_year = day_of_era - (365 * year_of_era + year_of_era / 4 - year_of_era / 100);
    let month_prime = (5 * day_of_year + 2) / 153;
    let day = day_of_year - (153 * month_prime + 2) / 5 + 1;
    let month = month_prime + if month_prime < 10 { 3 } else { -9 };
    let year = year_of_era + era * 400 + if month <= 2 { 1 } else { 0 };
    (year, month, day)
}

/// `YYYY-MM-DD hh:mm:ss` in UTC for a non-negative Unix time; nothing before 1970.
pub open spec fn timestamp_text(t: int) -> Seq<char> {
    if t < 0 {
        Seq::empty()
    } else {
        let (y, m, d) = civil(t / 86400);
        let s = t % 86400;
        zero_pad(decimal(y as nat), 4) + seq!['-'] + zero_pad(decimal(m as nat), 2) + seq!['-']
            + zero_pad(decimal(d as nat), 2) + seq![' '] + zero_pad(decimal((s / 3600) as nat), 2)
            + seq![':'] + zero_pad(decimal((s % 3600 / 60) as nat), 2) + seq![':'] + zero_pad(
            decimal((s % 60) as nat),
            2,
        )
    }
}

pub fn format_timestamp(timestamp: i64) -> (r: String)
    ensures
        r@ == timestamp_text(timestamp as int),
{
    let mut s = String::new();
    if timestamp < 0 {
        return s;
    }
    let days = timestamp / 86_400;
    let seconds_in_day = timestamp % 86_400;
    proof {
        law_civil_date_ranges(days as int);
    }
    let (year, month, day) = civil_from_days(days);
    let hour = seconds_in_day / 3_600;
    let minute = seconds_in_day % 3_600 / 60;
    let second = seconds_in_day % 60;
    push_padded(&mut s, year as u64, 4);
    push_char(&mut s, '-');
    push_padded(&mut s, month as u64, 2);
    push_char(&mut s, '-');
    push_padded(&mut s, day as u64, 2);
    push_char(&mut s, ' ');
    push_padded(&mut s, hour as u64, 2);
    push_char(&mut s, ':');
    push_padded(&mut s, minute as u64, 2);
    push_char(&mut s, ':');
    push_padded(&mut s, second as u64, 2);
    assert(s@ =~= timestamp_text(timestamp as int));
    s
}

} // verus!
