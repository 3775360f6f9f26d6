//! Daemon-level decisions that surround serving: the AU-3 timestamp rendering,
//! the peer-less boot session id, the labels of transport rejections, the
//! process exit codes, and the classification of the posture marker read.
use crate::handler::{serve_outcome_to_exit_code, ServeOutcome, EXIT_FAILURE, EXIT_SUCCESS};
use crate::decimal::{
    decimal, decimal_value, lemma_decimal_len, lemma_decimal_len_four, lemma_padded, padded,
    push_decimal, push_padded,
};
use crate::posture::{posture_token, CredentialSource, Posture, PostureMarker};
use crate::serve::{record_of, Record};
use vstd::prelude::*;

verus! {

/// Gregorian leap year.
pub open spec fn is_leap(y: int) -> bool {
    y % 4 == 0 && (y % 100 != 0 || y % 400 == 0)
}

/// Days in year `y`.
pub open spec fn year_len(y: int) -> int {
    if is_leap(y) {
        366
    } else {
        365
    }
}

/// Days in month `m` (1 = January) of year `y`.
pub open spec fn month_len(y: int, m: int) -> int {
    if m == 2 {
        if is_leap(y) {
            29
        } else {
            28
        }
    } else if m == 4 || m == 6 || m == 9 || m == 11 {
        30
    } else {
        31
    }
}

/// Days from 1970-01-01 to January 1 of year `y`.
pub open spec fn days_before_year(y: int) -> int
    decreases y - 1970,
{
    if y <= 1970 {
        0
    } else {
        days_before_year(y - 1) + year_len(y - 1)
    }
}

/// Days from January 1 to the first of month `m` in year `y`.
pub open spec fn days_before_month(y: int, m: int) -> int
    decreases m,
{
    if m <= 1 {
        0
    } else {
        days_before_month(y, m - 1) + month_len(y, m - 1)
    }
}

/// `(y, m, d)` is the date `days` days after 1970-01-01.
pub open spec fn is_civil(days: int, y: int, m: int, d: int) -> bool {
    &&& y >= 1970
    &&& 1 <= m <= 12
    &&& 1 <= d <= month_len(y, m)
    &&& days_before_year(y) + days_before_month(y, m) + d - 1 == days
}

/// The leap years among 1..=n.
spec fn leaps_through(n: int) -> int {
    n / 4 - n / 100 + n / 400
}

proof fn lemma_leap_step(n: int)
    requires
        n >= 1,
    ensures
        leaps_through(n) - leaps_through(n - 1) == (if is_leap(n) { 1int } else { 0 }),
{
}

proof fn lemma_closed_form(y: int)
    requires
        y >= 1970,
    ensures
        days_before_year(y) == 365 * (y - 1970) + leaps_through(y - 1) - 477,
    decreases y - 1970,
{
    if y > 1970 {
        lemma_closed_form(y - 1);
        lemma_leap_step(y - 1);
    }
}

proof fn lemma_leaps_shift(m: int)
    ensures
        leaps_through(m + 400) == leaps_through(m) + 97,
{
    assert((m + 400) / 4 == m / 4 + 100);
    assert((m + 400) / 100 == m / 100 + 4);
    assert((m + 400) / 400 == m / 400 + 1);
}

proof fn lemma_leaps_period(n: int, k: nat)
    ensures
        leaps_through(n + 400 * k) == leaps_through(n) + 97 * k,
    decreases k,
{
    if k > 0 {
        let m = n + 400 * (k - 1);
        lemma_leaps_period(n, (k - 1) as nat);
        lemma_leaps_shift(m);
        assert(n + 400 * k == m + 400);
    }
}

/// Every 400 years hold 146097 days: whole eras shift the day count exactly.
proof fn lemma_era_shift(j: int, k: nat)
    requires
        j >= 0,
    ensures
        days_before_year(1970 + 400 * k + j) == 146097 * k + days_before_year(1970 + j),
{
    lemma_closed_form(1970 + 400 * k + j);
    lemma_closed_form(1970 + j);
    lemma_leaps_period(1969 + j, k);
    assert(1970 + 400 * k + j - 1 == (1969 + j) + 400 * k);
}

/// Each year holds 365 or 366 days.
proof fn lemma_year_span(y: int, j: nat)
    requires
        y >= 1970,
    ensures
        days_before_year(y) + 365 * j <= days_before_year(y + j) <= days_before_year(y) + 366 * j,
    decreases j,
{
    if j > 0 {
        lemma_year_span(y, (j - 1) as nat);
        assert(y + j - 1 == y + (j - 1));
    }
}

/// The month table: the days before each month, and the whole year.
proof fn lemma_month_table(y: int)
    ensures
        days_before_month(y, 13) == year_len(y),
        forall|m: int| 2 <= m <= 13 ==> #[trigger] days_before_month(y, m) == days_before_month(y, m - 1) + month_len(y, m - 1),
        forall|a: int, b: int| 1 <= a <= b <= 13 ==> #[trigger] days_before_month(y, a) <= #[trigger] days_before_month(y, b),
{
    reveal_with_fuel(days_before_month, 13);
    assert forall|a: int, b: int| 1 <= a <= b <= 13 implies #[trigger] days_before_month(y, a) <= #[trigger] days_before_month(y, b) by {
        lemma_month_monotone(y, a, b);
    }
}

proof fn lemma_month_monotone(y: int, a: int, b: int)
    requires
        1 <= a <= b,
    ensures
        days_before_month(y, a) <= days_before_month(y, b),
    decreases b - a,
{
    if a < b {
        lemma_month_monotone(y, a, b - 1);
    }
}

/// A day number names exactly one date.
pub proof fn lemma_civil_unique(days: int, y1: int, m1: int, d1: int, y2: int, m2: int, d2: int)
    requires
        is_civil(days, y1, m1, d1),
        is_civil(days, y2, m2, d2),
    ensures
        y1 == y2 && m1 == m2 && d1 == d2,
{
    lemma_month_table(y1);
    lemma_month_table(y2);
    if y1 < y2 {
        lemma_year_span(y1 + 1, (y2 - y1 - 1) as nat);
        assert(y1 + 1 + (y2 - y1 - 1) as nat == y2);
        assert(days_before_year(y1 + 1) == days_before_year(y1) + year_len(y1));
        assert(days_before_month(y1, m1 + 1) <= days_before_month(y1, 13));
    } else if y2 < y1 {
        lemma_year_span(y2 + 1, (y1 - y2 - 1) as nat);
        assert(y2 + 1 + (y1 - y2 - 1) as nat == y1);
        assert(days_before_year(y2 + 1) == days_before_year(y2) + year_len(y2));
        assert(days_before_month(y2, m2 + 1) <= days_before_month(y2, 13));
    } else if m1 < m2 {
        assert(days_before_month(y1, m1 + 1) <= days_before_month(y1, m2));
    } else if m2 < m1 {
        assert(days_before_month(y1, m2 + 1) <= days_before_month(y1, m1));
    }
}

/// Years past this bound are never reached from a `u64` count of seconds.
const YEAR_BOUND: u64 = 1_000_000_000_000;

fn leap(y: u64) -> (r: bool)
    ensures
        r == is_leap(y as int),
{
    y % 4 == 0 && (y % 100 != 0 || y % 400 == 0)
}

fn year_start(y: u64) -> (r: u64)
    requires
        1970 <= y <= YEAR_BOUND,
    ensures
        r == days_before_year(y as int),
{
    proof {
        lemma_closed_form(y as int);
        lemma_year_span(1970, (y - 1970) as nat);
    }
    let n = y - 1;
    let a = 365 * (y - 1970) + n / 4 + n / 400;
    (a - n / 100) - 477
}

fn month_start(y: u64, m: u64) -> (r: u64)
    requires
        1 <= m <= 13,
    ensures
        r == days_before_month(y as int, m as int),
{
    proof {
        reveal_with_fuel(days_before_month, 13);
    }
    let base: u64 = if m == 1 {
        0
    } else if m == 2 {
        31
    } else if m == 3 {
        59
    } else if m == 4 {
        90
    } else if m == 5 {
        120
    } else if m == 6 {
        151
    } else if m == 7 {
        181
    } else if m == 8 {
        212
    } else if m == 9 {
        243
    } else if m == 10 {
        273
    } else if m == 11 {
        304
    } else if m == 12 {
        334
    } else {
        365
    };
    if m > 2 && leap(y) {
        base + 1
    } else {
        base
    }
}

/// The date `days` days after 1970-01-01.
fn civil_from_days(days: u64) -> (r: (u64, u64, u64))
    requires
        days <= u64::MAX / 86400,
    ensures
        is_civil(days as int, r.0 as int, r.1 as int, r.2 as int),
{
    let era = days / 146097;
    let rest = days % 146097;
    let mut y: u64 = 1970 + 400 * era + rest / 366;
    proof {
        lemma_era_shift((rest / 366) as int, era as nat);
        lemma_year_span(1970, (rest / 366) as nat);
        lemma_year_span(1970, (y - 1970) as nat);
    }
    while year_start(y + 1) <= days
        invariant
            1970 <= y,
            days <= u64::MAX / 86400,
            days_before_year(y as int) <= days,
            365 * (y - 1970) <= days,
        decreases days - days_before_year(y as int),
    {
        proof {
            lemma_year_span(1970, (y + 1 - 1970) as nat);
            lemma_year_span(y as int, 1);
        }
        y = y + 1;
    }
    proof {
        lemma_year_span(1970, (y + 1 - 1970) as nat);
        lemma_month_table(y as int);
    }
    let doy = days - year_start(y);
    assert(doy < year_len(y as int));
    let mut m: u64 = 1;
    while m < 12 && month_start(y, m + 1) <= doy
        invariant
            1 <= m <= 12,
            days_before_month(y as int, m as int) <= doy,
            doy < year_len(y as int),
            days_before_month(y as int, 13) == year_len(y as int),
        decreases 12 - m,
    {
        m = m + 1;
    }
    let d = doy - month_start(y, m) + 1;
    (y, m, d)
}

/// The date `days` days after 1970-01-01, as (year, month, day).
pub open spec fn civil_of(days: int) -> (int, int, int) {
    choose|ymd: (int, int, int)| is_civil(days, ymd.0, ymd.1, ymd.2)
}

/// The RFC 3339 UTC rendering, at millisecond precision, of `secs` seconds
/// and `millis` milliseconds after the Unix epoch:
/// `YYYY-MM-DDTHH:MM:SS.mmmZ`, each field zero-padded to its width.
pub open spec fn rfc3339_text(secs: int, millis: int) -> Seq<char> {
    let (y, m, d) = civil_of(secs / 86400);
    let rem = secs % 86400;
    padded(y as nat, 4) + "-"@ + padded(m as nat, 2) + "-"@ + padded(d as nat, 2) + "T"@ + padded(
        (rem / 3600) as nat,
        2,
    ) + ":"@ + padded(((rem % 3600) / 60) as nat, 2) + ":"@ + padded((rem % 60) as nat, 2) + "."@
        + padded(millis as nat, 3) + "Z"@
}

/// The year a day from the epoch on falls in, searched from year `y`.
proof fn lemma_year_of(days: int, y: int) -> (r: int)
    requires
        y >= 1970,
        days_before_year(y) <= days,
    ensures
        r >= 1970,
        days_before_year(r) <= days < days_before_year(r + 1),
    decreases days - days_before_year(y),
{
    assert(days_before_year(y + 1) == days_before_year(y) + year_len(y));
    if days < days_before_year(y + 1) {
        y
    } else {
        lemma_year_of(days, y + 1)
    }
}

/// The month a day of year `y` falls in, searched from month `m`.
proof fn lemma_month_of(y: int, doy: int, m: int) -> (r: int)
    requires
        1 <= m <= 12,
        days_before_month(y, m) <= doy < days_before_month(y, 13),
    ensures
        1 <= r <= 12,
        days_before_month(y, r) <= doy < days_before_month(y, r + 1),
    decreases 12 - m,
{
    lemma_month_table(y);
    if doy < days_before_month(y, m + 1) {
        m
    } else {
        lemma_month_of(y, doy, m + 1)
    }
}

/// Every day from the epoch on has a date, the one `civil_of` names.
pub proof fn lemma_civil_exists(days: int)
    requires
        days >= 0,
    ensures
        is_civil(days, civil_of(days).0, civil_of(days).1, civil_of(days).2),
{
    let y = lemma_year_of(days, 1970);
    lemma_month_table(y);
    assert(days_before_year(y + 1) == days_before_year(y) + year_len(y));
    let doy = days - days_before_year(y);
    let m = lemma_month_of(y, doy, 1);
    let d = doy - days_before_month(y, m) + 1;
    assert(days_before_month(y, m + 1) == days_before_month(y, m) + month_len(y, m));
    let w = (y, m, d);
    assert(is_civil(days, w.0, w.1, w.2));
}

/// The fields a timestamp text spells: date, time of day and milliseconds.
pub open spec fn text_fields(secs: int, millis: int) -> (int, int, int, int, int, int, int) {
    let (y, m, d) = civil_of(secs / 86400);
    let rem = secs % 86400;
    (y, m, d, rem / 3600, (rem % 3600) / 60, rem % 60, millis)
}

/// A timestamp text before the year 10000 is 24 characters long, and each of
/// its fixed-width fields reads back as the field it spells.
proof fn lemma_text_layout(secs: int, millis: int)
    requires
        secs >= 0,
        0 <= millis < 1000,
        civil_of(secs / 86400).0 < 10000,
    ensures
        rfc3339_text(secs, millis).len() == 24,
        decimal_value(rfc3339_text(secs, millis).subrange(0, 4)) == text_fields(secs, millis).0,
        decimal_value(rfc3339_text(secs, millis).subrange(5, 7)) == text_fields(secs, millis).1,
        decimal_value(rfc3339_text(secs, millis).subrange(8, 10)) == text_fields(secs, millis).2,
        decimal_value(rfc3339_text(secs, millis).subrange(11, 13)) == text_fields(secs, millis).3,
        decimal_value(rfc3339_text(secs, millis).subrange(14, 16)) == text_fields(secs, millis).4,
        decimal_value(rfc3339_text(secs, millis).subrange(17, 19)) == text_fields(secs, millis).5,
        decimal_value(rfc3339_text(secs, millis).subrange(20, 23)) == text_fields(secs, millis).6,
{
    lemma_civil_exists(secs / 86400);
    let (y, m, d, h, mi, sc, ms) = text_fields(secs, millis);
    reveal_strlit("-");
    reveal_strlit("T");
    reveal_strlit(":");
    reveal_strlit(".");
    reveal_strlit("Z");
    lemma_decimal_len_four(y as nat);
    lemma_decimal_len(m as nat);
    lemma_decimal_len(d as nat);
    lemma_decimal_len(h as nat);
    lemma_decimal_len(mi as nat);
    lemma_decimal_len(sc as nat);
    lemma_decimal_len(ms as nat);
    lemma_padded(y as nat, 4);
    lemma_padded(m as nat, 2);
    lemma_padded(d as nat, 2);
    lemma_padded(h as nat, 2);
    lemma_padded(mi as nat, 2);
    lemma_padded(sc as nat, 2);
    lemma_padded(ms as nat, 3);
    let p0 = padded(y as nat, 4);
    let p1 = padded(m as nat, 2);
    let p2 = padded(d as nat, 2);
    let p3 = padded(h as nat, 2);
    let p4 = padded(mi as nat, 2);
    let p5 = padded(sc as nat, 2);
    let p6 = padded(ms as nat, 3);
    let t = rfc3339_text(secs, millis);
    assert(t == p0 + "-"@ + p1 + "-"@ + p2 + "T"@ + p3 + ":"@ + p4 + ":"@ + p5 + "."@ + p6 + "Z"@);
    assert(t.len() == 24);
    assert(t.subrange(0, 4) =~= p0);
    assert(t.subrange(5, 7) =~= p1);
    assert(t.subrange(8, 10) =~= p2);
    assert(t.subrange(11, 13) =~= p3);
    assert(t.subrange(14, 16) =~= p4);
    assert(t.subrange(17, 19) =~= p5);
    assert(t.subrange(20, 23) =~= p6);
}

/// A timestamp text before the year 10000 is 24 characters long, and two
/// instants with the same text are the same instant, to the millisecond.
pub proof fn law_timestamp_text_is_fixed_width_and_faithful(s1: nat, ms1: nat, s2: nat, ms2: nat)
    requires
        ms1 < 1000,
        ms2 < 1000,
        civil_of(s1 as int / 86400).0 < 10000,
        civil_of(s2 as int / 86400).0 < 10000,
    ensures
        rfc3339_text(s1 as int, ms1 as int).len() == 24,
        rfc3339_text(s1 as int, ms1 as int) == rfc3339_text(s2 as int, ms2 as int) ==> s1 == s2
            && ms1 == ms2,
{
    lemma_text_layout(s1 as int, ms1 as int);
    lemma_text_layout(s2 as int, ms2 as int);
    if rfc3339_text(s1 as int, ms1 as int) == rfc3339_text(s2 as int, ms2 as int) {
        let f1 = text_fields(s1 as int, ms1 as int);
        let f2 = text_fields(s2 as int, ms2 as int);
        assert(f1 == f2);
        let days1 = s1 / 86400;
        let days2 = s2 / 86400;
        lemma_civil_exists(days1 as int);
        lemma_civil_exists(days2 as int);
        assert(days1 == days2);
        let r1 = s1 % 86400;
        let r2 = s2 % 86400;
        assert(r1 == (r1 / 3600) * 3600 + ((r1 % 3600) / 60) * 60 + r1 % 60);
        assert(r2 == (r2 / 3600) * 3600 + ((r2 % 3600) / 60) * 60 + r2 % 60);
        assert(r1 == r2);
        assert(s1 == days1 * 86400 + r1);
        assert(s2 == days2 * 86400 + r2);
    }
}

/// The first second of the year 10000, counted from the epoch.
pub const YEAR_10000_SECS: u64 = 253_402_300_800;

/// Instants before `YEAR_10000_SECS` fall before the year 10000.
proof fn lemma_before_year_10000(secs: int)
    requires
        0 <= secs < YEAR_10000_SECS,
    ensures
        civil_of(secs / 86400).0 < 10000,
{
    let days = secs / 86400;
    lemma_civil_exists(days);
    let y = civil_of(days).0;
    lemma_closed_form(10000);
    assert(days_before_year(10000) == 2932897);
    if y >= 10000 {
        lemma_year_span(10000, (y - 10000) as nat);
        assert(10000 + (y - 10000) as nat == y);
        lemma_month_table(y);
        assert(days >= days_before_year(y));
    }
}

/// Before the year 10000 an epoch timestamp is 24 characters long, and
/// distinct instants, to the millisecond, give distinct texts.
pub proof fn law_epoch_text_fixed_width_and_distinct(s1: u64, ms1: u32, s2: u64, ms2: u32)
    requires
        s1 < YEAR_10000_SECS,
        s2 < YEAR_10000_SECS,
        ms1 < 1000,
        ms2 < 1000,
    ensures
        rfc3339_text(s1 as int, ms1 as int).len() == 24,
        (s1, ms1) != (s2, ms2) ==> rfc3339_text(s1 as int, ms1 as int) != rfc3339_text(
            s2 as int,
            ms2 as int,
        ),
{
    lemma_before_year_10000(s1 as int);
    lemma_before_year_10000(s2 as int);
    law_timestamp_text_is_fixed_width_and_faithful(s1 as nat, ms1 as nat, s2 as nat, ms2 as nat);
}

/// The epoch's own text.
pub proof fn lemma_epoch_text()
    ensures
        rfc3339_text(0, 0) == "1970-01-01T00:00:00.000Z"@,
        reading_text(None) == "1970-01-01T00:00:00.000Z"@,
{
    lemma_civil_exists(0);
    reveal_with_fuel(days_before_month, 2);
    assert(is_civil(0, 1970, 1, 1));
    let c = civil_of(0);
    lemma_civil_unique(0, c.0, c.1, c.2, 1970, 1, 1);
    reveal_with_fuel(decimal, 5);
    reveal_strlit("1970-01-01T00:00:00.000Z");
    reveal_strlit("-");
    reveal_strlit("T");
    reveal_strlit(":");
    reveal_strlit(".");
    reveal_strlit("Z");
    assert(padded(1970, 4) =~= seq!['1', '9', '7', '0']);
    assert(padded(1, 2) =~= seq!['0', '1']);
    assert(padded(0, 2) =~= seq!['0', '0']);
    assert(padded(0, 3) =~= seq!['0', '0', '0']);
    assert(rfc3339_text(0, 0) =~= "1970-01-01T00:00:00.000Z"@);
}

/// RFC 3339 UTC timestamp at millisecond precision of a time after the Unix
/// epoch.
pub fn epoch_to_rfc3339(secs: u64, millis: u32) -> (r: String)
    ensures
        r@ == rfc3339_text(secs as int, millis as int),
        secs < YEAR_10000_SECS && millis < 1000 ==> r@.len() == 24,
{
    proof {
        if secs < YEAR_10000_SECS && millis < 1000 {
            law_epoch_text_fixed_width_and_distinct(secs, millis, secs, millis);
        }
    }
    let days = secs / 86400;
    let rem = secs % 86400;
    let (y, m, d) = civil_from_days(days);
    proof {
        let c = civil_of(days as int);
        assert(is_civil(days as int, y as int, m as int, d as int));
        lemma_civil_unique(days as int, y as int, m as int, d as int, c.0, c.1, c.2);
    }
    let mut s = String::new();
    if y >= 10000 {
        push_decimal(&mut s, y);
        proof {
            lemma_decimal_len(y as nat);
            assert(Seq::new(0, |i: int| '0') + decimal(y as nat) =~= padded(y as nat, 4));
        }
    } else {
        push_padded(&mut s, y, 4);
    }
    s.append("-");
    push_padded(&mut s, m, 2);
    s.append("-");
    push_padded(&mut s, d, 2);
    s.append("T");
    push_padded(&mut s, rem / 3600, 2);
    s.append(":");
    push_padded(&mut s, (rem % 3600) / 60, 2);
    s.append(":");
    push_padded(&mut s, rem % 60, 2);
    s.append(".");
    if millis >= 1000 {
        push_decimal(&mut s, millis as u64);
        proof {
            lemma_decimal_len(millis as nat);
            assert(Seq::new(0, |i: int| '0') + decimal(millis as nat) =~= padded(millis as nat, 3));
        }
    } else {
        push_padded(&mut s, millis as u64, 3);
    }
    s.append("Z");
    s
}

/// The wall clock's type.
#[verifier::external_type_specification]
#[verifier::external_body]
pub struct ExSystemTime(std::time::SystemTime);

/// Calls `std::time::SystemTime::now`: the machine's wall clock, of which
/// nothing is claimed.
#[verifier::external_body]
fn system_now() -> std::time::SystemTime {
    std::time::SystemTime::now()
}

/// Calls `SystemTime::duration_since` against the Unix epoch: the time
/// elapsed since it, or `None` for a clock set before it. Nothing is claimed
/// of the value.
#[verifier::external_body]
fn since_unix_epoch(t: &std::time::SystemTime) -> Option<std::time::Duration> {
    t.duration_since(std::time::UNIX_EPOCH).ok()
}

/// Calls `Duration::as_secs`: the whole seconds of a duration. Nothing is
/// claimed of the value.
#[verifier::external_body]
fn whole_seconds(d: &std::time::Duration) -> u64 {
    d.as_secs()
}

/// Calls `Duration::subsec_millis`: the fractional part of a duration in
/// whole milliseconds, which std documents as always under one thousand.
#[verifier::external_body]
fn subsecond_millis(d: &std::time::Duration) -> (r: u32)
    ensures
        r < 1000,
{
    d.subsec_millis()
}

/// The timestamp text of a wall-clock reading: whole seconds and
/// milliseconds since the Unix epoch, or `None` for a clock set before the
/// epoch, which renders as the epoch itself.
pub open spec fn reading_text(reading: Option<(u64, u32)>) -> Seq<char> {
    match reading {
        Some((secs, millis)) => rfc3339_text(secs as int, millis as int),
        None => rfc3339_text(0, 0),
    }
}

/// The RFC 3339 UTC timestamp of a wall-clock reading; a reading from before
/// the Unix epoch gives the epoch, `1970-01-01T00:00:00.000Z`.
pub fn rfc3339_of_reading(reading: Option<(u64, u32)>) -> (r: String)
    ensures
        r@ == reading_text(reading),
        reading is None ==> r@ == "1970-01-01T00:00:00.000Z"@,
{
    proof {
        lemma_epoch_text();
    }
    match reading {
        Some((secs, millis)) => epoch_to_rfc3339(secs, millis),
        None => epoch_to_rfc3339(0, 0),
    }
}

/// Read the wall clock: seconds and milliseconds since the Unix epoch, or
/// `None` when the clock is set before it.
fn clock_reading() -> (reading: Option<(u64, u32)>)
    ensures
        reading matches Some((_, millis)) ==> millis < 1000,
{
    let now = system_now();
    match since_unix_epoch(&now) {
        Some(d) => Some((whole_seconds(&d), subsecond_millis(&d))),
        None => None,
    }
}

/// The current wall-clock time as an RFC 3339 UTC timestamp: the text of one
/// reading of the clock, the epoch for a clock set before it.
pub fn rfc3339_now() -> (r: String)
    ensures
        exists|reading: Option<(u64, u32)>|
            (reading matches Some((_, millis)) ==> millis < 1000) && r@ == #[trigger] reading_text(
                reading,
            ),
{
    let reading = clock_reading();
    let r = rfc3339_of_reading(reading);
    assert(r@ == reading_text(reading));
    r
}

/// Why the transport refused a connection before the kernel saw it.
#[derive(Debug, Clone, Copy, PartialEq, Eq, Structural)]
pub enum RejectReason {
    Handshake,
    HandshakeTimeout,
    WrongPlane,
    ExpiredOrInvalidCert,
    ChainOrCa,
    PeerCredCapture,
    Io,
}

/// The stable, non-leaky audit label of each rejection.
pub open spec fn reject_label(reason: RejectReason) -> Seq<char> {
    match reason {
        RejectReason::Handshake => "tls handshake failed"@,
        RejectReason::HandshakeTimeout => "handshake timeout"@,
        RejectReason::WrongPlane => "wrong plane uri-san"@,
        RejectReason::ExpiredOrInvalidCert => "expired or not-yet-valid cert"@,
        RejectReason::ChainOrCa => "chain/ca validation failed"@,
        RejectReason::PeerCredCapture => "peer-credential capture failed"@,
        RejectReason::Io => "socket accept io error"@,
    }
}

/// The audit label of a rejection.
pub fn reject_reason_str(reason: &RejectReason) -> (s: &'static str)
    ensures
        s@ == reject_label(*reason),
{
    match reason {
        RejectReason::Handshake => "tls handshake failed",
        RejectReason::HandshakeTimeout => "handshake timeout",
        RejectReason::WrongPlane => "wrong plane uri-san",
        RejectReason::ExpiredOrInvalidCert => "expired or not-yet-valid cert",
        RejectReason::ChainOrCa => "chain/ca validation failed",
        RejectReason::PeerCredCapture => "peer-credential capture failed",
        RejectReason::Io => "socket accept io error",
    }
}

/// Every rejection has a non-empty label of its own: two rejections with the
/// same label are the same rejection.
pub proof fn law_reject_labels_distinct_and_nonempty(a: RejectReason, b: RejectReason)
    ensures
        reject_label(a).len() > 0,
        reject_label(a) == reject_label(b) ==> a == b,
{
    reveal_strlit("tls handshake failed");
    reveal_strlit("handshake timeout");
    reveal_strlit("wrong plane uri-san");
    reveal_strlit("expired or not-yet-valid cert");
    reveal_strlit("chain/ca validation failed");
    reveal_strlit("peer-credential capture failed");
    reveal_strlit("socket accept io error");
    if reject_label(a) == reject_label(b) && a != b {
        assert(reject_label(a).len() != reject_label(b).len() || reject_label(a)[0] != reject_label(b)[0]
            || reject_label(a)[1] != reject_label(b)[1]);
    }
}

/// The peer-less session id every boot-level record shares: the boot nonce in
/// the high half, a counter floor of zero in the low half.
pub fn boot_session_id(boot_nonce: u32) -> (id: u64)
    ensures
        id == boot_nonce * 0x1_0000_0000,
{
    let n = boot_nonce as u64;
    assert(n << 32 == n * 0x1_0000_0000) by (bit_vector)
        requires
            n < 0x1_0000_0000,
    ;
    n << 32
}

/// Why the daemon refused to start.
#[derive(Debug, Clone, PartialEq, Eq)]
pub enum RunError {
    /// The boot-time authorization gate refused: the principal section is
    /// absent or malformed, or the policy decision point refused construction.
    Authz(String),
    /// Any other startup failure.
    Other(String),
}

impl RunError {
    /// The refusal's message.
    pub fn to_string(&self) -> (s: String)
        ensures
            s@ == (match *self {
                RunError::Authz(m) => m@,
                RunError::Other(m) => m@,
            }),
    {
        match self {
            RunError::Authz(m) => m.clone(),
            RunError::Other(m) => m.clone(),
        }
    }
}

/// The distinct process exit status of a refused authorization boot, apart
/// from every other failure's.
pub const AUTHZ_REFUSAL_EXIT_CODE: u8 = 3;

/// The process exit status of a finished run: the serve outcome's own
/// status, the authorization refusal's distinct status, and the generic
/// failure status for every other startup refusal.
pub open spec fn exit_code_for(result: Result<ServeOutcome, RunError>) -> u8 {
    match result {
        Ok(ServeOutcome::GracefulShutdown) => EXIT_SUCCESS,
        Ok(ServeOutcome::SupervisorExited(_)) => EXIT_FAILURE,
        Err(RunError::Authz(_)) => AUTHZ_REFUSAL_EXIT_CODE,
        Err(RunError::Other(_)) => EXIT_FAILURE,
    }
}

/// The process exit status of a finished run.
pub fn run_exit_code(result: &Result<ServeOutcome, RunError>) -> (code: u8)
    ensures
        code == exit_code_for(*result),
{
    match result {
        Ok(outcome) => serve_outcome_to_exit_code(outcome),
        Err(RunError::Authz(_)) => AUTHZ_REFUSAL_EXIT_CODE,
        Err(RunError::Other(_)) => EXIT_FAILURE,
    }
}

/// An authorization refusal is told apart from every other way a run ends,
/// and only a graceful shutdown exits successfully.
pub proof fn law_authz_refusal_exit_is_distinct(result: Result<ServeOutcome, RunError>)
    ensures
        exit_code_for(result) == AUTHZ_REFUSAL_EXIT_CODE <==> result matches Err(RunError::Authz(_)),
        exit_code_for(result) == EXIT_SUCCESS <==> result matches Ok(ServeOutcome::GracefulShutdown),
{
}

/// The posture marker file as read: a mapping from keys to values, each
/// value kept as its text when it is a string scalar, or any other document.
#[derive(Debug, Clone, PartialEq, Eq)]
pub enum MarkerDocument {
    Mapping(Vec<(String, Option<String>)>),
    NotAMapping,
}

/// Why a root-owned file could not be handed back: it does not exist, or any
/// other refusal, with its rendered message.
#[derive(Debug, Clone, PartialEq, Eq)]
pub enum LoadFailure {
    NotFound,
    Other(String),
}

/// What a posture marker read came to.
#[derive(Debug, Clone, PartialEq, Eq)]
pub enum MarkerOutcome {
    /// Never provisioned.
    Absent,
    /// Present, but not handed back; the refusal's message.
    Refused(String),
    /// Read and parsed.
    Loaded(MarkerDocument),
}

/// Classify a marker read by the kind of its failure alone: only a missing
/// file is absent; every other failure is a refusal.
pub fn classify_marker_load(result: Result<MarkerDocument, LoadFailure>) -> (o: MarkerOutcome)
    ensures
        result matches Ok(d) ==> o == MarkerOutcome::Loaded(d),
        result matches Err(LoadFailure::NotFound) ==> o == MarkerOutcome::Absent,
        result matches Err(LoadFailure::Other(m)) ==> o == MarkerOutcome::Refused(m),
{
    match result {
        Ok(value) => MarkerOutcome::Loaded(value),
        Err(LoadFailure::NotFound) => MarkerOutcome::Absent,
        Err(LoadFailure::Other(m)) => MarkerOutcome::Refused(m),
    }
}

/// The value of the first entry under `key` from position `i` on: `None`
/// when no entry has that key, `Some(None)` when its value is not a string.
pub open spec fn lookup_from(entries: Seq<(String, Option<String>)>, key: Seq<char>, i: int) -> Option<
    Option<String>,
>
    decreases entries.len() - i,
{
    if i < 0 || i >= entries.len() {
        None
    } else if entries[i].0@ == key {
        Some(entries[i].1)
    } else {
        lookup_from(entries, key, i + 1)
    }
}

/// The string value of the first entry under `key`.
pub open spec fn string_field(entries: Seq<(String, Option<String>)>, key: Seq<char>) -> Option<
    String,
> {
    match lookup_from(entries, key, 0) {
        Some(Some(v)) => Some(v),
        _ => None,
    }
}

/// The marker a document holds: a mapping with string `mechanism`, `target`
/// and `timestamp` fields, each taken from the first entry under its key.
pub open spec fn marker_in(doc: MarkerDocument) -> Option<PostureMarker> {
    match doc {
        MarkerDocument::NotAMapping => None,
        MarkerDocument::Mapping(entries) => {
            let es = entries@;
            if string_field(es, "mechanism"@) is Some && string_field(es, "target"@) is Some
                && string_field(es, "timestamp"@) is Some {
                Some(
                    PostureMarker {
                        mechanism: string_field(es, "mechanism"@)->0,
                        target: string_field(es, "target"@)->0,
                        timestamp: string_field(es, "timestamp"@)->0,
                    },
                )
            } else {
                None
            }
        },
    }
}

fn field(entries: &Vec<(String, Option<String>)>, key: &str) -> (r: Option<String>)
    ensures
        r == string_field(entries@, key@),
{
    let k = String::from_str(key);
    let mut i: usize = 0;
    while i < entries.len()
        invariant
            0 <= i <= entries@.len(),
            k@ == key@,
            lookup_from(entries@, key@, i as int) == lookup_from(entries@, key@, 0),
        decreases entries@.len() - i,
    {
        if entries[i].0 == k {
            return match &entries[i].1 {
                Some(v) => Some(v.clone()),
                None => None,
            };
        }
        i = i + 1;
    }
    None
}

/// Parse a posture marker; a document of the wrong shape, or missing a
/// field, holds none.
pub fn parse_posture_marker(doc: &MarkerDocument) -> (r: Option<PostureMarker>)
    ensures
        r == marker_in(*doc),
{
    let entries = match doc {
        MarkerDocument::Mapping(entries) => entries,
        MarkerDocument::NotAMapping => return None,
    };
    let mechanism = match field(entries, "mechanism") {
        Some(v) => v,
        None => return None,
    };
    let target = match field(entries, "target") {
        Some(v) => v,
        None => return None,
    };
    let timestamp = match field(entries, "timestamp") {
        Some(v) => v,
        None => return None,
    };
    Some(PostureMarker { mechanism, target, timestamp })
}

/// The marker a classified read yields: a loaded document's marker, and none
/// for an absent or refused file (the caller reports a refusal).
pub fn marker_of(outcome: &MarkerOutcome) -> (r: Option<PostureMarker>)
    ensures
        *outcome matches MarkerOutcome::Loaded(d) ==> r == marker_in(d),
        !(*outcome is Loaded) ==> r is None,
{
    match outcome {
        MarkerOutcome::Loaded(doc) => parse_posture_marker(doc),
        _ => None,
    }
}

/// `rel` joined beneath the directory `dir`, the way a filesystem path joins
/// one relative part.
pub open spec fn dir_join(dir: Seq<char>, rel: Seq<char>) -> Seq<char> {
    if dir.len() == 0 {
        rel
    } else if dir.last() == '/' {
        dir + rel
    } else {
        dir + "/"@ + rel
    }
}

/// The sealed credential this boot's configuration implies for its source:
/// the TPM-sealed and the Secure-Enclave-sealed file beneath `private/`, and
/// nothing for a plaintext source, whose posture ignores it.
pub open spec fn sealed_target(config_dir: Seq<char>, source: CredentialSource) -> Seq<char> {
    match source {
        CredentialSource::CredentialsDirectory => dir_join(config_dir, "private/maknaed-secret-id.cred"@),
        CredentialSource::SepSealed => dir_join(config_dir, "private/maknaed-secret-id.sep"@),
        CredentialSource::PlaintextPath => Seq::empty(),
    }
}

/// A sealed source's expected credential lies beneath `private/` inside the
/// configuration directory, with exactly one `/` between a non-empty
/// directory and `private/`; the TPM-sealed and the Secure-Enclave-sealed
/// file differ only in their file names.
pub proof fn law_sealed_targets_lie_beneath_the_config_dir(config_dir: Seq<char>)
    ensures
        config_dir.len() > 0 && config_dir.last() != '/' ==> sealed_target(
            config_dir,
            CredentialSource::SepSealed,
        ) == config_dir + "/private/maknaed-secret-id.sep"@ && sealed_target(
            config_dir,
            CredentialSource::CredentialsDirectory,
        ) == config_dir + "/private/maknaed-secret-id.cred"@,
        config_dir.len() > 0 && config_dir.last() == '/' ==> sealed_target(
            config_dir,
            CredentialSource::SepSealed,
        ) == config_dir + "private/maknaed-secret-id.sep"@ && sealed_target(
            config_dir,
            CredentialSource::CredentialsDirectory,
        ) == config_dir + "private/maknaed-secret-id.cred"@,
        config_dir.len() == 0 ==> sealed_target(config_dir, CredentialSource::SepSealed)
            == "private/maknaed-secret-id.sep"@,
        exists|prefix: Seq<char>|
            sealed_target(config_dir, CredentialSource::SepSealed) == prefix
                + "maknaed-secret-id.sep"@ && sealed_target(
                config_dir,
                CredentialSource::CredentialsDirectory,
            ) == prefix + "maknaed-secret-id.cred"@,
        sealed_target(config_dir, CredentialSource::PlaintextPath).len() == 0,
{
    reveal_strlit("/");
    reveal_strlit("private/maknaed-secret-id.sep");
    reveal_strlit("private/maknaed-secret-id.cred");
    reveal_strlit("/private/maknaed-secret-id.sep");
    reveal_strlit("/private/maknaed-secret-id.cred");
    reveal_strlit("maknaed-secret-id.sep");
    reveal_strlit("maknaed-secret-id.cred");
    reveal_strlit("private/");
    let base = if config_dir.len() == 0 {
        Seq::<char>::empty()
    } else if config_dir.last() == '/' {
        config_dir
    } else {
        config_dir + "/"@
    };
    let prefix = base + "private/"@;
    assert(sealed_target(config_dir, CredentialSource::SepSealed) =~= prefix
        + "maknaed-secret-id.sep"@);
    assert(sealed_target(config_dir, CredentialSource::CredentialsDirectory) =~= prefix
        + "maknaed-secret-id.cred"@);
    if config_dir.len() > 0 && config_dir.last() != '/' {
        assert(config_dir + "/"@ + "private/maknaed-secret-id.sep"@ =~= config_dir
            + "/private/maknaed-secret-id.sep"@);
        assert(config_dir + "/"@ + "private/maknaed-secret-id.cred"@ =~= config_dir
            + "/private/maknaed-secret-id.cred"@);
    }
}

fn join_beneath(dir: &str, rel: &str) -> (r: String)
    ensures
        r@ == dir_join(dir@, rel@),
{
    let n = dir.unicode_len();
    if n == 0 {
        return String::from_str(rel);
    }
    let mut r = String::from_str(dir);
    if dir.get_char(n - 1) != '/' {
        r.append("/");
    }
    r.append(rel);
    r
}

/// The sealed credential path a marker must attest for this boot.
pub fn expected_target(config_dir: &str, source: CredentialSource) -> (r: String)
    ensures
        r@ == sealed_target(config_dir@, source),
{
    match source {
        CredentialSource::CredentialsDirectory => join_beneath(config_dir, "private/maknaed-secret-id.cred"),
        CredentialSource::SepSealed => join_beneath(config_dir, "private/maknaed-secret-id.sep"),
        CredentialSource::PlaintextPath => String::new(),
    }
}

/// The boot record stating the credential posture.
pub fn posture_record(posture: Posture) -> (r: Record)
    ensures
        r@ == record_of(
            "boot"@,
            "posture"@,
            None,
            None,
            "permit"@,
            "boot credential posture recorded"@,
            posture_token(posture),
        ),
{
    Record {
        event: String::from_str("boot"),
        action: String::from_str("posture"),
        object: None,
        object_requested: None,
        result: String::from_str("permit"),
        reason: String::from_str("boot credential posture recorded"),
        posture: String::from_str(posture.as_str()),
    }
}

/// The boot record of a refused authorization gate, carrying its reason.
pub fn authz_refusal_record(reason: String) -> (r: Record)
    ensures
        r@ == record_of("boot"@, "authz"@, None, None, "deny"@, reason@, "unauthorized"@),
{
    Record {
        event: String::from_str("boot"),
        action: String::from_str("authz"),
        object: None,
        object_requested: None,
        result: String::from_str("deny"),
        reason,
        posture: String::from_str("unauthorized"),
    }
}

/// Why the credential supervisor stopped: the error its task returned, or,
/// when the task ended without returning (it panicked or was cancelled), a
/// reason naming how it ended.
pub fn supervisor_exit_reason(joined: Result<String, String>) -> (r: String)
    ensures
        joined matches Ok(e) ==> r == e,
        joined matches Err(how) ==> r@ == "credential supervisor task did not complete cleanly: "@
            + how@,
{
    match joined {
        Ok(e) => e,
        Err(how) => {
            let mut r = String::from_str("credential supervisor task did not complete cleanly: ");
            r.append(how.as_str());
            r
        },
    }
}

} // verus!
