//! The audit timestamp and build identifiers of diagnostics.

use crate::text::{
    append_str, chars_of, is_blank, str_is_blank, nat_decimal, push_char, string_of, trim, trim_str,
    u64_decimal,
};
use std::time::{Duration, SystemTime, UNIX_EPOCH};
use vstd::arithmetic::div_mod::lemma_fundamental_div_mod_converse;
use vstd::prelude::*;

verus! {

#[verifier::external_type_specification]
#[verifier::external_body]
pub struct ExSystemTime(SystemTime);

/// std's `SystemTime::now`: the system clock's current time. Nothing is
/// promised of the value.
#[verifier::external_body]
fn system_time_now() -> SystemTime {
    SystemTime::now()
}

/// std's `SystemTime::duration_since(UNIX_EPOCH)`: `Some` of the time elapsed
/// since 1970-01-01T00:00:00Z, or `None` where std reports `t` to lie before
/// it. Nothing is promised of the value, which depends on the clock.
#[verifier::external_body]
fn since_unix_epoch(t: &SystemTime) -> Option<Duration> {
    match t.duration_since(UNIX_EPOCH) {
        Ok(d) => Some(d),
        Err(_) => None,
    }
}

/// std's `Duration::as_secs`: the whole seconds of a duration. The duration
/// is opaque here, so nothing is promised of the value.
#[verifier::external_body]
fn duration_secs(d: &Duration) -> u64 {
    d.as_secs()
}

/// Whether `y` is a leap year of the Gregorian calendar.
pub open spec fn is_leap(y: int) -> bool {
    y % 4 == 0 && (y % 100 != 0 || y % 400 == 0)
}

/// The number of days of month `m` (1..=12) in year `y`.
pub open spec fn days_in_month(y: int, m: int) -> int {
    if m == 2 {
        if is_leap(y) {
            29
        } else {
            28
        }
    } else if m == 4 || m == 6 || m == 9 || m == 11 {
        30
    } else {
        31
    }
}

/// `(y, m, d)` is a date of the proleptic Gregorian calendar.
pub open spec fn valid_date(y: int, m: int, d: int) -> bool {
    1 <= m <= 12 && 1 <= d <= days_in_month(y, m)
}

/// The number of days from 1970-01-01 to the date `(y, m, d)`, counting with
/// years that begin in March so that the leap day comes last.
pub open spec fn days_from_civil(y: int, m: int, d: int) -> int {
    let y2 = if m <= 2 {
        y - 1
    } else {
        y
    };
    let era = y2 / 400;
    let yoe = y2 - era * 400;
    let mp = if m > 2 {
        m - 3
    } else {
        m + 9
    };
    let doy = (153 * mp + 2) / 5 + d - 1;
    let doe = yoe * 365 + yoe / 4 - yoe / 100 + doy;
    era * 146097 + doe - 719468
}

/// Within a 400-year cycle, the March-based year `yoe` of day `doe` is below 400.
#[verifier::rlimit(100)]
proof fn lemma_cycle_year(doe: u32, yoe: u32)
    by (bit_vector)
    requires
        doe < 146097,
        yoe == (doe - doe / 1460 + doe / 36524 - doe / 146096) / 365,
    ensures
        yoe < 400,
        365 * yoe + yoe / 4 - yoe / 100 <= doe,
{
}

/// Within a 400-year cycle, the day of year of day `doe` is at most 365, and
/// reaches 365 only in a year followed by a leap February.
#[verifier::rlimit(100)]
proof fn lemma_cycle_day(doe: u32, yoe: u32, doy: u32)
    by (bit_vector)
    requires
        doe < 146097,
        yoe == (doe - doe / 1460 + doe / 36524 - doe / 146096) / 365,
        yoe < 400,
        365 * yoe + yoe / 4 - yoe / 100 <= doe,
        doy == doe - (365 * yoe + yoe / 4 - yoe / 100),
    ensures
        doy <= 365,
        doy == 365 ==> (((yoe + 1) as u32) % 4 == 0 && (((yoe + 1) as u32) % 100 != 0 || ((yoe
            + 1) as u32) % 400 == 0)),
{
}

/// Within a March-based year, the month index `mp` and day `d` of day-of-year `doy`.
proof fn lemma_year_day(doy: u32, mp: u32, start: u32)
    by (bit_vector)
    requires
        doy <= 365,
        mp == ((5 * doy + 2) / 153) as u32,
        start == ((153 * mp + 2) / 5) as u32,
    ensures
        mp <= 11,
        start <= doy,
        doy < (start + 31) as u32,
        (mp == 1 || mp == 3 || mp == 6 || mp == 8) ==> doy < (start + 30) as u32,
        mp == 11 ==> doy < (start + 29) as u32,
        (mp == 11 && doy < 365) ==> doy < (start + 28) as u32,
{
}

/// The date `days` days after 1970-01-01: `(year, month, day)`.
pub open spec fn civil_from_days(days: int) -> (int, int, int) {
    let z = days + 719468;
    let era = z / 146097;
    let doe = z - era * 146097;
    let yoe = (doe - doe / 1460 + doe / 36524 - doe / 146096) / 365;
    let y = yoe + era * 400;
    let doy = doe - (365 * yoe + yoe / 4 - yoe / 100);
    let mp = (5 * doy + 2) / 153;
    let d = doy - (153 * mp + 2) / 5 + 1;
    let m = if mp < 10 {
        mp + 3
    } else {
        mp - 9
    };
    (if m <= 2 {
        y + 1
    } else {
        y
    }, m, d)
}

/// Law of the calendar: the date computed for a day number is a valid date,
/// and counting days back from it gives that day number again.
pub proof fn lemma_civil_from_days(days: int)
    ensures
        valid_date(civil_from_days(days).0, civil_from_days(days).1, civil_from_days(days).2),
        days_from_civil(civil_from_days(days).0, civil_from_days(days).1, civil_from_days(days).2)
            == days,
{
    let z = days + 719468;
    let era = z / 146097;
    let doe = z - era * 146097;
    assert(0 <= doe < 146097);
    let doe_u = doe as u32;
    let yoe = (doe - doe / 1460 + doe / 36524 - doe / 146096) / 365;
    let yoe_u = ((doe_u - doe_u / 1460 + doe_u / 36524 - doe_u / 146096) / 365) as u32;
    assert(yoe == yoe_u);
    lemma_cycle_year(doe_u, yoe_u);
    let doy = doe - (365 * yoe + yoe / 4 - yoe / 100);
    let doy_u = (doe_u - (365 * yoe_u + yoe_u / 4 - yoe_u / 100)) as u32;
    assert(doy == doy_u);
    lemma_cycle_day(doe_u, yoe_u, doy_u);
    assert(0 <= yoe < 400);
    assert(0 <= doy <= 365);
    let mp = (5 * doy + 2) / 153;
    let mp_u = ((5 * doy_u + 2) / 153) as u32;
    let start_u = ((153 * mp_u + 2) / 5) as u32;
    lemma_year_day(doy_u, mp_u, start_u);
    let y = yoe + era * 400;
    let d = doy - (153 * mp + 2) / 5 + 1;
    let m = if mp < 10 {
        mp + 3
    } else {
        mp - 9
    };
    let yy = if m <= 2 {
        y + 1
    } else {
        y
    };
    assert(civil_from_days(days) == (yy, m, d));
    // Counting back: the March-based year is y again and its era is `era`.
    let y2 = if m <= 2 {
        yy - 1
    } else {
        yy
    };
    assert(y2 == y);
    assert(y2 / 400 == era);
    assert(y2 - (y2 / 400) * 400 == yoe);
    let mp2 = if m > 2 {
        m - 3
    } else {
        m + 9
    };
    assert(mp2 == mp);
    // February of a leap March-based year.
    if m == 2 && doy == 365 {
        assert((yoe + 1) % 4 == 0 && ((yoe + 1) % 100 != 0 || (yoe + 1) % 400 == 0));
        assert(yy == yoe + 1 + era * 400);
        assert(yy % 4 == (yoe + 1) % 4);
        assert(yy % 100 == (yoe + 1) % 100);
        assert(yy % 400 == (yoe + 1) % 400);
        assert(is_leap(yy));
    }
}

/// `digits` left-padded with zeros to at least `width` characters.
pub open spec fn zero_pad(digits: Seq<char>, width: nat) -> Seq<char> {
    if digits.len() >= width {
        digits
    } else {
        Seq::new((width - digits.len()) as nat, |i: int| '0') + digits
    }
}

/// An integer as `format!("{v:0width$}")` writes it: zero-padded to `width`
/// characters, the sign counted in the width.
pub open spec fn padded_int(v: int, width: nat) -> Seq<char> {
    if v < 0 {
        seq!['-'] + zero_pad(nat_decimal((-v) as nat), (width - 1) as nat)
    } else {
        zero_pad(nat_decimal(v as nat), width)
    }
}

proof fn lemma_nat_decimal_len(n: nat)
    ensures
        nat_decimal(n).len() >= 1,
        n < 10 ==> nat_decimal(n).len() == 1,
        n < 100 ==> nat_decimal(n).len() <= 2,
        n < 1000 ==> nat_decimal(n).len() <= 3,
        n < 10000 ==> nat_decimal(n).len() <= 4,
    decreases n,
{
    if n >= 10 {
        lemma_nat_decimal_len(n / 10);
    }
}

proof fn lemma_padded_len(v: int, width: nat)
    requires
        0 <= v,
        width == 2 ==> v < 100,
        width == 4 ==> v < 10000,
        width == 2 || width == 4,
    ensures
        padded_int(v, width).len() == width,
{
    lemma_nat_decimal_len(v as nat);
}

/// `(year, month, day, hour, minute, second)` of a time given in seconds
/// since 1970-01-01T00:00:00Z; the year is kept as an `i32` (wrapping).
pub open spec fn time_components(seconds: int) -> (int, int, int, int, int, int) {
    let days = seconds / 86400;
    let rem = seconds % 86400;
    let date = civil_from_days(days);
    ((date.0 as i32) as int, date.1, date.2, rem / 3600, (rem % 3600) / 60, rem % 60)
}

/// The timestamp text `YYYY-MM-DDTHH:MM:SSZ` of a time in seconds since the epoch.
pub open spec fn timestamp_text(seconds: int) -> Seq<char> {
    let c = time_components(seconds);
    padded_int(c.0, 4) + seq!['-'] + padded_int(c.1, 2) + seq!['-'] + padded_int(c.2, 2) + seq![
        'T',
    ] + padded_int(c.3, 2) + seq![':'] + padded_int(c.4, 2) + seq![':'] + padded_int(c.5, 2)
        + seq!['Z']
}

/// The date `days` days after 1970-01-01, as `(year, month, day)`.
fn unix_days_to_date(days: i64) -> (r: (i32, u32, u32))
    requires
        -0x4_0000_0000_0000 <= days <= 0x4_0000_0000_0000,
    ensures
        r.0 as int == (civil_from_days(days as int).0 as i32) as int,
        r.1 as int == civil_from_days(days as int).1,
        r.2 as int == civil_from_days(days as int).2,
{
    let z: i64 = days + 719468;
    let era: i64 = if z >= 0 {
        z / 146097
    } else {
        -((-z - 1) / 146097) - 1
    };
    proof {
        let ez = z as int;
        if ez >= 0 {
            lemma_fundamental_div_mod_converse(ez, 146097, ez / 146097, ez % 146097);
        } else {
            let k = (-ez - 1) / 146097;
            let r = (-ez - 1) % 146097;
            assert(-ez - 1 == k * 146097 + r) by {
                vstd::arithmetic::div_mod::lemma_fundamental_div_mod(-ez - 1, 146097);
            }
            assert(0 <= r < 146097) by {
                vstd::arithmetic::div_mod::lemma_mod_bound(-ez - 1, 146097);
            }
            assert(ez == (-k - 1) * 146097 + (146096 - r)) by (nonlinear_arith)
                requires
                    -ez - 1 == k * 146097 + r,
            ;
            lemma_fundamental_div_mod_converse(ez, 146097, -k - 1, 146096 - r);
        }
    }
    let doe: i64 = z - era * 146097;
    assert(0 <= doe < 146097);
    let yoe: i64 = (doe - doe / 1460 + doe / 36524 - doe / 146096) / 365;
    let y: i64 = yoe + era * 400;
    let doy: i64 = doe - (365 * yoe + yoe / 4 - yoe / 100);
    let mp: i64 = (5 * doy + 2) / 153;
    let d: i64 = doy - (153 * mp + 2) / 5 + 1;
    let m: i64 = if mp < 10 {
        mp + 3
    } else {
        mp - 9
    };
    proof {
        lemma_civil_from_days(days as int);
    }
    let year: i64 = if m <= 2 {
        y + 1
    } else {
        y
    };
    (year as i32, m as u32, d as u32)
}

/// Splits a time in seconds since the epoch into date and time of day.
fn unix_seconds_to_components(seconds: i64) -> (r: (i32, u32, u32, u32, u32, u32))
    ensures
        r.0 as int == time_components(seconds as int).0,
        r.1 as int == time_components(seconds as int).1,
        r.2 as int == time_components(seconds as int).2,
        r.3 as int == time_components(seconds as int).3,
        r.4 as int == time_components(seconds as int).4,
        r.5 as int == time_components(seconds as int).5,
{
    let days: i64 = if seconds >= 0 {
        seconds / 86400
    } else {
        -((-(seconds + 1)) / 86400) - 1
    };
    proof {
        let s = seconds as int;
        if s >= 0 {
            lemma_fundamental_div_mod_converse(s, 86400, s / 86400, s % 86400);
        } else {
            let k = (-s - 1) / 86400;
            let r = (-s - 1) % 86400;
            assert(-s - 1 == k * 86400 + r) by {
                vstd::arithmetic::div_mod::lemma_fundamental_div_mod(-s - 1, 86400);
            }
            assert(0 <= r < 86400) by {
                vstd::arithmetic::div_mod::lemma_mod_bound(-s - 1, 86400);
            }
            assert(s == (-k - 1) * 86400 + (86399 - r)) by (nonlinear_arith)
                requires
                    -s - 1 == k * 86400 + r,
            ;
            lemma_fundamental_div_mod_converse(s, 86400, -k - 1, 86399 - r);
        }
    }
    let rem: i64 = if seconds >= 0 {
        seconds % 86400
    } else {
        86399 - (-(seconds + 1)) % 86400
    };
    assert(0 <= rem < 86400);
    let hour = (rem / 3600) as u32;
    let rem2: i64 = rem % 3600;
    let minute = (rem2 / 60) as u32;
    let second = (rem2 % 60) as u32;
    assert(rem % 60 == rem2 % 60) by {
        vstd::arithmetic::div_mod::lemma_fundamental_div_mod(rem as int, 3600);
        vstd::arithmetic::div_mod::lemma_mod_mod(rem as int, 60, 60);
        assert((rem as int) % 60 == (rem2 as int) % 60) by (nonlinear_arith)
            requires
                rem as int == 3600 * ((rem as int) / 3600) + rem2 as int,
                0 <= rem2 < 3600,
                0 <= rem < 86400,
        {
            vstd::arithmetic::div_mod::lemma_mod_multiples_basic(60 * ((rem as int) / 3600), 60);
        }
    }
    let (year, month, day) = unix_days_to_date(days);
    (year, month, day, hour, minute, second)
}

/// Appends `v` zero-padded to `width` characters.
fn push_padded_u64(s: &mut String, v: u64, width: usize)
    requires
        width <= 8,
    ensures
        final(s)@ == old(s)@ + zero_pad(nat_decimal(v as nat), width as nat),
{
    let digits = u64_decimal(v);
    let ghost before = s@;
    let n = digits.as_str().unicode_len();
    let mut k: usize = n;
    while k < width
        invariant
            n == digits@.len(),
            n <= k <= width || (n > width && k == n),
            s@ == before + Seq::new((k - n) as nat, |i: int| '0'),
        decreases width - k,
    {
        push_char(s, '0');
        assert(s@ =~= before + Seq::new((k + 1 - n) as nat, |i: int| '0'));
        k += 1;
    }
    append_str(s, digits.as_str());
    proof {
        if n >= width {
            assert(s@ =~= before + digits@);
        } else {
            assert(s@ =~= before + (Seq::new((width - n) as nat, |i: int| '0') + digits@));
        }
    }
}

/// Appends `v` as `format!("{v:0width$}")` writes it.
fn push_padded_i64(s: &mut String, v: i64, width: usize)
    requires
        1 <= width <= 8,
    ensures
        final(s)@ == old(s)@ + padded_int(v as int, width as nat),
{
    if v < 0 {
        let magnitude: u64 = if v == i64::MIN {
            9223372036854775808u64
        } else {
            (-v) as u64
        };
        let ghost before = s@;
        push_char(s, '-');
        push_padded_u64(s, magnitude, width - 1);
        assert(s@ =~= before + (seq!['-'] + zero_pad(nat_decimal((-(v as int)) as nat), (width - 1) as nat)));
    } else {
        push_padded_u64(s, v as u64, width);
    }
}

/// The timestamp `YYYY-MM-DDTHH:MM:SSZ` of a time in seconds since 1970-01-01T00:00:00Z.
pub fn timestamp_from_unix_seconds(seconds: i64) -> (r: String)
    ensures
        r@ == timestamp_text(seconds as int),
{
    let (year, month, day, hour, minute, second) = unix_seconds_to_components(seconds);
    let mut s = String::new();
    push_padded_i64(&mut s, year as i64, 4);
    push_char(&mut s, '-');
    push_padded_u64(&mut s, month as u64, 2);
    push_char(&mut s, '-');
    push_padded_u64(&mut s, day as u64, 2);
    push_char(&mut s, 'T');
    push_padded_u64(&mut s, hour as u64, 2);
    push_char(&mut s, ':');
    push_padded_u64(&mut s, minute as u64, 2);
    push_char(&mut s, ':');
    push_padded_u64(&mut s, second as u64, 2);
    push_char(&mut s, 'Z');
    assert(s@ =~= timestamp_text(seconds as int));
    s
}

/// The timestamp of a clock reading: `Some` of the whole seconds since
/// 1970-01-01T00:00:00Z, taken as an `i64`, or `None` for a clock that reads
/// before that instant, which counts as the instant itself.
pub open spec fn clock_timestamp(reading: Option<u64>) -> Seq<char> {
    match reading {
        Some(secs) => timestamp_text((secs as i64) as int),
        None => timestamp_text(0),
    }
}

/// The timestamp of a clock reading; see `clock_timestamp`.
pub fn timestamp_from_clock(reading: Option<u64>) -> (r: String)
    ensures
        r@ == clock_timestamp(reading),
{
    match reading {
        Some(secs) => timestamp_from_unix_seconds(secs as i64),
        None => timestamp_from_unix_seconds(0),
    }
}

/// The current time as `YYYY-MM-DDTHH:MM:SSZ`, read from the system clock; a
/// clock that reads before 1970-01-01T00:00:00Z counts as that instant.
pub fn current_timestamp() -> (r: String)
    ensures
        exists|reading: Option<u64>| r@ == #[trigger] clock_timestamp(reading),
{
    let now = system_time_now();
    let reading = match since_unix_epoch(&now) {
        Some(d) => Some(duration_secs(&d)),
        None => None,
    };
    timestamp_from_clock(reading)
}

/// The timestamp recorded in an audit: the given text unless it is blank,
/// else the current time.
pub fn normalize_timestamp(value: &str) -> (r: String)
    ensures
        !is_blank(value@) ==> r@ == value@,
        is_blank(value@) ==> exists|reading: Option<u64>| r@ == #[trigger] clock_timestamp(reading),
{
    if !str_is_blank(value) {
        string_of(value)
    } else {
        current_timestamp()
    }
}

/// `s` without its `-` and `:` characters.
pub open spec fn strip_separators(s: Seq<char>) -> Seq<char>
    decreases s.len(),
{
    if s.len() == 0 {
        Seq::empty()
    } else {
        strip_separators(s.drop_last()) + if s.last() == '-' || s.last() == ':' {
            Seq::empty()
        } else {
            seq![s.last()]
        }
    }
}

/// A timestamp without separators (`2024-01-02T03:04:05Z` becomes
/// `20240102T030405Z`); fourteen zeros when nothing but blanks remain.
pub open spec fn compact_timestamp_text(s: Seq<char>) -> Seq<char> {
    if is_blank(strip_separators(s)) {
        "00000000000000"@
    } else {
        strip_separators(s)
    }
}

pub fn compact_timestamp(timestamp: &str) -> (r: String)
    ensures
        r@ == compact_timestamp_text(timestamp@),
{
    let cs = chars_of(timestamp);
    let mut buffer = String::new();
    let mut i: usize = 0;
    assert(cs@.take(0) =~= Seq::<char>::empty());
    while i < cs.len()
        invariant
            cs@ == timestamp@,
            i <= cs.len(),
            buffer@ == strip_separators(cs@.take(i as int)),
        decreases cs.len() - i,
    {
        let c = cs[i];
        let ghost before = buffer@;
        if c != '-' && c != ':' {
            push_char(&mut buffer, c);
        }
        proof {
            assert(cs@.take(i + 1).drop_last() =~= cs@.take(i as int));
            assert(cs@.take(i + 1).last() == c);
            assert(buffer@ =~= strip_separators(cs@.take(i + 1)));
        }
        i += 1;
    }
    assert(cs@.take(cs.len() as int) =~= cs@);
    if str_is_blank(buffer.as_str()) {
        string_of("00000000000000")
    } else {
        buffer
    }
}

/// The build id of an audit: an existing one that is not blank, else the
/// compact timestamp, followed by `-` and the commit when a commit that is
/// not blank is known.
pub open spec fn build_id_text(
    timestamp: Seq<char>,
    existing: Option<Seq<char>>,
    commit: Option<Seq<char>>,
) -> Seq<char> {
    if existing matches Some(v) && !is_blank(v) {
        existing->0
    } else if commit matches Some(c) && !is_blank(c) {
        compact_timestamp_text(timestamp) + "-"@ + commit->0
    } else {
        compact_timestamp_text(timestamp)
    }
}

pub open spec fn opt_str_view(o: Option<&str>) -> Option<Seq<char>> {
    match o {
        Some(s) => Some(s@),
        None => None,
    }
}

pub fn compute_build_id(timestamp: &str, existing: Option<&str>, commit: Option<&str>) -> (r: String)
    ensures
        r@ == build_id_text(timestamp@, opt_str_view(existing), opt_str_view(commit)),
{
    if let Some(value) = existing {
        if !str_is_blank(value) {
            return string_of(value);
        }
    }
    let base = compact_timestamp(timestamp);
    match commit {
        Some(value) => {
            if !str_is_blank(value) {
                let mut id = base;
                append_str(&mut id, "-");
                append_str(&mut id, value);
                id
            } else {
                base
            }
        },
        None => base,
    }
}

/// The audit channel that a prefix names: `legacy` is `legacy-import`, a
/// blank prefix or `auto` defers to the channel already recorded (`cli`
/// when none is), and any other prefix names itself, trimmed.
pub open spec fn channel_text(prefix: Seq<char>, recorded: Option<Seq<char>>) -> Seq<char> {
    let t = trim(prefix);
    if t == ""@ || t == "auto"@ {
        match recorded {
            Some(c) => c,
            None => "cli"@,
        }
    } else if t == "legacy"@ {
        "legacy-import"@
    } else {
        t
    }
}

/// The audit channel for a prefix, given the channel already recorded in
/// the audit metadata (`audit.channel`), if any.
pub fn channel_from_prefix(prefix: &str, recorded_channel: Option<&str>) -> (r: String)
    ensures
        r@ == channel_text(prefix@, opt_str_view(recorded_channel)),
{
    let trimmed = trim_str(prefix);
    let t = trimmed.as_str();
    proof {
        reveal_strlit("");
        if t@.len() == 0 {
            assert(t@ =~= ""@);
        }
    }
    if t.is_empty() || crate::text::str_eq(t, "auto") {
        match recorded_channel {
            Some(c) => string_of(c),
            None => string_of("cli"),
        }
    } else if crate::text::str_eq(t, "legacy") {
        string_of("legacy-import")
    } else {
        trimmed
    }
}

/// The layout of a timestamp: `YYYY-MM-DDTHH:MM:SSZ`, twenty characters
/// with the separators in place, for every time whose year has four digits.
pub proof fn lemma_timestamp_layout(seconds: int)
    requires
        0 <= time_components(seconds).0 <= 9999,
    ensures
        timestamp_text(seconds).len() == 20,
        timestamp_text(seconds)[4] == '-',
        timestamp_text(seconds)[7] == '-',
        timestamp_text(seconds)[10] == 'T',
        timestamp_text(seconds)[13] == ':',
        timestamp_text(seconds)[16] == ':',
        timestamp_text(seconds)[19] == 'Z',
{
    let days = seconds / 86400;
    let rem = seconds % 86400;
    lemma_civil_from_days(days);
    let c = time_components(seconds);
    assert(1 <= c.1 <= 12);
    assert(1 <= c.2 <= 31);
    assert(0 <= rem < 86400);
    assert(0 <= c.3 < 24) by (nonlinear_arith)
        requires
            c.3 == rem / 3600,
            0 <= rem < 86400,
    ;
    assert(0 <= c.4 < 60);
    assert(0 <= c.5 < 60);
    lemma_padded_len(c.0, 4);
    lemma_padded_len(c.1, 2);
    lemma_padded_len(c.2, 2);
    lemma_padded_len(c.3, 2);
    lemma_padded_len(c.4, 2);
    lemma_padded_len(c.5, 2);
    let t = timestamp_text(seconds);
    assert(t =~= padded_int(c.0, 4) + seq!['-'] + padded_int(c.1, 2) + seq!['-'] + padded_int(c.2, 2)
        + seq!['T'] + padded_int(c.3, 2) + seq![':'] + padded_int(c.4, 2) + seq![':'] + padded_int(
        c.5,
        2,
    ) + seq!['Z']);
}

/// Compacting removes every `-` and `:`.
pub proof fn lemma_compact_timestamp_has_no_separators(s: Seq<char>)
    ensures
        forall|i: int|
            0 <= i < compact_timestamp_text(s).len() ==> #[trigger] compact_timestamp_text(s)[i] != '-'
                && compact_timestamp_text(s)[i] != ':',
{
    reveal_strlit("00000000000000");
    lemma_strip_separators_clean(s);
}

proof fn lemma_strip_separators_clean(s: Seq<char>)
    ensures
        forall|i: int|
            0 <= i < strip_separators(s).len() ==> #[trigger] strip_separators(s)[i] != '-'
                && strip_separators(s)[i] != ':',
    decreases s.len(),
{
    if s.len() > 0 {
        lemma_strip_separators_clean(s.drop_last());
        let p = strip_separators(s.drop_last());
        let tail = if s.last() == '-' || s.last() == ':' {
            Seq::<char>::empty()
        } else {
            seq![s.last()]
        };
        assert(strip_separators(s) == p + tail);
        assert forall|i: int| 0 <= i < strip_separators(s).len() implies #[trigger] strip_separators(
            s,
        )[i] != '-' && strip_separators(s)[i] != ':' by {
            if i < p.len() {
                assert(strip_separators(s)[i] == p[i]);
            } else {
                assert(strip_separators(s)[i] == tail[i - p.len()]);
            }
        }
    }
}

} // verus!
