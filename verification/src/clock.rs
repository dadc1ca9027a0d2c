use vstd::prelude::*;
use crate::ui::{digit_char, digit_str, lemma_digit_char_value};

verus! {

#[verifier::external_type_specification]
#[verifier::external_body]
pub struct ExSystemTime(std::time::SystemTime);

/// Calls `std::time::SystemTime::now`. The reading depends on the system
/// clock, so nothing is said of it.
#[verifier::external_body]
fn current_system_time() -> std::time::SystemTime {
    std::time::SystemTime::now()
}

#[verifier::external_type_specification]
#[verifier::external_body]
pub struct ExSystemTimeError(std::time::SystemTimeError);

/// Calls `std::time::SystemTime::duration_since` with `UNIX_EPOCH`: the time
/// since the epoch, or an error where the instant lies before it. The instant
/// is opaque here, so no clause ties the result to it.
#[verifier::external_body]
fn duration_since_epoch(
    t: &std::time::SystemTime,
) -> Result<std::time::Duration, std::time::SystemTimeError> {
    t.duration_since(std::time::UNIX_EPOCH)
}

/// Calls `std::time::SystemTimeError::duration`: how far the instant lies
/// before the epoch. The error is opaque here, so no clause ties the result to
/// it.
#[verifier::external_body]
fn error_duration(e: &std::time::SystemTimeError) -> std::time::Duration {
    e.duration()
}

/// Calls `std::time::Duration::as_nanos`: the whole nanoseconds of the
/// duration. The duration is opaque here, so no clause ties the result to it.
#[verifier::external_body]
fn duration_as_nanos(d: &std::time::Duration) -> u128 {
    d.as_nanos()
}

/// Instants within this many seconds of the Unix epoch (about 253,000 years)
/// have a calendar date and so a local time-zone offset.
pub const CLOCK_RANGE_SECS: i64 = 8_000_000_000_000;

/// Seconds in a day.
pub const SECONDS_PER_DAY: u64 = 86_400;

/// Whether `c` is one of the ASCII digits.
pub open spec fn is_digit(c: char) -> bool {
    '0' <= c && c <= '9'
}

/// The value of an ASCII digit.
pub open spec fn digit_value(c: char) -> int {
    c as int - '0' as int
}

/// A wall-clock text of the form `HH:MM`: hour 00 to 23 and minute 00 to 59,
/// each written with two digits.
pub open spec fn is_clock_text(s: Seq<char>) -> bool {
    &&& s.len() == 5
    &&& is_digit(s[0]) && is_digit(s[1]) && is_digit(s[3]) && is_digit(s[4])
    &&& s[2] == ':'
    &&& 10 * digit_value(s[0]) + digit_value(s[1]) < 24
    &&& digit_value(s[3]) < 6
}

/// Calls `chrono::DateTime::<Utc>::from_timestamp` (whole seconds, no
/// nanoseconds) and, on the instant it gives, reads the offset of the local
/// time zone at that instant: `with_timezone(&chrono::Local)`, then
/// `offset().local_minus_utc()`, in seconds east of UTC. `from_timestamp`
/// answers `None` for instants outside chrono's calendar range, which runs
/// from about 262,000 years before to 262,142 years after the common era; the
/// contract claims `Some` for the instants within 8,000,000,000,000 s of the
/// epoch (about 253,000 years), well inside it. chrono's `FixedOffset` only
/// holds offsets strictly between -86,400 and 86,400 seconds, which is the
/// other claim. Which offset comes out depends on the machine's time zone and
/// is left unsaid. When chrono cannot read the zone it uses UTC; it panics
/// only if the zone data names an offset of a day or more.
#[verifier::external_body]
fn local_offset_at(unix_secs: i64) -> (offset: Option<i32>)
    ensures
        offset matches Some(o) ==> -86_400 < o < 86_400,
        -CLOCK_RANGE_SECS <= unix_secs <= CLOCK_RANGE_SECS ==> offset is Some,
{
    match chrono::DateTime::<chrono::Utc>::from_timestamp(unix_secs, 0) {
        Some(t) => Some(t.with_timezone(&chrono::Local).offset().local_minus_utc()),
        None => None,
    }
}

/// A clock reading as the library keeps it, in nanoseconds since the Unix
/// epoch: `Ok(n)` is `n` after the epoch, `Err(n)` is `n` before it; readings
/// beyond what an `i128` holds are held at its bounds.
pub open spec fn spec_nanos_from_reading(reading: Result<u128, u128>) -> i128 {
    match reading {
        Ok(n) => if n > i128::MAX {
            i128::MAX
        } else {
            n as i128
        },
        Err(n) => if n >= 0x8000_0000_0000_0000_0000_0000_0000_0000 {
            i128::MIN
        } else {
            -(n as int) as i128
        },
    }
}

/// Turns a clock reading (nanoseconds after the epoch, or before it as
/// `Err`) into the library's signed nanoseconds.
pub fn nanos_from_reading(reading: Result<u128, u128>) -> (nanos: i128)
    ensures
        nanos == spec_nanos_from_reading(reading),
{
    match reading {
        Ok(n) => {
            if n > 0x7fff_ffff_ffff_ffff_ffff_ffff_ffff_ffffu128 {
                0x7fff_ffff_ffff_ffff_ffff_ffff_ffff_ffffi128
            } else {
                n as i128
            }
        },
        Err(n) => {
            if n >= 0x8000_0000_0000_0000_0000_0000_0000_0000u128 {
                i128::MIN
            } else {
                -(n as i128)
            }
        },
    }
}

/// The current time in nanoseconds since the Unix epoch, negative before it.
/// Which time the system clock reads is not known here, so no clause speaks of
/// the result; `nanos_from_reading` states what is made of the reading.
pub fn unix_time_nanos() -> i128 {
    let now = current_system_time();
    let reading = match duration_since_epoch(&now) {
        Ok(d) => Ok(duration_as_nanos(&d)),
        Err(e) => Err(duration_as_nanos(&error_duration(&e))),
    };
    nanos_from_reading(reading)
}

/// Nanoseconds in a second.
pub const NANOS_PER_SECOND: i128 = 1_000_000_000;

/// Rounding down and the remainder of a negative number, from those of the
/// non-negative number one step closer to zero.
proof fn lemma_floor_negative(x: int, m: int)
    requires
        m > 0,
        x < 0,
    ensures
        x / m == -((-(x + 1)) / m) - 1,
        x % m == m - 1 - ((-(x + 1)) % m),
{
    let y = -(x + 1);
    let q = y / m;
    let r = y % m;
    vstd::arithmetic::div_mod::lemma_fundamental_div_mod(y, m);
    assert(0 <= r < m);
    assert(x == (-q - 1) * m + (m - 1 - r)) by (nonlinear_arith)
        requires
            y == m * q + r,
            y == -(x + 1),
    ;
    vstd::arithmetic::div_mod::lemma_fundamental_div_mod_converse(x, m, -q - 1, m - 1 - r);
}

/// The whole seconds, rounded down, of an instant in nanoseconds since the
/// Unix epoch.
fn floor_seconds(nanos: i128) -> (secs: i128)
    ensures
        secs == nanos as int / NANOS_PER_SECOND as int,
{
    if nanos >= 0 {
        nanos / 1_000_000_000i128
    } else {
        proof {
            lemma_floor_negative(nanos as int, 1_000_000_000);
        }
        -((-(nanos + 1)) / 1_000_000_000i128) - 1
    }
}

/// The offset of the local time zone from UTC, in seconds east, at an instant
/// given in nanoseconds since the Unix epoch (read to the whole second, rounded
/// down); `None` where the instant has no calendar date. Every instant within
/// about 253,000 years of the epoch has one.
pub fn local_utc_offset(unix_nanos: i128) -> (offset: Option<i32>)
    ensures
        offset matches Some(o) ==> -86_400 < o < 86_400,
        -CLOCK_RANGE_SECS <= unix_nanos as int / NANOS_PER_SECOND as int <= CLOCK_RANGE_SECS
            ==> offset is Some,
{
    let secs = floor_seconds(unix_nanos);
    if secs > 0x7fff_ffff_ffff_ffffi128 || secs < -0x8000_0000_0000_0000i128 {
        return None;
    }
    local_offset_at(secs as i64)
}

/// The wall-clock text `HH:MM` of the time of day of `local_secs`, a count of
/// seconds in local time: hours and minutes of the day, each written with two
/// digits.
pub open spec fn spec_clock_text(local_secs: int) -> Seq<char> {
    let tod = local_secs % 86_400;
    let h = tod / 3600;
    let m = (tod % 3600) / 60;
    seq![
        digit_char((h / 10) as nat),
        digit_char((h % 10) as nat),
        ':',
        digit_char((m / 10) as nat),
        digit_char((m % 10) as nat),
    ]
}

/// Whether `text`, read as hours and minutes `HH:MM`, names the minute of
/// the day in which `local_secs` (a count of seconds in local time) falls.
pub open spec fn names_minute_of(text: Seq<char>, local_secs: int) -> bool {
    let hours = 10 * digit_value(text[0]) + digit_value(text[1]);
    let minutes = 10 * digit_value(text[3]) + digit_value(text[4]);
    let second_of_day = local_secs % 86_400;
    &&& 3600 * hours + 60 * minutes <= second_of_day
    &&& second_of_day < 3600 * hours + 60 * minutes + 60
}

/// Every wall-clock text has the `HH:MM` shape and, read back, names the
/// minute of the day in which its instant falls.
pub proof fn lemma_clock_text_shape(local_secs: int)
    ensures
        is_clock_text(spec_clock_text(local_secs)),
        names_minute_of(spec_clock_text(local_secs), local_secs),
{
    let tod = local_secs % 86_400;
    let h = tod / 3600;
    let m = (tod % 3600) / 60;
    assert(0 <= h < 24);
    assert(0 <= m < 60);
    lemma_digit_char_value((h / 10) as nat);
    lemma_digit_char_value((h % 10) as nat);
    lemma_digit_char_value((m / 10) as nat);
    lemma_digit_char_value((m % 10) as nat);
    assert(10 * (h / 10) + h % 10 == h);
    assert(10 * (m / 10) + m % 10 == m);
    assert(tod == 3600 * h + (tod % 3600));
    assert(tod % 3600 == 60 * m + (tod % 3600) % 60);
}

proof fn lemma_negative_mod(o: int, m: int)
    requires
        m > 0,
        o < 0,
    ensures
        (m - ((-o) % m)) % m == o % m,
{
    let r = (-o) % m;
    let q = (-o) / m;
    vstd::arithmetic::div_mod::lemma_fundamental_div_mod(-o, m);
    assert(-o == m * q + r);
    assert(0 <= r < m);
    if r == 0 {
        assert(o == m * (-q)) by (nonlinear_arith)
            requires
                -o == m * q + r,
                r == 0,
        ;
        vstd::arithmetic::div_mod::lemma_mod_multiples_basic(-q, m);
        vstd::arithmetic::div_mod::lemma_mod_self_0(m);
    } else {
        assert(o == m * (-q - 1) + (m - r)) by (nonlinear_arith)
            requires
                -o == m * q + r,
        ;
        vstd::arithmetic::div_mod::lemma_mod_multiples_vanish(-q - 1, m - r, m);
        vstd::arithmetic::div_mod::lemma_small_mod((m - r) as nat, m as nat);
    }
}

/// The wall-clock time `HH:MM` of an instant given in nanoseconds since the
/// Unix epoch (read to the whole second, rounded down, which keeps the
/// minute), in a zone `utc_offset_secs` seconds east of UTC.
pub fn clock_label(unix_nanos: i128, utc_offset_secs: i32) -> (text: String)
    ensures
        text@ == spec_clock_text(unix_nanos as int / NANOS_PER_SECOND as int + utc_offset_secs),
        is_clock_text(text@),
        names_minute_of(text@, unix_nanos as int / NANOS_PER_SECOND as int + utc_offset_secs),
{
    proof {
        lemma_clock_text_shape(unix_nanos as int / NANOS_PER_SECOND as int + utc_offset_secs);
    }
    let secs = floor_seconds(unix_nanos);
    let day: u64 = SECONDS_PER_DAY;
    let secs_of_day: u64 = if secs >= 0 {
        (secs % 86_400i128) as u64
    } else {
        proof {
            lemma_floor_negative(secs as int, 86_400);
        }
        86_399u64 - ((-(secs + 1)) % 86_400i128) as u64
    };
    assert(secs_of_day == secs as int % 86_400);
    let offset_of_day: u64 = if utc_offset_secs >= 0 {
        (utc_offset_secs as u64) % day
    } else {
        let back: u64 = ((-(utc_offset_secs as i64)) as u64) % day;
        (day - back) % day
    };
    let tod: u64 = (secs_of_day + offset_of_day) % day;
    proof {
        let o = utc_offset_secs as int;
        if o < 0 {
            lemma_negative_mod(o, 86_400);
        }
        assert(offset_of_day == o % 86_400);
        vstd::arithmetic::div_mod::lemma_add_mod_noop(secs as int, o, 86_400);
        assert(tod == (secs as int + o) % 86_400);
    }
    let h: u64 = tod / 3600;
    let m: u64 = (tod % 3600) / 60;
    let mut text = String::from_str(digit_str(h / 10));
    text.append(digit_str(h % 10));
    text.append(":");
    text.append(digit_str(m / 10));
    text.append(digit_str(m % 10));
    proof {
        reveal_strlit(":");
        assert(text@ =~= spec_clock_text(unix_nanos as int / NANOS_PER_SECOND as int + utc_offset_secs));
    }
    text
}

/// Whole seconds from `posted_at` to `now` (both in nanoseconds since the Unix
/// epoch), 0 when `now` lies before `posted_at`, and at most `u64::MAX`.
pub open spec fn spec_elapsed_seconds(posted_at: i128, now: i128) -> u64 {
    if now >= posted_at {
        let secs = (now - posted_at) / NANOS_PER_SECOND as int;
        if secs > 0xffff_ffff_ffff_ffff {
            0xffff_ffff_ffff_ffffu64
        } else {
            secs as u64
        }
    } else {
        0
    }
}

/// Whole seconds elapsed between two instants given in nanoseconds since the
/// Unix epoch; a clock that went backwards counts as no time elapsed.
pub fn elapsed_seconds(posted_at: i128, now: i128) -> (secs: u64)
    ensures
        secs == spec_elapsed_seconds(posted_at, now),
{
    if now >= posted_at {
        let gap: u128 = if posted_at >= 0 || now < 0 {
            (now - posted_at) as u128
        } else {
            now as u128 + (-(posted_at + 1)) as u128 + 1
        };
        let secs = gap / 1_000_000_000u128;
        if secs > 0xffff_ffff_ffff_ffffu128 {
            0xffff_ffff_ffff_ffffu64
        } else {
            secs as u64
        }
    } else {
        0
    }
}

} // verus!
