//! Wall-clock time of day, time zones, and the next instant at which a
//! bedtime arrives.

use vstd::prelude::*;
use vstd::string::{StrSliceExecFns, StringExecFns};

use chrono::{Offset, TimeZone as _, Timelike};

verus! {

/// The character of a decimal digit `d`, for `0 <= d < 10`.
pub open spec fn digit_char(d: int) -> char {
    if d == 0 { '0' }
    else if d == 1 { '1' }
    else if d == 2 { '2' }
    else if d == 3 { '3' }
    else if d == 4 { '4' }
    else if d == 5 { '5' }
    else if d == 6 { '6' }
    else if d == 7 { '7' }
    else if d == 8 { '8' }
    else { '9' }
}

/// The value of a decimal digit character, if it is one.
pub open spec fn digit_value(c: char) -> Option<int> {
    if c == '0' { Some(0) }
    else if c == '1' { Some(1) }
    else if c == '2' { Some(2) }
    else if c == '3' { Some(3) }
    else if c == '4' { Some(4) }
    else if c == '5' { Some(5) }
    else if c == '6' { Some(6) }
    else if c == '7' { Some(7) }
    else if c == '8' { Some(8) }
    else if c == '9' { Some(9) }
    else { None }
}

/// `n` as two zero-padded decimal digits, for `0 <= n < 100`.
pub open spec fn two_digits(n: int) -> Seq<char> {
    seq![digit_char(n / 10), digit_char(n % 10)]
}

/// The hour on a twelve-hour clock face: 12, 1, 2, ..., 11.
pub open spec fn twelve_hour(hour: int) -> int {
    if hour % 12 == 0 { 12 } else { hour % 12 }
}

/// A time of day as `hh:mm AM` or `hh:mm PM`, twelve-hour clock.
pub open spec fn twelve_hour_text(hour: int, minute: int) -> Seq<char> {
    two_digits(twelve_hour(hour)) + seq![':'] + two_digits(minute) + seq![' '] + (if hour < 12 {
        seq!['A', 'M']
    } else {
        seq!['P', 'M']
    })
}

/// A time of day as `HH:MM`, twenty-four-hour clock: the stored form.
pub open spec fn record_text(hour: int, minute: int) -> Seq<char> {
    two_digits(hour) + seq![':'] + two_digits(minute)
}

/// The value of two decimal digit characters.
pub open spec fn two_digit_value(a: char, b: char) -> Option<int> {
    match (digit_value(a), digit_value(b)) {
        (Some(x), Some(y)) => Some(10 * x + y),
        _ => None,
    }
}

/// What `HH:MM` text denotes: an hour below 24 and a minute below 60.
pub open spec fn parse_record_text(s: Seq<char>) -> Option<Time> {
    if s.len() != 5 || s[2] != ':' {
        None
    } else {
        match (two_digit_value(s[0], s[1]), two_digit_value(s[3], s[4])) {
            (Some(h), Some(m)) => if h < 24 && m < 60 {
                Some(Time { hour: h as u8, minute: m as u8 })
            } else {
                None
            },
            _ => None,
        }
    }
}

/// A wall-clock time of day, to the minute, with no date and no zone.
#[derive(Clone, Copy, Debug, PartialEq, Eq, Structural)]
pub struct Time {
    pub hour: u8,
    pub minute: u8,
}

impl Time {
    /// The hour is below 24 and the minute below 60.
    pub open spec fn wf(self) -> bool {
        self.hour < 24 && self.minute < 60
    }

    /// Seconds from midnight to this time of day.
    pub open spec fn seconds_of_day(self) -> int {
        self.hour * 3600 + self.minute * 60
    }

    /// The time `hour:minute`, if both are in range.
    pub fn new(hour: u8, minute: u8) -> (r: Option<Time>)
        ensures
            r is Some <==> hour < 24 && minute < 60,
            r matches Some(t) ==> t.hour == hour && t.minute == minute,
    {
        if hour < 24 && minute < 60 {
            Some(Time { hour, minute })
        } else {
            None
        }
    }

    /// The stored form `HH:MM` of this time.
    pub fn to_record_text(&self) -> (r: String)
        requires
            self.wf(),
        ensures
            r@ == record_text(self.hour as int, self.minute as int),
    {
        let mut s = String::new();
        push_two_digits(&mut s, self.hour);
        s.append(":");
        push_two_digits(&mut s, self.minute);
        proof {
            reveal_strlit(":");
        }
        assert(s@ =~= record_text(self.hour as int, self.minute as int));
        s
    }

    /// Reads the stored form `HH:MM`; `None` for any other text.
    pub fn from_record_text(s: &str) -> (r: Option<Time>)
        ensures
            r == parse_record_text(s@),
    {
        let n = s.unicode_len();
        if n != 5 {
            return None;
        }
        let sep = s.get_char(2);
        if sep != ':' {
            return None;
        }
        let h = read_two_digits(s.get_char(0), s.get_char(1));
        let m = read_two_digits(s.get_char(3), s.get_char(4));
        match (h, m) {
            (Some(h), Some(m)) => {
                if h < 24 && m < 60 {
                    Some(Time { hour: h, minute: m })
                } else {
                    None
                }
            },
            _ => None,
        }
    }
}

/// A one-character string holding the digit `d`.
fn digit_str(d: u8) -> (r: &'static str)
    requires
        d < 10,
    ensures
        r@ == seq![digit_char(d as int)],
{
    proof {
        reveal_strlit("0");
        reveal_strlit("1");
        reveal_strlit("2");
        reveal_strlit("3");
        reveal_strlit("4");
        reveal_strlit("5");
        reveal_strlit("6");
        reveal_strlit("7");
        reveal_strlit("8");
        reveal_strlit("9");
    }
    if d == 0 { "0" }
    else if d == 1 { "1" }
    else if d == 2 { "2" }
    else if d == 3 { "3" }
    else if d == 4 { "4" }
    else if d == 5 { "5" }
    else if d == 6 { "6" }
    else if d == 7 { "7" }
    else if d == 8 { "8" }
    else { "9" }
}

/// Appends `n` as two zero-padded digits.
fn push_two_digits(s: &mut String, n: u8)
    requires
        n < 100,
    ensures
        final(s)@ == old(s)@ + two_digits(n as int),
{
    s.append(digit_str(n / 10));
    s.append(digit_str(n % 10));
    assert(final(s)@ =~= old(s)@ + two_digits(n as int));
}

/// The value of a decimal digit character.
fn read_digit(c: char) -> (r: Option<u8>)
    ensures
        r matches Some(v) ==> digit_value(c) == Some(v as int),
        r is None ==> digit_value(c) is None,
{
    if c == '0' { Some(0) }
    else if c == '1' { Some(1) }
    else if c == '2' { Some(2) }
    else if c == '3' { Some(3) }
    else if c == '4' { Some(4) }
    else if c == '5' { Some(5) }
    else if c == '6' { Some(6) }
    else if c == '7' { Some(7) }
    else if c == '8' { Some(8) }
    else if c == '9' { Some(9) }
    else { None }
}

/// The value of two decimal digit characters.
fn read_two_digits(a: char, b: char) -> (r: Option<u8>)
    ensures
        r matches Some(v) ==> two_digit_value(a, b) == Some(v as int),
        r is None ==> two_digit_value(a, b) is None,
{
    match (read_digit(a), read_digit(b)) {
        (Some(x), Some(y)) => Some(10 * x + y),
        _ => None,
    }
}


/// The time of day that chrono reads from `hh:mm AM` / `hh:mm PM` text.
pub uninterp spec fn twelve_hour_parse(s: Seq<char>) -> Option<(u8, u8)>;

/// Relies on chrono's `NaiveTime::parse_from_str` with the format
/// `%I:%M %p`: the time it reads, as hour and minute, depends on the text
/// alone, and a `NaiveTime` has an hour below 24 and a minute below 60.
#[verifier::external_body]
fn parse_twelve_hour(s: &str) -> (r: Option<(u8, u8)>)
    ensures
        r == twelve_hour_parse(s@),
        r matches Some(p) ==> p.0 < 24 && p.1 < 60,
{
    match chrono::NaiveTime::parse_from_str(s, "%I:%M %p") {
        Ok(t) => Some((t.hour() as u8, t.minute() as u8)),
        Err(_) => None,
    }
}

/// Relies on chrono's `NaiveTime::format` with the format `%I:%M %p`: the
/// hour on a twelve-hour clock and the minute, each as two zero-padded
/// digits, then `AM` or `PM`.
#[verifier::external_body]
fn format_twelve_hour(hour: u8, minute: u8) -> (r: String)
    requires
        hour < 24,
        minute < 60,
    ensures
        r@ == twelve_hour_text(hour as int, minute as int),
{
    match chrono::NaiveTime::from_hms_opt(hour as u32, minute as u32, 0) {
        Some(t) => t.format("%I:%M %p").to_string(),
        None => String::new(),
    }
}

impl Time {
    /// Reads a time of day written `hh:mm AM` or `hh:mm PM`.
    pub fn from_str(s: &str) -> (r: Option<Time>)
        ensures
            r == (match twelve_hour_parse(s@) {
                Some(p) => Some(Time { hour: p.0, minute: p.1 }),
                None => None,
            }),
            r matches Some(t) ==> t.wf(),
    {
        match parse_twelve_hour(s) {
            Some(p) => Some(Time { hour: p.0, minute: p.1 }),
            None => None,
        }
    }

    /// This time as `hh:mm AM` or `hh:mm PM`.
    pub fn to_string(&self) -> (r: String)
        requires
            self.wf(),
        ensures
            r@ == twelve_hour_text(self.hour as int, self.minute as int),
    {
        format_twelve_hour(self.hour, self.minute)
    }
}

/// Whether chrono-tz knows a zone of this name.
pub uninterp spec fn is_zone_name(s: Seq<char>) -> bool;

/// Relies on chrono-tz's `FromStr` for `Tz`: it accepts exactly the names of
/// its zone table, compared as given.
#[verifier::external_body]
fn zone_name_known(s: &str) -> (r: bool)
    ensures
        r == is_zone_name(s@),
{
    s.parse::<chrono_tz::Tz>().is_ok()
}

/// A time zone of the tz database, known by its name.
pub struct TimeZone {
    name: String,
}

impl View for TimeZone {
    type V = Seq<char>;

    closed spec fn view(&self) -> Seq<char> {
        self.name@
    }
}

impl TimeZone {
    #[verifier::type_invariant]
    spec fn inv(&self) -> bool {
        is_zone_name(self.name@)
    }

    /// The zone of this name, if the tz database has one.
    pub fn parse(s: &str) -> (r: Option<TimeZone>)
        ensures
            r is Some <==> is_zone_name(s@),
            r matches Some(z) ==> z@ == s@,
    {
        if zone_name_known(s) {
            Some(TimeZone { name: s.to_string() })
        } else {
            None
        }
    }

    /// The zone's name, as the tz database writes it.
    pub fn name(&self) -> (r: String)
        ensures
            r@ == self@,
            is_zone_name(r@),
    {
        proof {
            use_type_invariant(self);
        }
        self.name.clone()
    }

    /// A second value of the same zone.
    pub fn copy(&self) -> (r: TimeZone)
        ensures
            r@ == self@,
    {
        proof {
            use_type_invariant(self);
        }
        TimeZone { name: self.name.clone() }
    }
}

/// Seconds in a calendar day of the zone-free timeline.
pub const SECONDS_PER_DAY: i64 = 86400;

/// The largest instant handled, in seconds since the Unix epoch (some
/// thirty thousand years on).
pub const MAX_INSTANT: i64 = 1000000000000;

/// An instant in the range this library computes with: from the Unix epoch
/// to `MAX_INSTANT`, in seconds.
pub open spec fn valid_instant(t: int) -> bool {
    0 <= t <= MAX_INSTANT
}

/// The zone's offset from UTC, in seconds, at an instant.
pub uninterp spec fn zone_offset_at(zone: Seq<char>, instant: i64) -> i32;

/// Relies on chrono-tz's `TimeZone::offset_from_utc_datetime` and chrono's
/// `FixedOffset::local_minus_utc`: the offset in force in the zone at a UTC
/// instant depends on the zone and the instant alone, and a `FixedOffset`
/// lies strictly between minus and plus one day.
#[verifier::external_body]
fn offset_at(zone: &TimeZone, instant: i64) -> (r: i32)
    ensures
        r == zone_offset_at(zone@, instant),
        -86400 < r < 86400,
{
    match (zone.name.parse::<chrono_tz::Tz>(), chrono::DateTime::from_timestamp(instant, 0)) {
        (Ok(tz), Some(t)) => tz.offset_from_utc_datetime(&t.naive_utc()).fix().local_minus_utc(),
        _ => 0,
    }
}

/// The first and the last UTC instant at which the zone's wall clock reads
/// a local date and time (given as seconds since the local epoch): the same
/// instant for an ordinary reading, two in a repeated hour, none in a gap.
pub uninterp spec fn zone_instants_of(zone: Seq<char>, local: i64) -> Option<(i64, i64)>;

/// Relies on chrono-tz's `TimeZone::from_local_datetime` and chrono's
/// `LocalResult::earliest` and `LocalResult::latest`: the first and last
/// instants whose local reading is the given one, or none in a gap; they
/// depend on the zone and the reading alone.
#[verifier::external_body]
fn instants_of_local(zone: &TimeZone, local: i64) -> (r: Option<(i64, i64)>)
    ensures
        r == zone_instants_of(zone@, local),
{
    match (zone.name.parse::<chrono_tz::Tz>(), chrono::DateTime::from_timestamp(local, 0)) {
        (Ok(tz), Some(t)) => {
            let found = tz.from_local_datetime(&t.naive_utc());
            match (found.earliest(), found.latest()) {
                (Some(e), Some(l)) => Some((e.timestamp(), l.timestamp())),
                _ => None,
            }
        },
        _ => None,
    }
}

/// The zone's wall-clock reading at an instant, in seconds since the local
/// epoch.
pub open spec fn local_reading(zone: Seq<char>, instant: i64) -> int {
    instant + zone_offset_at(zone, instant)
}

/// The local calendar day (days since the local epoch) at an instant.
pub open spec fn local_day(zone: Seq<char>, instant: i64) -> int {
    local_reading(zone, instant) / (SECONDS_PER_DAY as int)
}

/// The local reading of `bedtime` on the `d`-th day after the local day of
/// `now`.
pub open spec fn bedtime_reading(zone: Seq<char>, bedtime: Time, now: i64, d: int) -> int {
    (local_day(zone, now) + d) * (SECONDS_PER_DAY as int) + bedtime.seconds_of_day()
}

/// An instant after `now` that reads `reading` on the zone's wall clock.
pub open spec fn fires_at(zone: Seq<char>, reading: int, now: i64, u: i64) -> bool {
    u > now && local_reading(zone, u) == reading
}

/// The first instant after `now` at which the zone's wall clock shows
/// `bedtime` on the `d`-th local day after `now`'s, of the first and the
/// last instant that the zone maps that reading to.
pub open spec fn fire_on_day(zone: Seq<char>, bedtime: Time, now: i64, d: int) -> Option<i64> {
    let reading = bedtime_reading(zone, bedtime, now, d);
    if i64::MIN <= reading <= i64::MAX {
        match zone_instants_of(zone, reading as i64) {
            Some((e, l)) => if fires_at(zone, reading, now, e) {
                Some(e)
            } else if fires_at(zone, reading, now, l) {
                Some(l)
            } else {
                None
            },
            None => None,
        }
    } else {
        None
    }
}

/// The next instant after `now` at which the zone's wall clock shows
/// `bedtime`: today's, else tomorrow's, else the day after's occurrence,
/// the first that comes after `now`.
pub open spec fn next_fire(zone: Seq<char>, bedtime: Time, now: i64) -> Option<i64> {
    if fire_on_day(zone, bedtime, now, 0) is Some {
        fire_on_day(zone, bedtime, now, 0)
    } else if fire_on_day(zone, bedtime, now, 1) is Some {
        fire_on_day(zone, bedtime, now, 1)
    } else {
        fire_on_day(zone, bedtime, now, 2)
    }
}

/// Of the first and the last instant that carry `reading`, the first that
/// comes after `now` and, at the offset in force there, reads `reading`.
pub fn pick_instant(
    now: i64,
    reading: i64,
    first: i64,
    first_offset: i32,
    last: i64,
    last_offset: i32,
) -> (r: Option<i64>)
    requires
        valid_instant(now as int),
        reading <= MAX_INSTANT + 4 * SECONDS_PER_DAY,
        -86400 < first_offset < 86400,
        -86400 < last_offset < 86400,
    ensures
        r == (if first > now && first + first_offset == reading {
            Some(first)
        } else if last > now && last + last_offset == reading {
            Some(last)
        } else {
            None::<i64>
        }),
{
    if reads_after(now, reading, first, first_offset) {
        Some(first)
    } else if reads_after(now, reading, last, last_offset) {
        Some(last)
    } else {
        None
    }
}

/// Whether `u` comes after `now` and reads `reading` at offset `offset`.
fn reads_after(now: i64, reading: i64, u: i64, offset: i32) -> (r: bool)
    requires
        valid_instant(now as int),
        reading <= MAX_INSTANT + 4 * SECONDS_PER_DAY,
        -86400 < offset < 86400,
    ensures
        r == (u > now && u + offset == reading),
{
    if u <= now {
        false
    } else if u <= i64::MAX - SECONDS_PER_DAY {
        u + offset as i64 == reading
    } else {
        // so late an instant reads later than `reading`
        false
    }
}

/// The local day (days since the local epoch) of a wall-clock reading.
pub fn day_of_reading(reading: i64) -> (r: i64)
    requires
        -86400 < reading <= MAX_INSTANT + 86400,
    ensures
        r == reading / 86400,
{
    // `reading` may be below zero, so count days from one day earlier
    proof {
        lemma_day_start(reading as int);
        lemma_day_start(reading as int + 86400);
    }
    (reading + SECONDS_PER_DAY) / SECONDS_PER_DAY - 1
}

/// The first of three days' occurrences that exists.
pub fn first_fire(today: Option<i64>, tomorrow: Option<i64>, after: Option<i64>) -> (r: Option<i64>)
    ensures
        r == (if today is Some { today } else if tomorrow is Some { tomorrow } else { after }),
{
    match today {
        Some(u) => Some(u),
        None => match tomorrow {
            Some(u) => Some(u),
            None => after,
        },
    }
}

/// The instant of `bedtime` on the `d`-th local day after `now`'s, if the
/// zone maps it to an instant after `now` with that very reading.
fn fire_on(zone: &TimeZone, bedtime: Time, now: i64, day: i64, d: i64) -> (r: Option<i64>)
    requires
        bedtime.wf(),
        valid_instant(now as int),
        0 <= d <= 2,
        day == local_day(zone@, now),
        -86400 < zone_offset_at(zone@, now) < 86400,
    ensures
        r == fire_on_day(zone@, bedtime, now, d as int),
{
    let b: i64 = bedtime.hour as i64 * 3600 + bedtime.minute as i64 * 60;
    let reading: i64 = (day + d) * SECONDS_PER_DAY + b;
    proof {
        lemma_day_start(local_reading(zone@, now));
    }
    match instants_of_local(zone, reading) {
        Some((e, l)) => {
            let first_offset = offset_at(zone, e);
            let last_offset = offset_at(zone, l);
            pick_instant(now, reading, e, first_offset, l, last_offset)
        },
        None => None,
    }
}

/// Where a reading falls within its day.
proof fn lemma_day_start(l: int)
    ensures
        (l / 86400) * 86400 <= l < (l / 86400) * 86400 + 86400,
{
    vstd::arithmetic::div_mod::lemma_fundamental_div_mod(l, 86400);
}

/// The next instant after `now` at which the wall clock of `zone` shows
/// `bedtime`: today's occurrence when it is still ahead, else tomorrow's.
/// An occurrence that the zone skips (a daylight-saving gap), or that falls
/// at or before `now` (a repeated hour), gives way to the next day's; `None`
/// only where three local days in a row offer none.
pub fn next_fire_instant(zone: &TimeZone, bedtime: Time, now: i64) -> (r: Option<i64>)
    requires
        bedtime.wf(),
        valid_instant(now as int),
    ensures
        r == next_fire(zone@, bedtime, now),
        r matches Some(u) ==> u > now && local_reading(zone@, u) % 86400 == bedtime.seconds_of_day(),
{
    let off = offset_at(zone, now);
    let day = day_of_reading(now + off as i64);
    let r = first_fire(
        fire_on(zone, bedtime, now, day, 0),
        fire_on(zone, bedtime, now, day, 1),
        fire_on(zone, bedtime, now, day, 2),
    );
    proof {
        if let Some(u) = r {
            let d: int = if fire_on_day(zone@, bedtime, now, 0) is Some { 0 }
                else if fire_on_day(zone@, bedtime, now, 1) is Some { 1 } else { 2 };
            lemma_reading_time_of_day(local_day(zone@, now) + d, bedtime.seconds_of_day());
        }
    }
    r
}

/// A reading on day `day` at `secs` past midnight is `secs` modulo a day.
proof fn lemma_reading_time_of_day(day: int, secs: int)
    requires
        0 <= secs < 86400,
    ensures
        (day * 86400 + secs) % 86400 == secs,
{
    vstd::arithmetic::div_mod::lemma_fundamental_div_mod_converse_mod(day * 86400 + secs, 86400, day, secs);
}

/// The offsets `a` and `b` differ by at most an hour.
pub open spec fn within_an_hour(a: int, b: int) -> bool {
    -3600 <= a - b <= 3600
}

/// The first and last instants of `bedtime`'s reading on the `d`-th local
/// day after `now`'s, where the zone has them.
pub open spec fn day_instants(zone: Seq<char>, bedtime: Time, now: i64, d: int) -> Option<(i64, i64)> {
    zone_instants_of(zone, bedtime_reading(zone, bedtime, now, d) as i64)
}

/// On the `d`-th local day after `now`'s, `bedtime`'s reading maps to a
/// first and a last instant that both read it back, at offsets within an
/// hour of the one in force at `now`.
pub open spec fn day_regular(zone: Seq<char>, bedtime: Time, now: i64, d: int) -> bool {
    let reading = bedtime_reading(zone, bedtime, now, d);
    let off_now = zone_offset_at(zone, now) as int;
    match day_instants(zone, bedtime, now, d) {
        Some((e, l)) => {
            &&& local_reading(zone, e) == reading
            &&& local_reading(zone, l) == reading
            &&& within_an_hour(zone_offset_at(zone, e) as int, off_now)
            &&& within_an_hour(zone_offset_at(zone, l) as int, off_now)
            &&& e <= l
        },
        None => false,
    }
}

/// Around `now` the zone behaves as real zones do: `bedtime`'s reading
/// exists on the local day of `now` and on each of the next two, the zone
/// maps each such reading to instants that read it back, and the offsets in
/// force at `now` and at all those instants differ by at most one hour.
pub open spec fn regular_near(zone: Seq<char>, bedtime: Time, now: i64) -> bool {
    let off_now = zone_offset_at(zone, now) as int;
    &&& -86400 < off_now < 86400
    &&& forall|d: int| 0 <= d < 3 ==> #[trigger] day_regular(zone, bedtime, now, d)
    &&& forall|d1: int, d2: int| 0 <= d1 < 3 && 0 <= d2 < 3 ==> #[trigger] offsets_close(zone, bedtime, now, d1, d2)
}

/// The offsets in force at the instants of days `d1` and `d2` differ by at
/// most an hour.
pub open spec fn offsets_close(zone: Seq<char>, bedtime: Time, now: i64, d1: int, d2: int) -> bool {
    let a = day_instants(zone, bedtime, now, d1).unwrap();
    let b = day_instants(zone, bedtime, now, d2).unwrap();
    &&& within_an_hour(zone_offset_at(zone, a.0) as int, zone_offset_at(zone, b.1) as int)
    &&& within_an_hour(zone_offset_at(zone, a.0) as int, zone_offset_at(zone, b.0) as int)
    &&& within_an_hour(zone_offset_at(zone, a.1) as int, zone_offset_at(zone, b.1) as int)
}

/// Where the zone is regular around `now`, the next firing exists, comes
/// strictly after `now` and at most a day plus one hour of daylight-saving
/// shift later, and shows `bedtime` on the zone's wall clock.
pub proof fn lemma_next_fire_within_a_day(zone: Seq<char>, bedtime: Time, now: i64)
    requires
        bedtime.wf(),
        valid_instant(now as int),
        regular_near(zone, bedtime, now),
    ensures
        next_fire(zone, bedtime, now) matches Some(u) && now < u <= now + 90000
            && local_reading(zone, u) % 86400 == bedtime.seconds_of_day(),
{
    let l = local_reading(zone, now);
    lemma_day_start(l);
    let day = local_day(zone, now);
    lemma_reading_time_of_day(day, bedtime.seconds_of_day());
    lemma_reading_time_of_day(day + 1, bedtime.seconds_of_day());
    lemma_reading_time_of_day(day + 2, bedtime.seconds_of_day());
    assert(bedtime_reading(zone, bedtime, now, 1) == bedtime_reading(zone, bedtime, now, 0) + 86400);
    assert(bedtime_reading(zone, bedtime, now, 2) == bedtime_reading(zone, bedtime, now, 1) + 86400);
    assert(day_regular(zone, bedtime, now, 0));
    assert(day_regular(zone, bedtime, now, 1));
    assert(day_regular(zone, bedtime, now, 2));
    assert(offsets_close(zone, bedtime, now, 0, 1));
    assert(offsets_close(zone, bedtime, now, 1, 2));
    assert(offsets_close(zone, bedtime, now, 1, 0));
    assert(offsets_close(zone, bedtime, now, 2, 1));
}

} // verus!
