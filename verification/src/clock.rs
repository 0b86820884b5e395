//! Instants, the clocks that read them, and their texts.
//!
//! The functions that call chrono or a clock of the standard library are
//! believed, not proved: each says what is taken from the code it calls.

use std::time::Instant;

use chrono::{DateTime, FixedOffset, Local, Utc};
use vstd::prelude::*;

use crate::text::{decimal, law_digit_is_appended, law_digits_are_written};

verus! {

/// The first second that chrono's calendar holds: 1 January of the year -262143.
pub const FIRST_SECOND: i64 = -8_334_601_228_800;

/// The last second that chrono's calendar holds: the end of the year 262142.
pub const LAST_SECOND: i64 = 8_210_266_876_799;

/// The first second of the year 0.
pub const YEAR_0: i64 = -62_167_219_200;

/// The last second of the year 9999.
pub const YEAR_9999: i64 = 253_402_300_799;

/// Nanoseconds in a second.
pub const NANOS: u32 = 1_000_000_000;

/// Whether seconds and nanoseconds since the Unix epoch are an instant of chrono's calendar.
/// A leap second counts on from the nanoseconds of the last second of a minute.
pub open spec fn is_instant(secs: i64, nanos: u32) -> bool {
    &&& FIRST_SECOND <= secs <= LAST_SECOND
    &&& nanos < 2 * NANOS
    &&& nanos >= NANOS ==> secs % 60 == 59
}

/// Whether an instant can be written with a year of four digits, outside leap seconds.
pub open spec fn is_common_instant(secs: i64, nanos: u32) -> bool {
    YEAR_0 <= secs <= YEAR_9999 && nanos < NANOS
}

/// Whether an instant can be read from a text that gives it with a year of four
/// digits and an offset from UTC of less than a day.
pub open spec fn is_written_instant(secs: i64, nanos: u32) -> bool {
    is_instant(secs, nanos) && YEAR_0 - 86_400 < secs < YEAR_9999 + 86_400
}

/// What `to_rfc3339` writes for an instant in UTC.
pub uninterp spec fn rfc3339_utc(secs: i64, nanos: u32) -> Seq<char>;

/// What `parse_from_rfc3339` reads from a text: seconds and nanoseconds since
/// the Unix epoch, or nothing.
pub uninterp spec fn rfc3339_instant(text: Seq<char>) -> Option<(i64, u32)>;

/// Whether the machine's calendar clock has shown an instant.
pub uninterp spec fn is_utc_reading(secs: i64, nanos: u32) -> bool;

/// Whether the machine's monotonic clock has shown an instant.
pub uninterp spec fn is_clock_reading(at: Instant) -> bool;

/// Whether so many nanoseconds after an instant have been measured. They grow
/// from one measurement to the next.
pub uninterp spec fn is_elapsed(since: Instant, nanos: u128) -> bool;

/// Whether the machine's time zone has been so many seconds ahead of UTC for a
/// second of the Unix epoch. The zone may change while the program runs.
pub uninterp spec fn is_local_offset(secs: i64, offset: int) -> bool;

/// Whether a text gives its instant in UTC.
pub open spec fn is_utc_text(text: Seq<char>) -> bool {
    "+00:00"@.is_suffix_of(text)
}

/// Whether a text has a fraction of a second.
pub open spec fn has_fraction(text: Seq<char>) -> bool {
    text.contains('.')
}

/// A number below a hundred in two digits.
pub open spec fn two_digits(n: nat) -> Seq<char> {
    if n < 10 {
        "0"@ + decimal(n)
    } else {
        decimal(n)
    }
}

/// The hour on a clock face: 12, then 1 to 11.
pub open spec fn hour_on_face(second_of_day: nat) -> nat {
    let hour = second_of_day / 3600 % 12;
    if hour == 0 {
        12
    } else {
        hour
    }
}

/// A time of day as a twelve-hour clock shows it, with the count of a leap
/// second on top of its second.
pub open spec fn clock_text(second_of_day: nat, leap: nat) -> Seq<char> {
    decimal(hour_on_face(second_of_day)) + ":"@ + two_digits(second_of_day / 60 % 60) + ":"@
        + two_digits(second_of_day % 60 + leap) + (if second_of_day < 43_200 {
        " AM"@
    } else {
        " PM"@
    })
}

/// What a clock shows at an instant that is so many seconds ahead of UTC.
pub open spec fn local_clock_text(secs: i64, nanos: u32, offset: int) -> Seq<char> {
    clock_text(((secs + offset) % 86_400) as nat, (nanos / NANOS) as nat)
}

/// Whether a text is what a clock in the machine's time zone shows at an instant.
pub open spec fn is_clock_text(text: Seq<char>, secs: i64, nanos: u32) -> bool {
    exists|offset: int|
        -86_400 < offset < 86_400 && #[trigger] is_local_offset(secs, offset) && text
            == local_clock_text(secs, nanos, offset)
}

#[verifier::external_type_specification]
#[verifier::external_body]
pub struct ExInstant(Instant);

/// Calls `std::time::Instant::now`. Claimed: the instant is one that the clock
/// has shown. What the clock shows is left open.
#[verifier::external_body]
pub(crate) fn instant_now() -> (at: Instant)
    ensures
        is_clock_reading(at),
{
    Instant::now()
}

/// Calls `Instant::elapsed`, and gives its duration in nanoseconds. Claimed: the
/// time was measured from this instant. How much has passed is left open.
#[verifier::external_body]
pub(crate) fn elapsed_nanos(since: &Instant) -> (nanos: u128)
    ensures
        is_elapsed(*since, nanos),
{
    since.elapsed().as_nanos()
}

/// Calls chrono's `Utc::now`, and gives its seconds and nanoseconds since the
/// Unix epoch. Claimed: the instant is one that the clock has shown, not before
/// the epoch, in chrono's calendar, and not a leap second. Where the clock shows
/// another instant `Utc::now` panics. What the clock shows is left open.
#[verifier::external_body]
pub(crate) fn utc_now() -> (now: (i64, u32))
    ensures
        is_utc_reading(now.0, now.1),
        0 <= now.0 <= LAST_SECOND,
        now.1 < NANOS,
{
    let now = Utc::now();
    (now.timestamp(), now.timestamp_subsec_nanos())
}

/// Calls chrono's `DateTime::<Utc>::from_timestamp`, then `to_rfc3339`. Claimed:
/// there is a text just for the instants of chrono's calendar, it depends on the
/// instant alone, it ends with the offset of UTC, it has a fraction just where the
/// second is not whole, and `parse_from_rfc3339` reads the instant back from it
/// where the year has four digits and the second is no leap second.
#[verifier::external_body]
pub(crate) fn format_rfc3339(secs: i64, nanos: u32) -> (text: Option<String>)
    ensures
        text is Some <==> is_instant(secs, nanos),
        text matches Some(t) ==> t@ == rfc3339_utc(secs, nanos),
        text matches Some(t) ==> is_utc_text(t@),
        text matches Some(t) ==> (has_fraction(t@) <==> nanos % NANOS != 0),
        text matches Some(t) ==> (is_common_instant(secs, nanos) ==> rfc3339_instant(t@) == Some(
            (secs, nanos),
        )),
{
    DateTime::<Utc>::from_timestamp(secs, nanos).map(|dt| dt.to_rfc3339())
}

/// Calls chrono's `DateTime::parse_from_rfc3339`, and gives the seconds and
/// nanoseconds since the Unix epoch of what it read. Claimed: the result depends
/// on the text alone, and is an instant of the years 0 to 9999, give or take the
/// day that its offset from UTC can move it.
#[verifier::external_body]
pub(crate) fn parse_rfc3339(text: &str) -> (instant: Option<(i64, u32)>)
    ensures
        instant == rfc3339_instant(text@),
        instant matches Some((secs, nanos)) ==> is_written_instant(secs, nanos),
{
    let parsed = DateTime::parse_from_rfc3339(text).ok();
    parsed.map(|dt| (dt.timestamp(), dt.timestamp_subsec_nanos()))
}

/// Calls chrono's `with_timezone` for the machine's time zone, and gives the
/// offset of what it returns. Claimed: it is how far the zone is ahead of UTC for
/// this second, and less than a day. Where the machine's zone is a day or more off
/// `with_timezone` panics. How far ahead it is depends on the machine, and is left
/// open.
#[verifier::external_body]
pub(crate) fn local_offset(secs: i64) -> (offset: i32)
    requires
        is_written_instant(secs, 0),
    ensures
        is_local_offset(secs, offset as int),
        -86_400 < offset < 86_400,
{
    let instant = DateTime::<Utc>::from_timestamp(secs, 0).unwrap();
    instant.with_timezone(&Local).offset().local_minus_utc()
}

/// Calls chrono's `with_timezone` for a zone that is so many seconds ahead of
/// UTC, then `format` with the pattern of a twelve-hour clock. Claimed: the text
/// is what such a clock shows in that zone at this instant.
#[verifier::external_body]
pub(crate) fn format_ahead(secs: i64, nanos: u32, offset: i32, pattern: &str) -> (text: String)
    requires
        is_written_instant(secs, nanos),
        -86_400 < offset < 86_400,
        pattern@ == "%-I:%M:%S %p"@,
    ensures
        text@ == local_clock_text(secs, nanos, offset as int),
{
    let instant = DateTime::<Utc>::from_timestamp(secs, nanos).unwrap();
    let zone = FixedOffset::east_opt(offset).unwrap();
    instant.with_timezone(&zone).format(pattern).to_string()
}

/// The text of a second of the Unix epoch in UTC, where chrono's calendar holds it.
pub fn to_iso(ts: i64) -> (text: Option<String>)
    ensures
        text is Some <==> FIRST_SECOND <= ts <= LAST_SECOND,
        text matches Some(t) ==> t@ == rfc3339_utc(ts, 0),
        text matches Some(t) ==> is_utc_text(t@) && !has_fraction(t@),
        text matches Some(t) ==> (YEAR_0 <= ts <= YEAR_9999 ==> rfc3339_instant(t@) == Some(
            (ts, 0u32),
        )),
{
    format_rfc3339(ts, 0)
}

/// Whether a text shows the last sync: the time of day of the sync on the
/// local clock, or the sync's own text where it is no RFC 3339 instant.
pub open spec fn shows_last_sync(text: Seq<char>, iso: Seq<char>) -> bool {
    match rfc3339_instant(iso) {
        Some((secs, nanos)) => is_clock_text(text, secs, nanos),
        None => text == iso,
    }
}

/// The text of the last sync in a zone that is so many seconds ahead of UTC.
pub open spec fn last_sync_text(iso: Seq<char>, offset: int) -> Seq<char> {
    match rfc3339_instant(iso) {
        Some((secs, nanos)) => local_clock_text(secs, nanos, offset),
        None => iso,
    }
}

/// The text of the last sync in a zone that is so many seconds ahead of UTC: its
/// time of day, or the text itself where it is no RFC 3339 instant.
pub fn format_last_sync_at(iso: &str, offset: i32) -> (text: String)
    requires
        -86_400 < offset < 86_400,
    ensures
        text@ == last_sync_text(iso@, offset as int),
{
    match parse_rfc3339(iso) {
        Some((secs, nanos)) => format_ahead(secs, nanos, offset, "%-I:%M:%S %p"),
        None => iso.to_string(),
    }
}

/// The text of the last sync: its time of day on the local clock, or the text
/// itself where it is no RFC 3339 instant.
pub fn format_last_sync(iso: &str) -> (text: String)
    ensures
        shows_last_sync(text@, iso@),
{
    match parse_rfc3339(iso) {
        Some((secs, _)) => {
            let offset: i32 = local_offset(secs);
            let text = format_last_sync_at(iso, offset);
            assert(is_local_offset(secs, offset as int));
            text
        },
        None => iso.to_string(),
    }
}

/// In a time zone that is known, the last sync is shown as one text: what a clock
/// in that zone shows at the instant of the sync.
pub proof fn law_last_sync_in_a_known_zone(
    text: Seq<char>,
    iso: Seq<char>,
    secs: i64,
    nanos: u32,
    offset: int,
)
    requires
        rfc3339_instant(iso) == Some((secs, nanos)),
        forall|o: int| #[trigger] is_local_offset(secs, o) ==> o == offset,
        shows_last_sync(text, iso),
    ensures
        text == local_clock_text(secs, nanos, offset),
{
}

/// A clock shows the hours 12 and 1 to 11, twice a day, then the minute and the
/// second in two digits each, then which half of the day it is. A leap second is
/// the sixtieth.
pub proof fn law_clock_is_read(hour: nat, minute: nat, second: nat, leap: nat)
    requires
        hour < 24,
        minute < 60,
        second < 60,
        leap <= 1,
    ensures
        clock_text(3_600 * hour + 60 * minute + second, leap) == decimal(
            if hour == 0 {
                12
            } else if hour <= 12 {
                hour
            } else {
                (hour - 12) as nat
            },
        ) + ":"@ + (decimal(minute / 10) + decimal(minute % 10)) + ":"@ + (decimal(
            (second + leap) / 10,
        ) + decimal((second + leap) % 10)) + (if hour < 12 {
            " AM"@
        } else {
            " PM"@
        }),
{
    lemma_time_of_day(hour, minute, second);
    lemma_two_digits(minute);
    lemma_two_digits(second + leap);
}

proof fn lemma_time_of_day(hour: nat, minute: nat, second: nat)
    requires
        hour < 24,
        minute < 60,
        second < 60,
    ensures
        ({
            let time = 3_600 * hour + 60 * minute + second;
            &&& hour_on_face(time) == if hour == 0 {
                12
            } else if hour <= 12 {
                hour
            } else {
                (hour - 12) as nat
            }
            &&& time / 60 % 60 == minute
            &&& time % 60 == second
            &&& time < 43_200 <==> hour < 12
        }),
{
    let time = 3_600 * hour + 60 * minute + second;
    assert(time / 3600 == hour);
    assert(time / 60 == 60 * hour + minute);
}

proof fn lemma_two_digits(n: nat)
    requires
        n < 100,
    ensures
        two_digits(n) == decimal(n / 10) + decimal(n % 10),
{
    if n < 10 {
        law_digits_are_written();
        assert(n / 10 == 0 && n % 10 == n);
    } else {
        law_digit_is_appended(n / 10, n % 10);
    }
}

/// In a zone that is so many seconds ahead of UTC, the last sync is shown as what a
/// clock there shows: the zone's seconds since the Unix epoch, in days, hours,
/// minutes and seconds. A text that is no instant is shown as it is.
pub proof fn law_last_sync_is_read_in_a_zone(
    iso: &str,
    offset: i32,
    text: String,
    day: int,
    hour: nat,
    minute: nat,
    second: nat,
)
    requires
        call_ensures(format_last_sync_at, (iso, offset), text),
        hour < 24,
        minute < 60,
        second < 60,
    ensures
        rfc3339_instant(iso@) is None ==> text@ == iso@,
        rfc3339_instant(iso@) matches Some((secs, nanos)) ==> secs + offset == 86_400 * day + 3_600
            * hour + 60 * minute + second ==> nanos < 1_000_000_000 ==> text@ == clock_text(
            3_600 * hour + 60 * minute + second,
            0,
        ),
        rfc3339_instant(iso@) matches Some((secs, nanos)) ==> secs + offset == 86_400 * day + 3_600
            * hour + 60 * minute + second ==> 1_000_000_000 <= nanos < 2_000_000_000 ==> text@
            == clock_text(3_600 * hour + 60 * minute + second, 1),
{
    if let Some((secs, nanos)) = rfc3339_instant(iso@) {
        if secs + offset == 86_400 * day + 3_600 * hour + 60 * minute + second {
            law_zone_shifts_the_clock(secs, nanos, offset as int, day, hour, minute, second);
        }
    }
}

/// What a clock that is ahead of UTC shows, from the seconds that it is ahead.
pub proof fn law_zone_shifts_the_clock(
    secs: i64,
    nanos: u32,
    offset: int,
    day: int,
    hour: nat,
    minute: nat,
    second: nat,
)
    requires
        hour < 24,
        minute < 60,
        second < 60,
        secs + offset == 86_400 * day + 3_600 * hour + 60 * minute + second,
    ensures
        nanos < 1_000_000_000 ==> local_clock_text(secs, nanos, offset) == clock_text(
            3_600 * hour + 60 * minute + second,
            0,
        ),
        1_000_000_000 <= nanos < 2_000_000_000 ==> local_clock_text(secs, nanos, offset)
            == clock_text(3_600 * hour + 60 * minute + second, 1),
{
    let time = 3_600 * hour + 60 * minute + second;
    assert((secs + offset) % 86_400 == time);
}

/// The last sync is shown by a clock that is ahead of UTC by as much as the
/// machine's zone has been for its second, and as it is where it is no instant.
pub proof fn law_last_sync_goes_by_the_zone(text: Seq<char>, iso: Seq<char>)
    requires
        shows_last_sync(text, iso),
    ensures
        rfc3339_instant(iso) is None ==> text == iso,
        rfc3339_instant(iso) matches Some((secs, nanos)) ==> exists|offset: int| #[trigger]
            is_local_offset(secs, offset) && -86_400 < offset < 86_400 && text == local_clock_text(
                secs,
                nanos,
                offset,
            ),
{
}

/// What the machine's clock shows of the last sync.
pub proof fn law_last_sync_now(iso: &str, text: String)
    requires
        call_ensures(format_last_sync, (iso,), text),
    ensures
        rfc3339_instant(iso@) is None ==> text@ == iso@,
        rfc3339_instant(iso@) matches Some((secs, nanos)) ==> exists|offset: int| #[trigger]
            is_local_offset(secs, offset) && -86_400 < offset < 86_400 && text@
                == local_clock_text(secs, nanos, offset),
{
}

/// A second has a text just where the calendar holds it. The text is in UTC and
/// without a fraction, and the second can be read back from it where the year has
/// four digits.
pub proof fn law_iso_text_names_the_second(ts: i64, text: Option<String>)
    requires
        call_ensures(to_iso, (ts,), text),
    ensures
        text is Some <==> -8_334_601_228_800 <= ts <= 8_210_266_876_799,
        text matches Some(t) ==> t@ == rfc3339_utc(ts, 0),
        text matches Some(t) ==> "+00:00"@.is_suffix_of(t@) && !t@.contains('.'),
        text matches Some(t) ==> -62_167_219_200 <= ts <= 253_402_300_799 ==> rfc3339_instant(t@)
            == Some((ts, 0u32)),
{
}

/// The instants of the calendar, those with a year of four digits, and those that
/// can be read from a text, in numbers.
pub proof fn law_instants_in_numbers(secs: i64, nanos: u32)
    ensures
        is_instant(secs, nanos) <==> -8_334_601_228_800 <= secs <= 8_210_266_876_799 && (nanos
            < 1_000_000_000 || (nanos < 2_000_000_000 && secs % 60 == 59)),
        is_common_instant(secs, nanos) <==> -62_167_219_200 <= secs <= 253_402_300_799 && nanos
            < 1_000_000_000,
        is_written_instant(secs, nanos) <==> is_instant(secs, nanos) && -62_167_305_600 < secs
            < 253_402_387_199,
{
}

/// What it is for a text to give its instant in UTC, and to have a fraction.
pub proof fn law_marks_of_iso_texts(text: Seq<char>)
    ensures
        is_utc_text(text) <==> "+00:00"@.is_suffix_of(text),
        has_fraction(text) <==> exists|i: int| 0 <= i < text.len() && #[trigger] text[i] == '.',
{
}

} // verus!
