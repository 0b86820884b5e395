//! How much time is left until a limit window ends.

use vstd::prelude::*;

use crate::clock::{is_utc_reading, utc_now, LAST_SECOND};
use crate::text::{decimal, law_number_ends_at_non_digit, push_decimal};

verus! {

/// Seconds in a day.
pub const DAY: i64 = 86_400;

/// Seconds in an hour.
pub const HOUR: i64 = 3_600;

/// Seconds in a minute.
pub const MINUTE: i64 = 60;

/// The seconds from one moment to another, kept within 64 bits.
pub open spec fn seconds_left(reset_at: i64, now: i64) -> int {
    if reset_at - now > i64::MAX {
        i64::MAX as int
    } else if reset_at - now < i64::MIN {
        i64::MIN as int
    } else {
        reset_at - now
    }
}

/// A countdown: the two largest units from a day on, from an hour on, or the
/// minutes alone.
pub open spec fn countdown(secs: int) -> Seq<char> {
    let days = (secs / DAY as int) as nat;
    let hours = (secs % DAY as int / HOUR as int) as nat;
    let minutes = (secs % HOUR as int / MINUTE as int) as nat;
    if secs <= 0 {
        "now"@
    } else if days > 0 {
        decimal(days) + "d "@ + decimal(hours) + "h"@
    } else if hours > 0 {
        decimal(hours) + "h "@ + decimal(minutes) + "m"@
    } else {
        decimal(minutes) + "m"@
    }
}

/// The time left until a moment, which may not be known.
pub open spec fn time_left(reset_at: Option<i64>, now: i64) -> Seq<char> {
    match reset_at {
        Some(r) => countdown(seconds_left(r, now)),
        None => "unknown"@,
    }
}

/// The seconds that a countdown tells: whole hours from a day on, whole minutes
/// below that.
pub open spec fn told_seconds(secs: int) -> int {
    if secs <= 0 {
        0
    } else if secs >= DAY {
        secs / DAY as int * DAY + secs % DAY as int / HOUR as int * HOUR
    } else {
        secs / HOUR as int * HOUR + secs % HOUR as int / MINUTE as int * MINUTE
    }
}

fn saturating_difference(a: i64, b: i64) -> (difference: i64)
    ensures
        difference == seconds_left(a, b),
{
    match a.checked_sub(b) {
        Some(difference) => difference,
        None => if b < 0 {
            i64::MAX
        } else {
            i64::MIN
        },
    }
}

/// The time left at a given second until a moment, which may not be known.
pub fn format_time_left_at(reset_at: Option<i64>, now: i64) -> (text: String)
    ensures
        text@ == time_left(reset_at, now),
{
    let reset_at: i64 = match reset_at {
        Some(r) => r,
        None => return "unknown".to_string(),
    };
    let secs: i64 = saturating_difference(reset_at, now);
    if secs <= 0 {
        return "now".to_string();
    }
    let days: i64 = secs / DAY;
    let hours: i64 = secs % DAY / HOUR;
    let minutes: i64 = secs % HOUR / MINUTE;
    let mut text = String::new();
    if days > 0 {
        push_decimal(&mut text, days as u64);
        text.append("d ");
        push_decimal(&mut text, hours as u64);
        text.append("h");
    } else if hours > 0 {
        push_decimal(&mut text, hours as u64);
        text.append("h ");
        push_decimal(&mut text, minutes as u64);
        text.append("m");
    } else {
        push_decimal(&mut text, minutes as u64);
        text.append("m");
    }
    assert(text@ =~= countdown(secs as int));
    text
}

/// Whether a text tells the time left until a moment, as seen at a second that
/// the clock has shown.
pub open spec fn tells_time_left(text: Seq<char>, reset_at: Option<i64>) -> bool {
    match reset_at {
        Some(r) => exists|now: i64, nanos: u32|
            0 <= now <= LAST_SECOND && #[trigger] is_utc_reading(now, nanos) && text == time_left(
                reset_at,
                now,
            ),
        None => text == "unknown"@,
    }
}

/// The time left until a moment, which may not be known. The second at which it
/// is seen is what the clock shows.
pub fn format_time_left(reset_at: Option<i64>) -> (text: String)
    ensures
        tells_time_left(text@, reset_at),
{
    if reset_at.is_none() {
        return "unknown".to_string();
    }
    let (now, nanos) = utc_now();
    let text = format_time_left_at(reset_at, now);
    assert(is_utc_reading(now, nanos) && text@ == time_left(reset_at, now));
    text
}

/// A countdown never tells more time than is left, and falls short by less than
/// the smallest unit that it shows: an hour from a day on, a minute below that.
pub proof fn law_countdown_is_tight(secs: int)
    requires
        secs > 0,
    ensures
        told_seconds(secs) <= secs,
        secs >= DAY ==> secs < told_seconds(secs) + HOUR,
        secs < DAY ==> secs < told_seconds(secs) + MINUTE,
        secs % DAY as int / HOUR as int <= 23,
        secs % HOUR as int / MINUTE as int <= 59,
{
}

/// What a countdown tells only shrinks as time passes.
pub proof fn law_countdown_shrinks(earlier: int, later: int)
    requires
        later <= earlier,
    ensures
        told_seconds(later) <= told_seconds(earlier),
{
    if later > 0 {
        lemma_told_seconds(later);
        lemma_told_seconds(earlier);
        lemma_whole_units_are_ordered(
            later,
            earlier,
            told_seconds(later),
            told_seconds(earlier),
        );
    }
}

/// Whether this many seconds are the whole hours of a time, from a day on, or its
/// whole minutes, below that.
spec fn are_whole_units(told: int, secs: int) -> bool {
    if secs >= DAY {
        told % HOUR as int == 0 && DAY <= told <= secs < told + HOUR
    } else {
        told % MINUTE as int == 0 && told <= secs < told + MINUTE
    }
}

proof fn lemma_told_seconds(secs: int)
    requires
        secs > 0,
    ensures
        are_whole_units(told_seconds(secs), secs),
{
    law_countdown_is_tight(secs);
}

proof fn lemma_whole_units_are_ordered(a: int, b: int, told_a: int, told_b: int)
    requires
        a <= b,
        are_whole_units(told_a, a),
        are_whole_units(told_b, b),
    ensures
        told_a <= told_b,
{
}

/// The countdown reads "now" just when no second is left.
pub proof fn law_now_means_over(secs: int)
    ensures
        countdown(secs) == "now"@ <==> secs <= 0,
{
    reveal_strlit("now");
    reveal_strlit("h");
    reveal_strlit("m");
    if secs > 0 {
        assert(countdown(secs).last() == 'h' || countdown(secs).last() == 'm');
    }
}

/// Two countdowns with time left read the same just when they tell the same seconds.
pub proof fn law_countdown_tells_seconds(a: int, b: int)
    requires
        a > 0,
        b > 0,
    ensures
        countdown(a) == countdown(b) <==> told_seconds(a) == told_seconds(b),
{
    lemma_countdown_is_written(a);
    lemma_countdown_is_written(b);
    lemma_countdown_is_read(countdown_parts(a), countdown_parts(b));
    lemma_parts_tell_seconds(a);
    lemma_parts_tell_seconds(b);
    lemma_seconds_tell_parts(countdown_parts(a), countdown_parts(b));
}

/// The largest unit of a countdown.
enum Unit {
    Days,
    Hours,
    Minutes,
}

/// The parts of a countdown: its largest unit, the number of these, and the number
/// of the next smaller ones, which is 0 where they are not shown.
struct Parts {
    unit: Unit,
    first: nat,
    second: nat,
}

spec fn countdown_parts(secs: int) -> Parts {
    if secs >= DAY {
        Parts {
            unit: Unit::Days,
            first: (secs / DAY as int) as nat,
            second: (secs % DAY as int / HOUR as int) as nat,
        }
    } else if secs >= HOUR {
        Parts {
            unit: Unit::Hours,
            first: (secs / HOUR as int) as nat,
            second: (secs % HOUR as int / MINUTE as int) as nat,
        }
    } else {
        Parts { unit: Unit::Minutes, first: (secs / MINUTE as int) as nat, second: 0 }
    }
}

impl Parts {
    /// What follows the first number.
    spec fn rest(self) -> Seq<char> {
        match self.unit {
            Unit::Days => "d "@ + (decimal(self.second) + "h"@),
            Unit::Hours => "h "@ + (decimal(self.second) + "m"@),
            Unit::Minutes => "m"@,
        }
    }

    spec fn seconds(self) -> int {
        match self.unit {
            Unit::Days => self.first * DAY + self.second * HOUR,
            Unit::Hours => self.first * HOUR + self.second * MINUTE,
            Unit::Minutes => self.first * MINUTE,
        }
    }

    /// Whether no number makes up a larger unit.
    spec fn is_reduced(self) -> bool {
        match self.unit {
            Unit::Days => 1 <= self.first && self.second < 24,
            Unit::Hours => 1 <= self.first < 24 && self.second < 60,
            Unit::Minutes => self.first < 60 && self.second == 0,
        }
    }
}

proof fn lemma_countdown_is_written(secs: int)
    requires
        secs > 0,
    ensures
        countdown(secs) == decimal(countdown_parts(secs).first) + countdown_parts(secs).rest(),
{
    let parts = countdown_parts(secs);
    assert(countdown(secs) =~= decimal(parts.first) + parts.rest());
}

proof fn lemma_parts_tell_seconds(secs: int)
    requires
        secs > 0,
    ensures
        countdown_parts(secs).is_reduced(),
        countdown_parts(secs).seconds() == told_seconds(secs),
{
}

proof fn lemma_seconds_tell_parts(a: Parts, b: Parts)
    requires
        a.is_reduced(),
        b.is_reduced(),
    ensures
        a.seconds() == b.seconds() <==> a == b,
{
}

proof fn lemma_countdown_is_read(a: Parts, b: Parts)
    requires
        a.unit is Minutes ==> a.second == 0,
        b.unit is Minutes ==> b.second == 0,
    ensures
        decimal(a.first) + a.rest() == decimal(b.first) + b.rest() <==> a == b,
{
    reveal_strlit("d ");
    reveal_strlit("h ");
    reveal_strlit("h");
    reveal_strlit("m");
    law_number_ends_at_non_digit(a.first, a.rest(), b.first, b.rest());
    if a.rest() == b.rest() {
        assert(a.rest()[0] == b.rest()[0]);
        if a.unit !is Minutes {
            let end = if a.unit is Days { "h"@ } else { "m"@ };
            law_number_ends_at_non_digit(a.second, end, b.second, end);
            assert(decimal(a.second) + end =~= a.rest().skip(2));
            assert(decimal(b.second) + end =~= b.rest().skip(2));
        }
    }
}

/// A countdown of days shows days and hours, one of hours shows hours and minutes,
/// and any other shows minutes. Where no time is left it reads "now".
pub proof fn law_countdown_is_written_out(days: nat, hours: nat, minutes: nat, seconds: nat)
    requires
        hours < 24,
        minutes < 60,
        seconds < 60,
        days + hours + minutes + seconds > 0,
    ensures
        countdown((86_400 * days + 3_600 * hours + 60 * minutes + seconds) as int) == if days > 0 {
            decimal(days) + "d "@ + decimal(hours) + "h"@
        } else if hours > 0 {
            decimal(hours) + "h "@ + decimal(minutes) + "m"@
        } else {
            decimal(minutes) + "m"@
        },
        forall|secs: int| secs <= 0 ==> #[trigger] countdown(secs) == "now"@,
{
    let secs: int = (86_400 * days + 3_600 * hours + 60 * minutes + seconds) as int;
    assert(secs / 86_400 == days);
    assert(secs % 86_400 == 3_600 * hours + 60 * minutes + seconds);
    assert((3_600 * hours + 60 * minutes + seconds) / 3_600 == hours);
    assert(secs / 3_600 == 24 * days + hours);
    assert(secs % 3_600 == 60 * minutes + seconds);
    assert((60 * minutes + seconds) / 60 == minutes);
}

/// The time left until a moment that is so many days, hours, minutes and seconds
/// away is told in days and hours, in hours and minutes, or in minutes.
pub proof fn law_time_left_is_told(
    reset_at: i64,
    now: i64,
    days: nat,
    hours: nat,
    minutes: nat,
    seconds: nat,
    text: String,
)
    requires
        call_ensures(format_time_left_at, (Some(reset_at), now), text),
        hours < 24,
        minutes < 60,
        seconds < 60,
        reset_at - now == 86_400 * days + 3_600 * hours + 60 * minutes + seconds,
        now < reset_at <= now + i64::MAX,
    ensures
        days > 0 ==> text@ == decimal(days) + "d "@ + decimal(hours) + "h"@,
        days == 0 && hours > 0 ==> text@ == decimal(hours) + "h "@ + decimal(minutes) + "m"@,
        days == 0 && hours == 0 ==> text@ == decimal(minutes) + "m"@,
{
    law_countdown_is_written_out(days, hours, minutes, seconds);
}

/// A moment that has come is told as "now", one that is not known as "unknown", and
/// one that is further away than 64 bits can count as the furthest that they can.
pub proof fn law_time_left_at_its_ends(reset_at: Option<i64>, now: i64, text: String)
    requires
        call_ensures(format_time_left_at, (reset_at, now), text),
    ensures
        reset_at is None ==> text@ == "unknown"@,
        reset_at matches Some(r) ==> r <= now ==> text@ == "now"@,
        reset_at matches Some(r) ==> r - now > 0x7fff_ffff_ffff_ffff ==> text@ == decimal(
            106_751_991_167_300,
        ) + "d "@ + decimal(15) + "h"@,
{
    law_countdown_is_written_out(106_751_991_167_300, 15, 30, 7);
}

/// The time left until a moment is the countdown of the seconds in between, as far
/// as 64 bits go.
pub proof fn law_time_left_counts_down(reset_at: i64, now: i64)
    ensures
        time_left(None, now) == "unknown"@,
        -0x8000_0000_0000_0000 <= reset_at - now <= 0x7fff_ffff_ffff_ffff ==> time_left(
            Some(reset_at),
            now,
        ) == countdown(reset_at - now),
        reset_at - now > 0x7fff_ffff_ffff_ffff ==> time_left(Some(reset_at), now) == countdown(
            0x7fff_ffff_ffff_ffff,
        ),
        reset_at <= now ==> time_left(Some(reset_at), now) == "now"@,
{
}

/// What is told of a moment that is known is what is left of it at a second that
/// the clock has shown; of one that is not known it is told that it is not.
pub proof fn law_time_left_goes_by_the_clock(text: Seq<char>, reset_at: Option<i64>)
    requires
        tells_time_left(text, reset_at),
    ensures
        reset_at is None ==> text == "unknown"@,
        reset_at matches Some(r) ==> exists|now: i64, nanos: u32| #[trigger]
            is_utc_reading(now, nanos) && now >= 0 && text == time_left(Some(r), now),
{
}

/// Where the clock has shown but one second, what is told is what is left then.
pub proof fn law_time_left_now(reset_at: Option<i64>, now: i64, text: String)
    requires
        call_ensures(format_time_left, (reset_at,), text),
        forall|secs: i64, nanos: u32| #[trigger] is_utc_reading(secs, nanos) ==> secs == now,
    ensures
        reset_at is None ==> text@ == "unknown"@,
        reset_at is Some ==> text@ == time_left(reset_at, now),
{
}

} // verus!
