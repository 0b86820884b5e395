//! What is left of a limit, as a gauge shows it.

use vstd::prelude::*;

use crate::text::{
    decimal, decimal_value, law_decimal_is_all_digits, law_decimal_reads_back, law_no_leading_zero,
    law_number_ends_at_non_digit, push_decimal,
};
use crate::types::UsageResponse;

verus! {

/// The colors that the screen uses.
#[derive(Debug, Clone, Copy, PartialEq, Eq, Structural)]
pub enum TextColor {
    Red,
    Yellow,
    Green,
}

/// The style of a text or a bar.
#[derive(Debug, Clone, Copy, PartialEq, Eq, Structural)]
pub struct TextStyle {
    pub color: TextColor,
    pub bold: bool,
}

/// The used percentage of the session's or the week's window, where it is known.
pub open spec fn known_used(usage: Option<&UsageResponse>, session: bool) -> Option<u32> {
    match usage {
        Some(u) => if session {
            u.data.session_used_percent
        } else {
            u.data.weekly_used_percent
        },
        None => None,
    }
}

/// The percentage that is left: none where more than all is used, or where
/// nothing is known.
pub open spec fn remaining_percent(used: Option<u32>) -> nat {
    match used {
        Some(u) => if u >= 100 {
            0
        } else {
            (100 - u) as nat
        },
        None => 0,
    }
}

/// The label of a gauge.
pub open spec fn remaining_label(used: Option<u32>) -> Seq<char> {
    match used {
        Some(_) => decimal(remaining_percent(used)) + "% left"@,
        None => "N/A"@,
    }
}

/// The style for a percentage that is left: alarming up to a tenth, a warning up
/// to a quarter.
pub open spec fn style_of_remaining(percent: nat) -> TextStyle {
    if percent <= 10 {
        TextStyle { color: TextColor::Red, bold: true }
    } else if percent <= 25 {
        TextStyle { color: TextColor::Yellow, bold: false }
    } else {
        TextStyle { color: TextColor::Green, bold: false }
    }
}

/// The percentage that is left of the session's or the week's limit, and its label.
pub fn remaining_meter(usage: Option<&UsageResponse>, session: bool) -> (meter: (u32, String))
    ensures
        meter.0 == remaining_percent(known_used(usage, session)),
        meter.1@ == remaining_label(known_used(usage, session)),
        meter.0 <= 100,
{
    if let Some(usage) = usage {
        let used = if session {
            usage.data.session_used_percent
        } else {
            usage.data.weekly_used_percent
        };
        if let Some(used) = used {
            let remaining: u32 = 100u32.saturating_sub(used);
            let mut label = String::new();
            push_decimal(&mut label, remaining as u64);
            label.append("% left");
            assert(label@ =~= decimal(remaining as nat) + "% left"@);
            return (remaining, label);
        }
    }
    (0, "N/A".to_string())
}

/// The style for a percentage that is left.
pub fn remaining_style(percent: u32) -> (style: TextStyle)
    ensures
        style == style_of_remaining(percent as nat),
{
    if percent <= 10 {
        TextStyle { color: TextColor::Red, bold: true }
    } else if percent <= 25 {
        TextStyle { color: TextColor::Yellow, bold: false }
    } else {
        TextStyle { color: TextColor::Green, bold: false }
    }
}

/// What is used and what is left make up the whole, as long as no more than the
/// whole is used.
pub proof fn law_used_and_left_make_the_whole(used: u32)
    requires
        used <= 100,
    ensures
        used + remaining_percent(Some(used)) == 100,
{
}

/// The more is used, the less is left, and never more than the whole.
pub proof fn law_more_used_less_left(less: u32, more: u32)
    requires
        less <= more,
    ensures
        remaining_percent(Some(more)) <= remaining_percent(Some(less)) <= 100,
{
}

/// Two known usages have the same label just when the same percentage is left,
/// and no label of a known usage reads like that of an unknown one.
pub proof fn law_label_tells_percentage(a: u32, b: u32)
    ensures
        remaining_label(Some(a)) == remaining_label(Some(b)) <==> remaining_percent(Some(a))
            == remaining_percent(Some(b)),
        remaining_label(Some(a)) != remaining_label(None),
{
    reveal_strlit("% left");
    reveal_strlit("N/A");
    law_number_ends_at_non_digit(
        remaining_percent(Some(a)),
        "% left"@,
        remaining_percent(Some(b)),
        "% left"@,
    );
    assert(remaining_label(Some(a)).last() == 't');
}

/// An alarming style stays alarming as less is left, and a style without a
/// warning stays so as more is left.
pub proof fn law_style_follows_remaining(less: nat, more: nat)
    requires
        less <= more,
    ensures
        style_of_remaining(more).color == TextColor::Red ==> style_of_remaining(less).color
            == TextColor::Red,
        style_of_remaining(less).color == TextColor::Green ==> style_of_remaining(more).color
            == TextColor::Green,
{
}

/// The gauge of a known usage shows 100 less what is used, and nothing from 100 on;
/// its label ends with "% left", and the digits before that read as the same number,
/// without a leading zero. The gauge of an unknown usage is empty, and labelled so.
pub proof fn law_meter_tells_what_is_left(
    usage: Option<&UsageResponse>,
    session: bool,
    meter: (u32, String),
)
    requires
        call_ensures(remaining_meter, (usage, session), meter),
    ensures
        usage is None ==> meter.0 == 0 && meter.1@ == "N/A"@,
        usage matches Some(u) ==> (match if session {
            u.data.session_used_percent
        } else {
            u.data.weekly_used_percent
        } {
            None => meter.0 == 0 && meter.1@ == "N/A"@,
            Some(used) => {
                let label = meter.1@;
                let digits = label.take(label.len() - 6);
                &&& used <= 100 ==> meter.0 + used == 100
                &&& used > 100 ==> meter.0 == 0
                &&& label.len() >= 7
                &&& label.skip(label.len() - 6) == "% left"@
                &&& decimal_value(digits) == meter.0
                &&& forall|i: int| 0 <= i < digits.len() ==> '0' <= #[trigger] digits[i] <= '9'
                &&& digits.len() > 1 ==> digits[0] != '0'
            },
        }),
{
    if let Some(u) = usage {
        let used = if session {
            u.data.session_used_percent
        } else {
            u.data.weekly_used_percent
        };
        if let Some(used) = used {
            law_label_reads_as_what_is_left(used);
        }
    }
}

/// What is left of a known usage is 100 less what is used, and nothing from 100 on;
/// its label ends with "% left", and the digits before that read as the same number,
/// without a leading zero. Of an unknown usage nothing is left.
pub proof fn law_label_reads_as_what_is_left(used: u32)
    ensures
        used <= 100 ==> remaining_percent(Some(used)) + used == 100,
        used > 100 ==> remaining_percent(Some(used)) == 0,
        remaining_percent(None) == 0,
        remaining_label(None) == "N/A"@,
        ({
            let label = remaining_label(Some(used));
            let digits = label.take(label.len() - 6);
            &&& label.len() >= 7
            &&& label.skip(label.len() - 6) == "% left"@
            &&& decimal_value(digits) == remaining_percent(Some(used))
            &&& forall|i: int| 0 <= i < digits.len() ==> '0' <= #[trigger] digits[i] <= '9'
            &&& digits.len() > 1 ==> digits[0] != '0'
        }),
{
    reveal_strlit("% left");
    let left = remaining_percent(Some(used));
    let label = remaining_label(Some(used));
    law_decimal_reads_back(left);
    law_decimal_is_all_digits(left);
    law_no_leading_zero(left);
    assert(label.take(label.len() - 6) =~= decimal(left));
    assert(label.skip(label.len() - 6) =~= "% left"@);
}

/// The used percentage that is known is the one that the data holds, for the
/// session and for the week.
pub proof fn law_known_used_is_that_of_the_data(usage: UsageResponse)
    ensures
        known_used(Some(&usage), true) == usage.data.session_used_percent,
        known_used(Some(&usage), false) == usage.data.weekly_used_percent,
        known_used(None, true) is None,
        known_used(None, false) is None,
{
}

/// Up to 10 percent left are shown red and bold, up to 25 yellow, and more green.
pub proof fn law_style_warns_in_steps(percent: u32, style: TextStyle)
    requires
        call_ensures(remaining_style, (percent,), style),
    ensures
        style.color == TextColor::Red <==> percent <= 10,
        style.color == TextColor::Yellow <==> 11 <= percent <= 25,
        style.color == TextColor::Green <==> percent >= 26,
        style.bold <==> percent <= 10,
{
}

/// The style that goes with a percentage, in numbers.
pub proof fn law_style_in_numbers(percent: nat)
    ensures
        style_of_remaining(percent).color == TextColor::Red <==> percent <= 10,
        style_of_remaining(percent).color == TextColor::Yellow <==> 11 <= percent <= 25,
        style_of_remaining(percent).color == TextColor::Green <==> percent >= 26,
        style_of_remaining(percent).bold <==> percent <= 10,
{
}

} // verus!
