//! Texts put together from literals and numbers.

use vstd::prelude::*;

verus! {

/// The characters of an optional text.
pub open spec fn text_of(text: Option<String>) -> Option<Seq<char>> {
    match text {
        Some(t) => Some(t@),
        None => None,
    }
}

/// The character of a decimal digit.
pub open spec fn digit_char(digit: nat) -> char {
    (0x30 + digit) as char
}

/// A number in decimal, without leading zeros.
pub open spec fn decimal(n: nat) -> Seq<char>
    decreases n,
{
    if n < 10 {
        seq![digit_char(n)]
    } else {
        decimal(n / 10).push(digit_char(n % 10))
    }
}

/// The digit that a character stands for.
pub open spec fn digit_value(c: char) -> nat {
    (c as int - 0x30) as nat
}

/// The number that a row of decimal digits stands for.
pub open spec fn decimal_value(digits: Seq<char>) -> nat
    decreases digits.len(),
{
    if digits.len() == 0 {
        0
    } else {
        10 * decimal_value(digits.drop_last()) + digit_value(digits.last())
    }
}

/// A number can be read back from its decimal text, so different numbers have different texts.
pub proof fn law_decimal_reads_back(n: nat)
    ensures
        decimal_value(decimal(n)) == n,
    decreases n,
{
    reveal_with_fuel(decimal_value, 2);
    if n >= 10 {
        law_decimal_reads_back(n / 10);
        assert(decimal(n).drop_last() =~= decimal(n / 10));
    } else {
        assert(decimal(n).drop_last() =~= Seq::<char>::empty());
    }
}

/// Every character of a decimal text is a digit, and there is at least one.
pub proof fn law_decimal_is_all_digits(n: nat)
    ensures
        decimal(n).len() >= 1,
        forall|i: int| 0 <= i < decimal(n).len() ==> '0' <= #[trigger] decimal(n)[i] <= '9',
    decreases n,
{
    if n >= 10 {
        law_decimal_is_all_digits(n / 10);
    }
}

/// A number in front of a text that does not begin with a digit can be told
/// from that text.
pub proof fn law_number_ends_at_non_digit(n: nat, rest: Seq<char>, m: nat, other: Seq<char>)
    requires
        rest.len() > 0 && !('0' <= rest[0] <= '9'),
        other.len() > 0 && !('0' <= other[0] <= '9'),
    ensures
        decimal(n) + rest == decimal(m) + other <==> n == m && rest == other,
{
    law_decimal_is_all_digits(n);
    law_decimal_is_all_digits(m);
    let a = decimal(n) + rest;
    let b = decimal(m) + other;
    if a == b {
        assert(a[decimal(n).len() as int] == rest[0]);
        assert(b[decimal(m).len() as int] == other[0]);
        if decimal(n).len() < decimal(m).len() {
            assert(b[decimal(n).len() as int] == decimal(m)[decimal(n).len() as int]);
        }
        if decimal(m).len() < decimal(n).len() {
            assert(a[decimal(m).len() as int] == decimal(n)[decimal(m).len() as int]);
        }
        assert(decimal(n) =~= a.take(decimal(n).len() as int));
        assert(decimal(m) =~= b.take(decimal(m).len() as int));
        assert(rest =~= a.skip(decimal(n).len() as int));
        assert(other =~= b.skip(decimal(m).len() as int));
        law_decimal_reads_back(n);
        law_decimal_reads_back(m);
    }
}

fn digit_text(digit: u64) -> (text: &'static str)
    requires
        digit < 10,
    ensures
        text@ == seq![digit_char(digit as nat)],
{
    proof {
        reveal_strlit("0");
        reveal_strlit("1");
        reveal_strlit("2");
        reveal_strlit("3");
        reveal_strlit("4");
        reveal_strlit("5");
        reveal_strlit("6");
        reveal_strlit("7");
        reveal_strlit("8");
        reveal_strlit("9");
    }
    match digit {
        0 => "0",
        1 => "1",
        2 => "2",
        3 => "3",
        4 => "4",
        5 => "5",
        6 => "6",
        7 => "7",
        8 => "8",
        _ => "9",
    }
}

/// Appends a number in decimal.
pub fn push_decimal(out: &mut String, n: u64)
    ensures
        final(out)@ == old(out)@ + decimal(n as nat),
    decreases n,
{
    if n >= 10 {
        push_decimal(out, n / 10);
    }
    out.append(digit_text(n % 10));
}

/// A text with another one behind it.
pub fn joined(prefix: &str, rest: &str) -> (text: String)
    ensures
        text@ == prefix@ + rest@,
{
    let mut text = prefix.to_string();
    text.append(rest);
    text
}

/// The digits, as they are written.
pub proof fn law_digits_are_written()
    ensures
        decimal(0) == "0"@,
        decimal(1) == "1"@,
        decimal(2) == "2"@,
        decimal(3) == "3"@,
        decimal(4) == "4"@,
        decimal(5) == "5"@,
        decimal(6) == "6"@,
        decimal(7) == "7"@,
        decimal(8) == "8"@,
        decimal(9) == "9"@,
{
    reveal_strlit("0");
    reveal_strlit("1");
    reveal_strlit("2");
    reveal_strlit("3");
    reveal_strlit("4");
    reveal_strlit("5");
    reveal_strlit("6");
    reveal_strlit("7");
    reveal_strlit("8");
    reveal_strlit("9");
    assert(decimal(0) =~= "0"@ && decimal(1) =~= "1"@ && decimal(2) =~= "2"@);
    assert(decimal(3) =~= "3"@ && decimal(4) =~= "4"@ && decimal(5) =~= "5"@);
    assert(decimal(6) =~= "6"@ && decimal(7) =~= "7"@ && decimal(8) =~= "8"@);
    assert(decimal(9) =~= "9"@);
}

/// Ten times a number and a digit more is written as the number with that digit
/// behind it.
pub proof fn law_digit_is_appended(n: nat, digit: nat)
    requires
        n > 0,
        digit < 10,
    ensures
        decimal(10 * n + digit) == decimal(n) + decimal(digit),
{
    assert((10 * n + digit) / 10 == n);
    assert(decimal(10 * n + digit) =~= decimal(n) + decimal(digit));
}

/// No text stands for nothing, and a digit behind a row of digits makes ten times
/// as much and that digit more.
pub proof fn law_digits_count_in_tens(digits: Seq<char>, digit: nat)
    requires
        digit < 10,
    ensures
        decimal_value(Seq::empty()) == 0,
        decimal_value(digits + decimal(digit)) == 10 * decimal_value(digits) + digit,
{
    assert((digits + decimal(digit)).drop_last() =~= digits);
}

/// A number of more than one digit does not begin with a zero.
pub proof fn law_no_leading_zero(n: nat)
    ensures
        decimal(n).len() > 1 ==> decimal(n)[0] != '0',
        n > 0 ==> decimal(n)[0] != '0',
    decreases n,
{
    if n >= 10 {
        law_no_leading_zero(n / 10);
        law_decimal_is_all_digits(n / 10);
    }
}

/// Appending a number keeps what is there, and puts digits behind it from which
/// the number can be read, without a leading zero.
pub proof fn law_number_is_appended(out: &mut String, n: u64)
    requires
        call_ensures(push_decimal, (out, n), ()),
    ensures
        final(out)@.len() > old(out)@.len(),
        final(out)@.take(old(out)@.len() as int) == old(out)@,
        forall|i: int|
            old(out)@.len() <= i < final(out)@.len() ==> '0' <= #[trigger] final(out)@[i] <= '9',
        decimal_value(final(out)@.skip(old(out)@.len() as int)) == n,
        n > 0 ==> final(out)@[old(out)@.len() as int] != '0',
        n == 0 ==> final(out)@.len() == old(out)@.len() + 1,
{
    law_decimal_reads_back(n as nat);
    law_decimal_is_all_digits(n as nat);
    law_no_leading_zero(n as nat);
    let before = old(out)@;
    let after = final(out)@;
    let digits = decimal(n as nat);
    assert(after.take(before.len() as int) =~= before);
    assert(after.skip(before.len() as int) =~= digits);
    assert forall|i: int| before.len() <= i < after.len() implies '0' <= #[trigger] after[i]
        <= '9' by {
        assert(after[i] == digits[i - before.len()]);
    }
}

/// A text with another one behind it holds both whole, and nothing else.
pub proof fn law_joined_holds_both(prefix: &str, rest: &str, text: String)
    requires
        call_ensures(joined, (prefix, rest), text),
    ensures
        text@.len() == prefix@.len() + rest@.len(),
        text@.take(prefix@.len() as int) == prefix@,
        text@.skip(prefix@.len() as int) == rest@,
{
    assert(text@.take(prefix@.len() as int) =~= prefix@);
    assert(text@.skip(prefix@.len() as int) =~= rest@);
}

/// The characters of an optional text are those of the text, where there is one.
pub proof fn law_text_of_keeps_characters(text: Option<String>)
    ensures
        text_of(text) is Some <==> text is Some,
        text matches Some(t) ==> text_of(text) == Some(t@),
{
}

} // verus!
