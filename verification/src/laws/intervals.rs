//! Texts of intervals that can be read.
use crate::resources::interval::{
    after_unit, becomes_too_long, digit_count, in_fraction, is_interval_in_range, is_too_long, most_seconds,
    number_value,
};
use crate::text::decimal_value;
use vstd::prelude::*;

use super::webhooks::are_digits;

verus! {

/// Seconds of a unit of time by the first letter of its name: years, months, weeks, days, hours, minutes,
/// and anything that is no longer than a second.
pub open spec fn seconds_in(unit: char) -> int {
    if unit == 'y' {
        31_557_600
    } else if unit == 'M' {
        2_630_016
    } else if unit == 'w' {
        604_800
    } else if unit == 'd' {
        86_400
    } else if unit == 'h' {
        3600
    } else if unit == 'm' {
        60
    } else {
        1
    }
}

/// The character is a letter that can stand in the name of a unit of time.
pub open spec fn is_letter(c: char) -> bool {
    (97 <= c as int <= 122) || (65 <= c as int <= 90) || c as int == 0xb5
}

/// Texts of up to 18 characters are in range, whatever they say.
pub proof fn law_short_intervals_are_in_range(text: &str, r: bool)
    requires
        call_ensures(is_interval_in_range, (text,), r),
        text@.len() <= 18,
    ensures
        r,
{
    lemma_digit_count(text@);
}

proof fn lemma_digit_count(text: Seq<char>)
    ensures
        digit_count(text) <= text.len(),
    decreases text.len(),
{
    if text.len() > 0 {
        lemma_digit_count(text.drop_last());
    }
}

proof fn lemma_number(before: Seq<char>, digits: Seq<char>)
    requires
        before.len() == 0 || is_letter(before.last()),
        are_digits(digits),
    ensures
        most_seconds(before + digits) == most_seconds(before),
        !in_fraction(before + digits),
        digits.len() > 0 ==> number_value(before + digits) == decimal_value(digits) && !after_unit(before + digits),
        digits.len() == 0 ==> before + digits == before,
    decreases digits.len(),
{
    let text = before + digits;
    if digits.len() == 0 {
        assert(text =~= before);
    } else {
        let fewer = digits.drop_last();
        assert(text.drop_last() =~= before + fewer);
        assert(text.last() == digits.last());
        assert(are_digits(fewer)) by {
            assert forall|i: int| 0 <= i < fewer.len() implies crate::text::is_digit(#[trigger] fewer[i]) by {
                assert(fewer[i] == digits[i]);
            }
        }
        assert(crate::text::is_digit(digits[digits.len() - 1]));
        lemma_number(before, fewer);
        assert(decimal_value(digits) == 10 * decimal_value(fewer) + crate::text::digit_value(digits.last()));
        if fewer.len() == 0 {
            assert(before + fewer =~= before);
            assert(decimal_value(fewer) == 0);
            if before.len() > 0 {
                assert(after_unit(before));
            } else {
                assert(!after_unit(before) && number_value(before) == 0);
            }
        }
    }
}

/// A number and the name of a unit behind a text that ends in a unit count for as many seconds more as
/// they say.
pub proof fn law_lengths_of_time_add_up(before: Seq<char>, digits: Seq<char>, unit: char)
    requires
        before.len() == 0 || is_letter(before.last()),
        digits.len() > 0,
        are_digits(digits),
        is_letter(unit),
    ensures
        most_seconds((before + digits).push(unit)) == most_seconds(before) + decimal_value(digits) * seconds_in(unit),
{
    let text = (before + digits).push(unit);
    lemma_number(before, digits);
    assert(text.drop_last() =~= before + digits);
    assert(text.last() == unit);
    assert(text[text.len() - 2] == digits.last());
    assert(crate::text::is_digit(digits[digits.len() - 1]));
}

/// A text is in range that begins with more seconds than 64 bits have numbers for, whatever else it says.
pub proof fn law_interval_too_long_is_in_range(text: &str, digits: Seq<char>, unit: char, rest: Seq<char>, r: bool)
    requires
        call_ensures(is_interval_in_range, (text,), r),
        text@ == digits.push(unit) + rest,
        digits.len() > 0,
        are_digits(digits),
        is_letter(unit),
        decimal_value(digits) * seconds_in(unit) >= 0x1_0000_0000_0000_0000,
    ensures
        r,
{
    let begin = digits.push(unit);
    let empty = Seq::<char>::empty();
    lemma_number(empty, digits);
    assert(empty + digits =~= digits);
    assert(begin.drop_last() =~= digits);
    assert(begin[begin.len() - 2] == digits.last());
    assert(crate::text::is_digit(digits[digits.len() - 1]));
    assert(becomes_too_long(begin));
    assert(text@.take(begin.len() as int) =~= begin);
    assert(is_too_long(text@));
}

} // verus!
