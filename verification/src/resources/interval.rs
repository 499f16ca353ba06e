//! Texts of intervals, such as `1h 30m`.
use crate::text::{chars_of, digit_value, is_digit};
use crate::time::Duration;
use vstd::prelude::*;

verus! {

/// Number of decimal digits in a text.
pub open spec fn digit_count(text: Seq<char>) -> nat
    decreases text.len(),
{
    if text.len() == 0 {
        0
    } else {
        digit_count(text.drop_last()) + if is_digit(text.last()) {
            1nat
        } else {
            0
        }
    }
}

/// The character can stand in the name of a unit of time.
pub open spec fn is_unit_char(c: char) -> bool {
    ('a' <= c && c <= 'z') || ('A' <= c && c <= 'Z') || c == '\u{b5}'
}

/// Number of unit names in a text: of longest runs of characters that can stand in one.
pub open spec fn unit_count(text: Seq<char>) -> nat
    decreases text.len(),
{
    if text.len() == 0 {
        0
    } else {
        let before = text.drop_last();
        unit_count(before) + if is_unit_char(text.last()) && (before.len() == 0 || !is_unit_char(before.last())) {
            1nat
        } else {
            0
        }
    }
}

/// The text ends in a fraction: a point stands behind its last unit.
pub open spec fn in_fraction(text: Seq<char>) -> bool
    decreases text.len(),
{
    if text.len() == 0 || is_unit_char(text.last()) {
        false
    } else {
        text.last() == '.' || in_fraction(text.drop_last())
    }
}

/// The last number of the text is over: a unit stands behind it.
pub open spec fn after_unit(text: Seq<char>) -> bool
    decreases text.len(),
{
    if text.len() == 0 || is_digit(text.last()) {
        false
    } else {
        is_unit_char(text.last()) || after_unit(text.drop_last())
    }
}

/// Value of the last number of the text, without a fraction.
pub open spec fn number_value(text: Seq<char>) -> int
    decreases text.len(),
{
    if text.len() == 0 {
        0
    } else {
        let before = text.drop_last();
        if is_digit(text.last()) && after_unit(before) {
            digit_value(text.last())
        } else if is_digit(text.last()) && !in_fraction(before) {
            10 * number_value(before) + digit_value(text.last())
        } else {
            number_value(before)
        }
    }
}

/// The text ends in the first character of a unit's name.
pub open spec fn starts_unit(text: Seq<char>) -> bool {
    text.len() > 0 && is_unit_char(text.last()) && (text.len() == 1 || !is_unit_char(
        text[text.len() - 2],
    ))
}

/// Seconds of a unit, by the first character of its name. What is shorter than a second counts as one,
/// and what begins as a minute does counts as one.
pub open spec fn unit_seconds(c: char) -> int {
    if c == 'y' {
        31_557_600
    } else if c == 'M' {
        2_630_016
    } else if c == 'w' {
        604_800
    } else if c == 'd' {
        86_400
    } else if c == 'h' {
        3_600
    } else if c == 'm' {
        60
    } else {
        1
    }
}

/// The first character of the name tells the unit's length.
pub open spec fn is_exact_unit(c: char) -> bool {
    c == 'y' || c == 'M' || c == 'w' || c == 'd' || c == 'h' || c == 's'
}

/// The text ends in the second character of the name of months.
pub open spec fn names_months(text: Seq<char>) -> bool {
    text.len() > 1 && text.last() == 'o' && text[text.len() - 2] == 'm' && starts_unit(text.drop_last())
}

/// Seconds that the lengths of time in a text make up at most.
pub open spec fn most_seconds(text: Seq<char>) -> int
    decreases text.len(),
{
    if text.len() == 0 {
        0
    } else {
        let before = text.drop_last();
        most_seconds(before) + if starts_unit(text) && in_fraction(before) {
            (number_value(before) + 1) * unit_seconds(text.last())
        } else if starts_unit(text) {
            number_value(before) * unit_seconds(text.last())
        } else if names_months(text) {
            (number_value(before) + 1) * 2_630_016
        } else {
            0
        }
    }
}

/// Seconds that the lengths of time in a text make up at least.
pub open spec fn least_seconds(text: Seq<char>) -> int
    decreases text.len(),
{
    if text.len() == 0 {
        0
    } else {
        let before = text.drop_last();
        least_seconds(before) + if starts_unit(text) && is_exact_unit(text.last()) {
            number_value(before) * unit_seconds(text.last())
        } else {
            0
        }
    }
}

/// The last length of time in the text is the first one with which they are too long, by itself or
/// together with those before it.
pub open spec fn becomes_too_long(text: Seq<char>) -> bool {
    &&& starts_unit(text)
    &&& most_seconds(text.drop_last()) < 0x1_0000_0000_0000_0000
    &&& least_seconds(text) >= 0x1_0000_0000_0000_0000 || number_value(text.drop_last()) * unit_seconds(
        text.last(),
    ) >= 0x1_0000_0000_0000_0000
}

/// Some beginning of the text is already too long.
pub open spec fn is_too_long(text: Seq<char>) -> bool {
    exists|i: int| 0 < i <= text.len() && becomes_too_long(#[trigger] text.take(i))
}

/// The text of an interval can be read, or is found to be too long before it is read to its end. With
/// more than 18 digits and more than one unit, seconds and fractions of a second can add up to exactly
/// one second more than a length of time can hold.
pub open spec fn interval_in_range(text: Seq<char>) -> bool {
    digit_count(text) <= 18 || unit_count(text) <= 1 || most_seconds(text) < 0x1_0000_0000_0000_0000
        || is_too_long(text)
}

/// A number up to the first one that is too large for the seconds of a length of time.
pub open spec fn capped(n: int) -> int {
    if n < 0x1_0000_0000_0000_0000 {
        n
    } else {
        0x1_0000_0000_0000_0000
    }
}

proof fn lemma_capped(total: int, number: int, weight: int)
    requires
        0 <= total,
        0 <= number,
        1 <= weight,
    ensures
        capped(capped(total) + capped(number) * weight) == capped(total + number * weight),
        capped(capped(total) + (capped(number) + 1) * weight) == capped(total + (number + 1) * weight),
        number * weight >= 0,
        capped(capped(number) * weight) == capped(number * weight),
{
    let cap = 0x1_0000_0000_0000_0000int;
    assert(number * weight >= number) by (nonlinear_arith)
        requires
            0 <= number,
            1 <= weight,
    ;
    assert(cap * weight >= cap) by (nonlinear_arith)
        requires
            cap == 0x1_0000_0000_0000_0000int,
            1 <= weight,
    ;
    assert((number + 1) * weight == number * weight + weight) by (nonlinear_arith);
    assert((cap + 1) * weight == cap * weight + weight) by (nonlinear_arith);
}

proof fn lemma_seconds_natural(text: Seq<char>)
    ensures
        number_value(text) >= 0,
        most_seconds(text) >= 0,
        least_seconds(text) >= 0,
    decreases text.len(),
{
    if text.len() > 0 {
        let before = text.drop_last();
        lemma_seconds_natural(before);
        let n = number_value(before);
        let weight = unit_seconds(text.last());
        assert((n + 1) * weight >= 0 && n * weight >= 0) by (nonlinear_arith)
            requires
                n >= 0,
                weight >= 1,
        ;
    }
}

fn seconds_of_unit(c: char) -> (r: u128)
    ensures
        r == unit_seconds(c),
        1 <= r <= 31_557_600,
{
    if c == 'y' {
        31_557_600
    } else if c == 'M' {
        2_630_016
    } else if c == 'w' {
        604_800
    } else if c == 'd' {
        86_400
    } else if c == 'h' {
        3_600
    } else if c == 'm' {
        60
    } else {
        1
    }
}

fn cap(n: u128) -> (r: u128)
    ensures
        r == capped(n as int),
{
    if n < 0x1_0000_0000_0000_0000 {
        n
    } else {
        0x1_0000_0000_0000_0000
    }
}

/// What is known of a text after it was looked at up to some character.
struct IntervalScan {
    fraction: bool,
    over: bool,
    number: u128,
    most: u128,
    least: u128,
    too_long: bool,
}

impl IntervalScan {
    spec fn is_of(self, text: Seq<char>) -> bool {
        &&& self.fraction == in_fraction(text)
        &&& self.over == after_unit(text)
        &&& self.number == capped(number_value(text))
        &&& self.most == capped(most_seconds(text))
        &&& self.least == capped(least_seconds(text))
        &&& self.too_long == is_too_long(text)
    }

    fn next(&mut self, c: char, start: bool, months: bool, Ghost(text): Ghost<Seq<char>>)
        requires
            old(self).is_of(text),
            start == starts_unit(text.push(c)),
            months == names_months(text.push(c)),
        ensures
            final(self).is_of(text.push(c)),
    {
        let ghost after = text.push(c);
        assert(after.drop_last() =~= text);
        proof {
            lemma_seconds_natural(text);
            lemma_seconds_natural(after);
            lemma_capped(most_seconds(text), number_value(text), unit_seconds(c));
            lemma_capped(least_seconds(text), number_value(text), unit_seconds(c));
            lemma_capped(most_seconds(text), number_value(text), 2_630_016);
            lemma_too_long_next(text, c);
        }
        if start {
            let weight: u128 = seconds_of_unit(c);
            assert(self.number * weight <= 0x1_0000_0000_0000_0000 * 31_557_600) by (nonlinear_arith)
                requires
                    self.number <= 0x1_0000_0000_0000_0000,
                    1 <= weight <= 31_557_600,
            ;
            assert((self.number + 1) * weight == self.number * weight + weight) by (nonlinear_arith);
            let fits: bool = self.most < 0x1_0000_0000_0000_0000;
            let alone: u128 = self.number * weight;
            if self.fraction {
                self.most = cap(self.most + (self.number + 1) * weight);
            } else {
                self.most = cap(self.most + alone);
            }
            if c == 'y' || c == 'M' || c == 'w' || c == 'd' || c == 'h' || c == 's' {
                self.least = cap(self.least + alone);
            }
            if fits && (self.least == 0x1_0000_0000_0000_0000 || alone >= 0x1_0000_0000_0000_0000) {
                self.too_long = true;
            }
        } else if months {
            self.most = cap(self.most + (self.number + 1) * 2_630_016);
        }
        let digit: bool = '0' <= c && c <= '9';
        let unit: bool = ('a' <= c && c <= 'z') || ('A' <= c && c <= 'Z') || c == '\u{b5}';
        if digit {
            let value: u128 = (c as u32 - '0' as u32) as u128;
            if self.over {
                self.number = value;
            } else if !self.fraction {
                self.number = cap(10 * self.number + value);
            }
        }
        self.over = !digit && (unit || self.over);
        self.fraction = !unit && (c == '.' || self.fraction);
    }
}

proof fn lemma_too_long_next(text: Seq<char>, c: char)
    ensures
        is_too_long(text.push(c)) == (is_too_long(text) || becomes_too_long(text.push(c))),
{
    let after = text.push(c);
    assert(after.take(after.len() as int) =~= after);
    if is_too_long(text) {
        let i = choose|i: int| 0 < i <= text.len() && becomes_too_long(#[trigger] text.take(i));
        assert(after.take(i) =~= text.take(i));
    }
    if is_too_long(after) {
        let i = choose|i: int| 0 < i <= after.len() && becomes_too_long(#[trigger] after.take(i));
        if i <= text.len() {
            assert(after.take(i) =~= text.take(i));
        }
    }
}

/// Tells whether the text of an interval can be read, or is found to be too long before it is read to
/// its end.
pub fn is_interval_in_range(text: &str) -> (r: bool)
    ensures
        r == interval_in_range(text@),
{
    let chars = chars_of(text);
    let mut digits: usize = 0;
    let mut units: usize = 0;
    let mut in_unit: bool = false;
    let mut in_minute: bool = false;
    let mut scan = IntervalScan {
        fraction: false,
        over: false,
        number: 0,
        most: 0,
        least: 0,
        too_long: false,
    };
    assert(text@.take(0) == Seq::<char>::empty());
    for i in 0..chars.len()
        invariant
            chars@ == text@,
            digits <= i,
            units <= i,
            digits == digit_count(text@.take(i as int)),
            units == unit_count(text@.take(i as int)),
            in_unit == (i > 0 && is_unit_char(text@[i - 1])),
            in_minute == (i > 0 && text@[i - 1] == 'm' && starts_unit(text@.take(i as int))),
            scan.is_of(text@.take(i as int)),
    {
        let ghost prefix = text@.take(i + 1);
        assert(prefix.drop_last() == text@.take(i as int));
        assert(prefix.last() == text@[i as int]);
        assert(prefix =~= text@.take(i as int).push(text@[i as int]));
        if i > 0 {
            assert(prefix.drop_last().last() == text@[i - 1]);
            assert(prefix[prefix.len() - 2] == text@[i - 1]);
        }
        let c = chars[i];
        if '0' <= c && c <= '9' {
            digits = digits + 1;
        }
        let unit: bool = ('a' <= c && c <= 'z') || ('A' <= c && c <= 'Z') || c == '\u{b5}';
        let start: bool = unit && !in_unit;
        if start {
            units = units + 1;
        }
        scan.next(c, start, c == 'o' && in_minute, Ghost(text@.take(i as int)));
        in_minute = start && c == 'm';
        in_unit = unit;
    }
    assert(text@.take(chars.len() as int) == text@);
    digits <= 18 || units <= 1 || scan.most < 0x1_0000_0000_0000_0000 || scan.too_long
}

/// Length in nanoseconds of the interval that a text denotes, if it denotes one.
pub uninterp spec fn interval_length(text: Seq<char>) -> Option<int>;

/// Reads an interval with `humantime`'s `parse_duration`, which is what parsing a
/// `humantime::Duration` does. The result depends on the text alone. `parse_duration` panics where
/// the seconds are at their maximum and the nanoseconds make up exactly one second more. That takes
/// more than one unit, and at least 19 digits: twelve or more for a number of years, months or weeks
/// that comes near, four or more for the nanoseconds, and those for the rest, as in
/// `30500568904943w 7h 9.5s 6.5s`. Where the lengths of time make up less than `u64` has numbers for in
/// seconds, it doesn't come to that, and neither where one of them makes it an overflow, which
/// `parse_duration` reports as soon as it has read that one.
#[verifier::external_body]
pub(crate) fn parse_interval(text: &str) -> (r: Option<Duration>)
    requires
        interval_in_range(text@),
    ensures
        match r {
            Some(length) => length.wf() && interval_length(text@) == Some(length@),
            None => interval_length(text@) is None,
        },
{
    match humantime::parse_duration(text) {
        Ok(length) => Some(Duration { secs: length.as_secs(), nanos: length.subsec_nanos() }),
        Err(_) => None,
    }
}

} // verus!
