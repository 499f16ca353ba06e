//! Strings as sequences of characters.
use vstd::prelude::*;
use vstd::utf8::{decode_utf8, valid_utf8};

verus! {

/// Characters of an optional string.
pub open spec fn opt_view(value: Option<String>) -> Option<Seq<char>> {
    match value {
        Some(s) => Some(s@),
        None => None,
    }
}

/// Characters of each string of a list.
pub open spec fn views(values: Seq<String>) -> Seq<Seq<char>> {
    values.map_values(|s: String| s@)
}

/// Map of strings by their characters.
pub open spec fn text_map(map: Map<Seq<char>, String>) -> Map<Seq<char>, Seq<char>> {
    map.map_values(|text: String| text@)
}

/// Appending a character, as `std`'s `String::push` documents it: the character becomes the
/// last one of the string.
pub assume_specification[ String::push ](s: &mut String, c: char)
    ensures
        final(s)@ == old(s)@.push(c),
;

/// Two string slices hold the same characters.
pub fn same_str(a: &str, b: &str) -> (r: bool)
    ensures
        r == (a@ == b@),
{
    a.to_owned() == b.to_owned()
}

/// Two optional strings are both absent or hold the same characters.
pub fn same_opt(a: &Option<String>, b: &Option<String>) -> (r: bool)
    ensures
        r == (opt_view(*a) == opt_view(*b)),
{
    match (a, b) {
        (Some(x), Some(y)) => *x == *y,
        (None, None) => true,
        _ => false,
    }
}

/// Copy of an optional string.
pub fn copy_opt(a: &Option<String>) -> (r: Option<String>)
    ensures
        r == *a,
{
    match a {
        Some(x) => Some(x.clone()),
        None => None,
    }
}

/// Copy of a list of strings.
pub fn copy_strings(a: &Vec<String>) -> (r: Vec<String>)
    ensures
        r@ == a@,
{
    let mut r: Vec<String> = Vec::new();
    for i in 0..a.len()
        invariant
            r@ == a@.take(i as int),
    {
        r.push(a[i].clone());
        assert(a@.take(i + 1) == a@.take(i as int).push(a@[i as int]));
    }
    assert(a@.take(a.len() as int) == a@);
    r
}

/// What an optional list of strings holds.
pub open spec fn opt_list_view(list: Option<Vec<String>>) -> Option<Seq<String>> {
    match list {
        Some(l) => Some(l@),
        None => None,
    }
}

/// Copy of an optional list of strings.
pub fn copy_opt_strings(list: &Option<Vec<String>>) -> (r: Option<Vec<String>>)
    ensures
        opt_list_view(r) == opt_list_view(*list),
{
    match list {
        Some(l) => Some(copy_strings(l)),
        None => None,
    }
}

/// String that is there, or another one.
pub open spec fn text_or(value: Option<String>, other: Seq<char>) -> Seq<char> {
    match value {
        Some(text) => text@,
        None => other,
    }
}

/// Copy of a string that is there, or of another one.
pub fn copy_or(value: &Option<String>, other: &String) -> (r: String)
    ensures
        r@ == text_or(*value, other@),
{
    match value {
        Some(text) => text.clone(),
        None => other.clone(),
    }
}

/// A list of strings has an element with the given characters.
pub open spec fn has_string(values: Seq<String>, s: Seq<char>) -> bool {
    exists|i: int| 0 <= i < values.len() && (#[trigger] values[i])@ == s
}

/// Looks a string up in a list.
pub fn contains_string(values: &Vec<String>, s: &String) -> (r: bool)
    ensures
        r == has_string(values@, s@),
{
    for i in 0..values.len()
        invariant
            forall|j: int| 0 <= j < i ==> (#[trigger] values@[j])@ != s@,
    {
        if values[i] == *s {
            return true;
        }
    }
    false
}

/// Characters of a string slice as a vector.
pub fn chars_of(s: &str) -> (r: Vec<char>)
    ensures
        r@ == s@,
{
    let n: usize = s.unicode_len();
    let mut r: Vec<char> = Vec::new();
    for i in 0..n
        invariant
            n == s@.len(),
            r@ == s@.take(i as int),
    {
        r.push(s.get_char(i));
        assert(s@.take(i + 1) == s@.take(i as int).push(s@[i as int]));
    }
    assert(s@.take(n as int) == s@);
    r
}

/// Pieces of `s` between occurrences of `sep`. There is always at least one piece, and pieces
/// may be empty.
pub open spec fn split_on(s: Seq<char>, sep: char) -> Seq<Seq<char>>
    decreases s.len(),
{
    if s.len() == 0 {
        seq![Seq::<char>::empty()]
    } else {
        let before = split_on(s.drop_last(), sep);
        if s.last() == sep {
            before.push(Seq::<char>::empty())
        } else {
            before.update(before.len() - 1, before.last().push(s.last()))
        }
    }
}

proof fn lemma_split_on_nonempty(s: Seq<char>, sep: char)
    ensures
        split_on(s, sep).len() >= 1,
    decreases s.len(),
{
    if s.len() > 0 {
        lemma_split_on_nonempty(s.drop_last(), sep);
    }
}

/// Splits a string at every occurrence of a separator.
pub fn split(s: &str, sep: char) -> (r: Vec<String>)
    ensures
        views(r@) == split_on(s@, sep),
        r.len() >= 1,
{
    let chars = chars_of(s);
    let mut r: Vec<String> = Vec::new();
    let mut piece = String::new();
    proof {
        assert(s@.take(0) == Seq::<char>::empty());
        assert(views(r@).push(piece@) == split_on(s@.take(0), sep));
    }
    for i in 0..chars.len()
        invariant
            chars@ == s@,
            views(r@).push(piece@) == split_on(s@.take(i as int), sep),
    {
        let ghost before = views(r@).push(piece@);
        let ghost prefix = s@.take(i + 1);
        assert(prefix.drop_last() == s@.take(i as int));
        assert(prefix.last() == s@[i as int]);
        let c = chars[i];
        if c == sep {
            r.push(piece);
            piece = String::new();
            assert(views(r@) == before);
        } else {
            piece.push(c);
            assert(views(r@).push(piece@) == before.update(before.len() - 1, before.last().push(c)));
        }
    }
    assert(s@.take(chars.len() as int) == s@);
    let ghost before = views(r@).push(piece@);
    r.push(piece);
    assert(views(r@) == before);
    r
}

/// Value of a decimal digit.
pub open spec fn digit_value(c: char) -> int {
    c as int - '0' as int
}

/// The character is a decimal digit.
pub open spec fn is_digit(c: char) -> bool {
    '0' <= c && c <= '9'
}

/// Number that a sequence of decimal digits denotes.
pub open spec fn decimal_value(s: Seq<char>) -> int
    decreases s.len(),
{
    if s.len() == 0 {
        0
    } else {
        10 * decimal_value(s.drop_last()) + digit_value(s.last())
    }
}

/// Digits of a number: what follows an optional plus sign.
pub open spec fn number_digits(s: Seq<char>) -> Seq<char> {
    if s.len() > 0 && s[0] == '+' {
        s.skip(1)
    } else {
        s
    }
}

/// Unsigned number written in a string: an optional plus sign and at least one decimal digit,
/// no larger than `max`.
pub open spec fn parsed_unsigned(s: Seq<char>, max: int) -> Option<int> {
    let digits = number_digits(s);
    if digits.len() > 0 && (forall|i: int| 0 <= i < digits.len() ==> is_digit(#[trigger] digits[i]))
        && decimal_value(digits) <= max {
        Some(decimal_value(digits))
    } else {
        None
    }
}

proof fn lemma_decimal_value_grows(s: Seq<char>, n: int)
    requires
        0 <= n <= s.len(),
        forall|i: int| 0 <= i < s.len() ==> is_digit(#[trigger] s[i]),
    ensures
        0 <= decimal_value(s.take(n)) <= decimal_value(s),
    decreases s.len(),
{
    if n == s.len() {
        assert(s.take(n) == s);
        if s.len() > 0 {
            assert forall|i: int| 0 <= i < s.drop_last().len() implies is_digit(#[trigger] s.drop_last()[i]) by {
                assert(is_digit(s[i]));
            }
            lemma_decimal_value_grows(s.drop_last(), s.len() - 1);
            assert(s.drop_last().take(s.len() - 1) == s.drop_last());
            assert(is_digit(s[s.len() - 1]));
        }
    } else {
        assert forall|i: int| 0 <= i < s.drop_last().len() implies is_digit(#[trigger] s.drop_last()[i]) by {
            assert(is_digit(s[i]));
        }
        lemma_decimal_value_grows(s.drop_last(), n);
        assert(s.drop_last().take(n) == s.take(n));
        assert(is_digit(s[s.len() - 1]));
    }
}

/// A number that was read isn't negative.
pub proof fn lemma_parsed_unsigned_natural(s: Seq<char>, max: int)
    ensures
        parsed_unsigned(s, max) matches Some(v) ==> 0 <= v <= max,
{
    let digits = number_digits(s);
    if parsed_unsigned(s, max) is Some {
        lemma_decimal_value_grows(digits, 0);
    }
}

/// Reads an unsigned number no larger than `max`.
pub fn parse_unsigned(s: &str, max: u64) -> (r: Option<u64>)
    ensures
        match r {
            Some(v) => parsed_unsigned(s@, max as int) == Some(v as int),
            None => parsed_unsigned(s@, max as int) is None,
        },
{
    let chars = chars_of(s);
    let start: usize = if chars.len() > 0 && chars[0] == '+' { 1 } else { 0 };
    let ghost digits = number_digits(s@);
    assert(digits == s@.skip(start as int));
    if chars.len() == start {
        return None;
    }
    let mut value: u64 = 0;
    proof {
        assert(digits.take(0) == Seq::<char>::empty());
    }
    for i in start..chars.len()
        invariant
            chars@ == s@,
            start <= i <= chars.len(),
            digits == number_digits(s@),
            digits == s@.skip(start as int),
            forall|j: int| 0 <= j < i - start ==> is_digit(#[trigger] digits[j]),
            value as int == decimal_value(digits.take(i - start)),
            value <= max,
    {
        let c = chars[i];
        proof {
            assert(digits[i - start] == c);
            let prefix = digits.take(i - start + 1);
            assert(prefix.drop_last() == digits.take(i - start));
            assert(prefix.last() == c);
        }
        if !('0' <= c && c <= '9') {
            return None;
        }
        let digit: u64 = (c as u32 - '0' as u32) as u64;
        if digit > max || value > max / 10 || value * 10 > max - digit {
            proof {
                if forall|j: int| 0 <= j < digits.len() ==> is_digit(#[trigger] digits[j]) {
                    lemma_decimal_value_grows(digits, i - start + 1);
                }
            }
            return None;
        }
        value = value * 10 + digit;
    }
    assert(digits.take(digits.len() as int) == digits);
    Some(value)
}

/// The string begins with the prefix.
pub open spec fn begins_with(s: Seq<char>, prefix: Seq<char>) -> bool {
    prefix.len() <= s.len() && s.take(prefix.len() as int) == prefix
}

/// Tells whether a string begins with a prefix.
pub fn starts_with(s: &str, prefix: &str) -> (r: bool)
    ensures
        r == begins_with(s@, prefix@),
{
    let n: usize = prefix.unicode_len();
    if n <= s.unicode_len() {
        same_str(s.substring_char(0, n), prefix)
    } else {
        false
    }
}

/// Text of bytes, as `std`'s `String::from_utf8` documents it: the text that the bytes encode, if
/// they are valid UTF-8.
#[verifier::external_body]
pub(crate) fn string_from_utf8(bytes: Vec<u8>) -> (r: Option<String>)
    ensures
        match r {
            Some(text) => valid_utf8(bytes@) && text@ == decode_utf8(bytes@),
            None => !valid_utf8(bytes@),
        },
{
    match String::from_utf8(bytes) {
        Ok(text) => Some(text),
        Err(_) => None,
    }
}

/// Copy of bytes.
pub fn copy_bytes(a: &Vec<u8>) -> (r: Vec<u8>)
    ensures
        r@ == a@,
{
    let r = a.clone();
    assert(r@ =~= a@);
    r
}

} // verus!
