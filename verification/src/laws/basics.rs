//! Texts, maps and times.
use crate::error::{Error, KubeError};
use crate::resources::trigger::{TriggerActionKind, TriggerSourceKind};
use crate::resources::ObjectMeta;
use crate::string_map::{restricted, StringMap};
use crate::text::{
    contains_string, decimal_value, has_string, is_digit, opt_list_view, opt_view,
    parse_unsigned, same_opt, same_str, split, split_on, starts_with, text_map, text_or, views,
};
use crate::time::{parse_rfc3339, rfc3339_time, Duration, Timestamp};
use vstd::prelude::*;

use super::queue::{length_nanos, point_nanos};

verus! {

/// Views of strings are their characters.
pub proof fn law_views_are_characters(text: String, other: Seq<char>, list: Vec<String>, i: int)
    ensures
        opt_view(Some(text)) == Some(text@),
        opt_view(None) == None::<Seq<char>>,
        text_or(Some(text), other) == text@,
        text_or(None, other) == other,
        opt_list_view(Some(list)) == Some(list@),
        opt_list_view(None) == None::<Seq<String>>,
        views(list@).len() == list@.len(),
        0 <= i < list@.len() ==> views(list@)[i] == list@[i]@,
{
}

/// A map of texts has the same keys, with the characters of their strings.
pub proof fn law_text_maps_have_the_same_keys(map: Map<Seq<char>, String>, key: Seq<char>)
    ensures
        text_map(map).contains_key(key) == map.contains_key(key),
        map.contains_key(key) ==> text_map(map)[key] == map[key]@,
{
}

/// A list has a string if one of its strings has those characters.
pub proof fn law_lists_have_their_strings(list: Seq<String>, i: int, text: Seq<char>)
    ensures
        0 <= i < list.len() ==> has_string(list, list[i]@),
        has_string(list, text) ==> exists|j: int| 0 <= j < list.len() && (#[trigger] list[j])@ == text,
{
}

/// A restricted map has those keys that stand in the list, with their values.
pub proof fn law_restricted_maps<V>(map: Map<Seq<char>, V>, names: Seq<String>, key: Seq<char>)
    ensures
        restricted(map, names).contains_key(key) == (map.contains_key(key) && has_string(names, key)),
        restricted(map, names).contains_key(key) ==> restricted(map, names)[key] == map[key],
{
}

/// Lengths of time and points in time are measured in nanoseconds.
pub proof fn law_times_are_measured_in_nanoseconds(length: Duration, point: Timestamp)
    ensures
        length@ == length_nanos(length),
        point@ == point_nanos(point),
        length.wf() == (length.nanos < 1_000_000_000),
        point.wf() == (point.nanos < 1_000_000_000),
        point.in_calendar() == (-8_334_601_228_800 <= point.secs <= 8_210_266_876_799),
        point.in_four_digit_year() == (-62_167_219_200 <= point.secs <= 253_402_300_799),
{
}

/// Times are added, subtracted and compared by their nanoseconds.
pub proof fn law_times_are_calculated(
    a: Timestamp,
    b: Timestamp,
    length: Duration,
    other: Duration,
    since: Duration,
    after: Timestamp,
    before: bool,
    rest: Duration,
    secs: u64,
    of_secs: Duration,
    of_millis: Duration,
)
    requires
        call_ensures(Timestamp::since, (a, b), since),
        call_ensures(Timestamp::after, (a, length), after),
        call_ensures(Timestamp::is_before, (a, b), before),
        call_ensures(Duration::saturating_sub, (length, other), rest),
        call_ensures(Duration::from_secs, (secs,), of_secs),
        call_ensures(Duration::from_millis, (secs,), of_millis),
    ensures
        point_nanos(b) + length_nanos(since) == point_nanos(a),
        point_nanos(after) == point_nanos(a) + length_nanos(length),
        before == (point_nanos(a) < point_nanos(b)),
        length_nanos(length) >= length_nanos(other) ==> length_nanos(rest) + length_nanos(other) == length_nanos(
            length,
        ),
        length_nanos(length) < length_nanos(other) ==> length_nanos(rest) == 0,
        of_secs.secs == secs && of_secs.nanos == 0,
        length_nanos(of_millis) == secs * 1_000_000,
{
}

/// A time in RFC 3339 form is read as that time.
pub proof fn law_times_are_read(text: &str, r: Option<Timestamp>)
    requires
        call_ensures(parse_rfc3339, (text,), r),
    ensures
        match r {
            Some(time) => rfc3339_time(text@) == Some(point_nanos(time)),
            None => rfc3339_time(text@) is None,
        },
{
}

/// Strings are compared by their characters.
pub proof fn law_strings_are_compared(
    a: &str,
    b: &str,
    same: bool,
    x: &Option<String>,
    y: &Option<String>,
    same_opts: bool,
    begins: bool,
    list: &Vec<String>,
    text: &String,
    found: bool,
)
    requires
        call_ensures(same_str, (a, b), same),
        call_ensures(same_opt, (x, y), same_opts),
        call_ensures(starts_with, (a, b), begins),
        call_ensures(contains_string, (list, text), found),
    ensures
        same == (a@ == b@),
        same_opts == (match (*x, *y) {
            (Some(p), Some(q)) => p@ == q@,
            (None, None) => true,
            _ => false,
        }),
        begins == (a@.len() >= b@.len() && a@.take(b@.len() as int) == b@),
        found == exists|i: int| 0 <= i < list@.len() && (#[trigger] list@[i])@ == text@,
{
}

/// Pieces with the separator between them.
pub open spec fn joined_with(pieces: Seq<Seq<char>>, sep: char) -> Seq<char>
    decreases pieces.len(),
{
    if pieces.len() == 0 {
        Seq::empty()
    } else if pieces.len() == 1 {
        pieces[0]
    } else {
        joined_with(pieces.drop_last(), sep).push(sep) + pieces.last()
    }
}

/// A text is split at every separator: the pieces hold none, and with separators between them they are
/// the text.
pub proof fn law_texts_are_split(text: Seq<char>, sep: char)
    ensures
        split_on(text, sep).len() >= 1,
        joined_with(split_on(text, sep), sep) == text,
        forall|i: int| 0 <= i < split_on(text, sep).len() ==> !(#[trigger] split_on(text, sep)[i]).contains(sep),
    decreases text.len(),
{
    if text.len() == 0 {
        assert(joined_with(split_on(text, sep), sep) =~= text);
    } else {
        let head = text.drop_last();
        let before = split_on(head, sep);
        let after = split_on(text, sep);
        law_texts_are_split(head, sep);
        assert(text =~= head.push(text.last()));
        if text.last() == sep {
            assert(after.drop_last() =~= before);
            assert(joined_with(after, sep) =~= text);
        } else {
            assert(after.drop_last() =~= before.drop_last());
            assert(after.last() =~= before.last().push(text.last()));
            if after.len() == 1 {
                assert(joined_with(after, sep) =~= text);
            } else {
                assert(joined_with(after, sep) =~= joined_with(before.drop_last(), sep).push(sep) + after.last());
                assert(joined_with(after, sep) =~= text);
            }
            assert forall|i: int| 0 <= i < after.len() implies !(#[trigger] after[i]).contains(sep) by {
                if i < after.len() - 1 {
                    assert(after[i] == before[i]);
                } else {
                    let last = before.last();
                    assert(!last.contains(sep)) by {
                        assert(before[before.len() - 1] == last);
                    }
                    if after[i].contains(sep) {
                        let k = after[i].index_of(sep);
                        if k < last.len() {
                            assert(last[k] == sep);
                        }
                    }
                }
            }
        }
    }
}

/// Texts are split as that.
pub proof fn law_strings_are_split(text: &str, sep: char, r: Vec<String>)
    requires
        call_ensures(split, (text, sep), r),
    ensures
        joined_with(views(r@), sep) == text@,
        forall|i: int| 0 <= i < r@.len() ==> !(#[trigger] r@[i])@.contains(sep),
{
    law_texts_are_split(text@, sep);
    assert forall|i: int| 0 <= i < r@.len() implies !(#[trigger] r@[i])@.contains(sep) by {
        assert(views(r@)[i] == r@[i]@);
    }
}

/// Decimal digits denote numbers, the last one its ones.
pub proof fn law_digits_denote_numbers(digits: Seq<char>, c: char)
    ensures
        decimal_value(Seq::<char>::empty()) == 0,
        decimal_value(digits.push(c)) == 10 * decimal_value(digits) + (c as int - 48),
        is_digit(c) == (48 <= c as int <= 57),
{
    assert(digits.push(c).drop_last() =~= digits);
}

/// Numbers are read up to the largest one that is allowed.
pub proof fn law_numbers_are_read(text: &str, max: u64, r: Option<u64>)
    requires
        call_ensures(parse_unsigned, (text, max), r),
    ensures
        r matches Some(value) ==> value <= max && super::webhooks::writes_number(text@, value as int),
        r is None ==> !exists|value: int| 0 <= value <= max
            && #[trigger] super::webhooks::writes_number(text@, value),
{
}

/// Best name that a resource has: its own, or else what the cluster makes one from, or else none.
pub open spec fn best_name(meta: ObjectMeta) -> Seq<char> {
    if meta.name is Some {
        meta.name->0@
    } else if meta.generate_name is Some {
        meta.generate_name->0@
    } else {
        Seq::empty()
    }
}

/// A resource is called by the best name that it has.
pub proof fn law_resources_have_names(meta: &ObjectMeta, r: String)
    requires
        call_ensures(ObjectMeta::name_any, (meta,), r),
    ensures
        r@ == best_name(*meta),
{
}

/// Kinds have names.
pub proof fn law_kinds_have_names(
    source: &TriggerSourceKind,
    source_text: String,
    action: &TriggerActionKind,
    action_text: String,
)
    requires
        call_ensures(TriggerSourceKind::to_string, (source,), source_text),
        call_ensures(TriggerActionKind::to_string, (action,), action_text),
    ensures
        *source == TriggerSourceKind::GitRepo ==> source_text@ == "GitRepo"@,
        *source == TriggerSourceKind::ClusterGitRepo ==> source_text@ == "ClusterGitRepo"@,
        *action == TriggerActionKind::Action ==> action_text@ == "Action"@,
        *action == TriggerActionKind::ClusterAction ==> action_text@ == "ClusterAction"@,
{
}

/// A value that was put into a map is found under its key, and the others stay as they were.
pub proof fn law_map_gives_back_what_was_put_in<V>(
    map1: &mut StringMap<V>,
    key: String,
    value: V,
    map2: &StringMap<V>,
    asked: &str,
    r: Option<&V>,
)
    requires
        call_ensures(StringMap::<V>::insert, (map1, key, value), ()),
        *map2 == *final(map1),
        call_ensures(StringMap::<V>::get, (map2, asked), r),
    ensures
        asked@ == key@ ==> (r matches Some(v) && *v == value),
        asked@ != key@ ==> r is Some == old(map1)@.contains_key(asked@),
        asked@ != key@ && r is Some ==> *(r->0) == old(map1)@[asked@],
{
}

/// A key that was taken out of a map isn't found any more, and the others stay as they were.
pub proof fn law_map_forgets_what_was_taken_out<V>(
    map1: &mut StringMap<V>,
    key: &str,
    taken: Option<V>,
    map2: &StringMap<V>,
    asked: &str,
    r: Option<&V>,
)
    requires
        call_ensures(StringMap::<V>::remove, (map1, key), taken),
        *map2 == *final(map1),
        call_ensures(StringMap::<V>::get, (map2, asked), r),
    ensures
        taken is Some == old(map1)@.contains_key(key@),
        taken matches Some(v) ==> v == old(map1)@[key@],
        asked@ == key@ ==> r is None,
        asked@ != key@ ==> r is Some == old(map1)@.contains_key(asked@),
        asked@ != key@ && r is Some ==> *(r->0) == old(map1)@[asked@],
{
}

/// Where two maps have a key, the value of the one that was added stays.
pub proof fn law_added_entries_win<V>(map: &mut StringMap<V>, other: StringMap<V>, key: Seq<char>)
    requires
        call_ensures(StringMap::<V>::extend, (map, other), ()),
    ensures
        final(map)@.contains_key(key) == (old(map)@.contains_key(key) || other@.contains_key(key)),
        other@.contains_key(key) ==> final(map)@[key] == other@[key],
        !other@.contains_key(key) && old(map)@.contains_key(key) ==> final(map)@[key] == old(map)@[key],
{
}

/// Only those keys are kept that stand in the list.
pub proof fn law_restricted_map_keeps_named_keys<V>(
    map: StringMap<V>,
    names: &Vec<String>,
    r: StringMap<V>,
    key: Seq<char>,
)
    requires
        call_ensures(StringMap::<V>::restricted_to, (map, names), r),
    ensures
        r@.contains_key(key) == (map@.contains_key(key) && has_string(names@, key)),
        r@.contains_key(key) ==> r@[key] == map@[key],
{
}

/// Text of an error.
pub open spec fn error_text(error: Error) -> Seq<char> {
    match error {
        Error::KubeError(KubeError::Api { code, response, text }) => "Kube Error: "@ + text@,
        Error::KubeError(KubeError::Other { text }) => "Kube Error: "@ + text@,
        Error::LeaseManagerError(text) => "LeaseManager Error: "@ + text@,
        Error::FinalizerError(text) => "Finalizer Error: "@ + text@,
        Error::GitrepoAccessError(text) => "GitRepo Access Error: "@ + text@,
        Error::SecretDecodingError(text) => "GitRepo Secret Decoding Error: "@ + text@,
        Error::RuntimeConfigFormatError => "RuntimeConfig ConfigMap format Error"@,
        Error::TriggerFileAccessError(text) => "Trigger file access IO error: "@ + text@,
        Error::TriggerDirWalkError(text) => "Trigger dir walk error: "@ + text@,
        Error::TriggerFilePatternError(text) => "Trigger file pattern error: "@ + text@,
        Error::SchedulerError(text) => "Task scheduler error: "@ + text@,
        Error::ConfigDeserializationError(text) => "Config deserialization error: "@ + text@,
        Error::ResourceNotFoundError(text) => "Resource not found in cache: "@ + text@,
        Error::JobsQueueError(text) => "JobsQueue error: "@ + text@,
        Error::InvalidRequestRateLimit(text) => "Incorrect request rate limit parameter: "@ + text@,
    }
}

/// Errors have texts.
pub proof fn law_errors_have_texts(error: &Error, r: String, kube: &KubeError, kube_text: String)
    requires
        call_ensures(Error::to_string, (error,), r),
        call_ensures(KubeError::to_string, (kube,), kube_text),
    ensures
        match *kube {
            KubeError::Api { code, response, text } => kube_text@ == text@,
            KubeError::Other { text } => kube_text@ == text@,
        },
        r@ == error_text(*error),
{
}

} // verus!
