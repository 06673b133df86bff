//! What is set in options, and what the runtime sees of it.

use crate::options::{
    law_alarm_options_are_carried, law_list_options_are_carried, property, FieldValue, GetAlarmOptions,
    ListOptions, OptionField, SetAlarmOptions,
};
use vstd::prelude::*;

verus! {

/// Nothing is set to begin with.
pub proof fn law_options_begin_unset<'a>(
    listing: ListOptions<'a>,
    listing_by_default: ListOptions<'a>,
    reading: GetAlarmOptions,
    setting: SetAlarmOptions,
)
    requires
        call_ensures(ListOptions::<'a>::new, (), listing),
        call_ensures(<ListOptions::<'a> as Default>::default, (), listing_by_default),
        call_ensures(<GetAlarmOptions as Default>::default, (), reading),
        call_ensures(<SetAlarmOptions as Default>::default, (), setting),
    ensures
        listing.start is None && listing.end is None && listing.prefix is None && listing.reverse
            is None && listing.limit is None,
        listing_by_default == listing,
        reading.allow_concurrency is None,
        setting.allow_concurrency is None && setting.allow_unconfirmed is None,
{
}

/// Setting an option sets it to what is given, whatever it was before, and leaves the others alone.
pub proof fn law_setting_an_option_leaves_the_others<'a>(
    options: ListOptions<'a>,
    text: &'a str,
    flag: bool,
    count: usize,
    started: ListOptions<'a>,
    ended: ListOptions<'a>,
    prefixed: ListOptions<'a>,
    reversed: ListOptions<'a>,
    limited: ListOptions<'a>,
)
    requires
        call_ensures(ListOptions::<'a>::start, (options, text), started),
        call_ensures(ListOptions::<'a>::end, (options, text), ended),
        call_ensures(ListOptions::<'a>::prefix, (options, text), prefixed),
        call_ensures(ListOptions::<'a>::reverse, (options, flag), reversed),
        call_ensures(ListOptions::<'a>::limit, (options, count), limited),
    ensures
        started.start == Some(text) && started.end == options.end && started.prefix == options.prefix
            && started.reverse == options.reverse && started.limit == options.limit,
        ended.start == options.start && ended.end == Some(text) && ended.prefix == options.prefix
            && ended.reverse == options.reverse && ended.limit == options.limit,
        prefixed.start == options.start && prefixed.end == options.end && prefixed.prefix == Some(
            text,
        ) && prefixed.reverse == options.reverse && prefixed.limit == options.limit,
        reversed.start == options.start && reversed.end == options.end && reversed.prefix
            == options.prefix && reversed.reverse == Some(flag) && reversed.limit == options.limit,
        limited.start == options.start && limited.end == options.end && limited.prefix
            == options.prefix && limited.reverse == options.reverse && limited.limit == Some(count),
{
}

/// The options object of a listing has a property for each option that is set, with what it is set
/// to, and no other.
pub proof fn law_listing_options_are_seen_as_they_are_set<'a>(
    options: ListOptions<'a>,
    fields: Vec<OptionField<'a>>,
    name: Seq<char>,
)
    requires
        call_ensures(ListOptions::<'a>::fields, (&options,), fields),
    ensures
        forall|text: &'a str|
            options.start == Some(text) <==> property(fields@, "start"@) == Some(
                FieldValue::Text(text),
            ),
        forall|text: &'a str|
            options.end == Some(text) <==> property(fields@, "end"@) == Some(FieldValue::Text(text)),
        forall|text: &'a str|
            options.prefix == Some(text) <==> property(fields@, "prefix"@) == Some(
                FieldValue::Text(text),
            ),
        forall|flag: bool|
            options.reverse == Some(flag) <==> property(fields@, "reverse"@) == Some(
                FieldValue::<'a>::Flag(flag),
            ),
        forall|count: usize|
            options.limit == Some(count) <==> property(fields@, "limit"@) == Some(
                FieldValue::<'a>::Count(count),
            ),
        property(fields@, name) is Some ==> {
            ||| name == "start"@ && options.start is Some
            ||| name == "end"@ && options.end is Some
            ||| name == "prefix"@ && options.prefix is Some
            ||| name == "reverse"@ && options.reverse is Some
            ||| name == "limit"@ && options.limit is Some
        },
{
    law_list_options_are_carried(options, name);
}

/// The options object of an alarm call has a property for each option that is set, with what it is
/// set to, and no other.
pub proof fn law_alarm_options_are_seen_as_they_are_set(
    reading: GetAlarmOptions,
    reading_fields: Vec<OptionField<'static>>,
    setting: SetAlarmOptions,
    setting_fields: Vec<OptionField<'static>>,
    name: Seq<char>,
)
    requires
        call_ensures(GetAlarmOptions::fields, (&reading,), reading_fields),
        call_ensures(SetAlarmOptions::fields, (&setting,), setting_fields),
    ensures
        forall|flag: bool|
            reading.allow_concurrency == Some(flag) <==> property(
                reading_fields@,
                "allow_concurrency"@,
            ) == Some(FieldValue::<'static>::Flag(flag)),
        property(reading_fields@, name) is Some ==> name == "allow_concurrency"@
            && reading.allow_concurrency is Some,
        forall|flag: bool|
            setting.allow_concurrency == Some(flag) <==> property(
                setting_fields@,
                "allow_concurrency"@,
            ) == Some(FieldValue::<'static>::Flag(flag)),
        forall|flag: bool|
            setting.allow_unconfirmed == Some(flag) <==> property(
                setting_fields@,
                "allow_unconfirmed"@,
            ) == Some(FieldValue::<'static>::Flag(flag)),
        property(setting_fields@, name) is Some ==> {
            ||| name == "allow_concurrency"@ && setting.allow_concurrency is Some
            ||| name == "allow_unconfirmed"@ && setting.allow_unconfirmed is Some
        },
{
    law_alarm_options_are_carried(reading, setting, name);
}

} // verus!
