//! Options of calls. An option that is not set leaves no trace in what the runtime sees.

use vstd::prelude::*;

verus! {

/// The content of an option.
#[derive(Clone, Copy, Debug)]
pub enum FieldValue<'a> {
    Text(&'a str),
    Flag(bool),
    Count(usize),
}

/// One property of the object that carries options to the runtime.
#[derive(Clone, Copy, Debug)]
pub struct OptionField<'a> {
    pub name: &'static str,
    pub value: FieldValue<'a>,
}

/// The property `name`, if it has a value.
pub open spec fn field_if_set<'a>(name: &'static str, value: Option<FieldValue<'a>>) -> Seq<
    OptionField<'a>,
> {
    match value {
        Some(value) => seq![OptionField { name, value }],
        None => seq![],
    }
}

pub open spec fn as_text<'a>(value: Option<&'a str>) -> Option<FieldValue<'a>> {
    match value {
        Some(text) => Some(FieldValue::Text(text)),
        None => None,
    }
}

pub open spec fn as_flag<'a>(value: Option<bool>) -> Option<FieldValue<'a>> {
    match value {
        Some(flag) => Some(FieldValue::Flag(flag)),
        None => None,
    }
}

pub open spec fn as_count<'a>(value: Option<usize>) -> Option<FieldValue<'a>> {
    match value {
        Some(count) => Some(FieldValue::Count(count)),
        None => None,
    }
}

/// Which entries of the storage are listed, and in which order.
#[derive(Debug)]
pub struct ListOptions<'a> {
    /// Key at which the list results should start, inclusive.
    pub start: Option<&'a str>,
    /// Key at which the list results should end, exclusive.
    pub end: Option<&'a str>,
    /// Restricts results to only include key-value pairs whose keys begin with the prefix.
    pub prefix: Option<&'a str>,
    /// If true, return results in descending lexicographic order instead of the default ascending
    /// order.
    pub reverse: Option<bool>,
    /// Maximum number of key-value pairs to return.
    pub limit: Option<usize>,
}

fn push_text<'a>(fields: &mut Vec<OptionField<'a>>, name: &'static str, value: Option<&'a str>)
    ensures
        final(fields)@ == old(fields)@ + field_if_set(name, as_text(value)),
{
    match value {
        Some(text) => fields.push(OptionField { name, value: FieldValue::Text(text) }),
        None => {},
    }
}

fn push_flag<'a>(fields: &mut Vec<OptionField<'a>>, name: &'static str, value: Option<bool>)
    ensures
        final(fields)@ == old(fields)@ + field_if_set(name, as_flag(value)),
{
    match value {
        Some(flag) => fields.push(OptionField { name, value: FieldValue::Flag(flag) }),
        None => {},
    }
}

fn push_count<'a>(fields: &mut Vec<OptionField<'a>>, name: &'static str, value: Option<usize>)
    ensures
        final(fields)@ == old(fields)@ + field_if_set(name, as_count(value)),
{
    match value {
        Some(count) => fields.push(OptionField { name, value: FieldValue::Count(count) }),
        None => {},
    }
}

impl<'a> ListOptions<'a> {
    /// The properties of the options object, those that are set and no others.
    pub open spec fn properties(self) -> Seq<OptionField<'a>> {
        field_if_set("start", as_text(self.start)) + field_if_set("end", as_text(self.end))
            + field_if_set("prefix", as_text(self.prefix)) + field_if_set(
            "reverse",
            as_flag(self.reverse),
        ) + field_if_set("limit", as_count(self.limit))
    }

    /// Create a new ListOptions struct with no options set.
    pub fn new() -> (r: Self)
        ensures
            r == (ListOptions::<'a> { start: None, end: None, prefix: None, reverse: None, limit: None }),
    {
        ListOptions { start: None, end: None, prefix: None, reverse: None, limit: None }
    }

    /// Key at which the list results should start, inclusive.
    pub fn start(self, val: &'a str) -> (r: Self)
        ensures
            r == (ListOptions { start: Some(val), ..self }),
    {
        ListOptions { start: Some(val), ..self }
    }

    /// Key at which the list results should end, exclusive.
    pub fn end(self, val: &'a str) -> (r: Self)
        ensures
            r == (ListOptions { end: Some(val), ..self }),
    {
        ListOptions { end: Some(val), ..self }
    }

    /// Restricts results to only include key-value pairs whose keys begin with the prefix.
    pub fn prefix(self, val: &'a str) -> (r: Self)
        ensures
            r == (ListOptions { prefix: Some(val), ..self }),
    {
        ListOptions { prefix: Some(val), ..self }
    }

    /// If true, return results in descending lexicographic order instead of the default ascending
    /// order.
    pub fn reverse(self, val: bool) -> (r: Self)
        ensures
            r == (ListOptions { reverse: Some(val), ..self }),
    {
        ListOptions { reverse: Some(val), ..self }
    }

    /// Maximum number of key-value pairs to return.
    pub fn limit(self, val: usize) -> (r: Self)
        ensures
            r == (ListOptions { limit: Some(val), ..self }),
    {
        ListOptions { limit: Some(val), ..self }
    }

    /// The options object, property by property.
    pub fn fields(&self) -> (r: Vec<OptionField<'a>>)
        ensures
            r@ == self.properties(),
    {
        let mut fields: Vec<OptionField<'a>> = Vec::new();
        push_text(&mut fields, "start", self.start);
        push_text(&mut fields, "end", self.end);
        push_text(&mut fields, "prefix", self.prefix);
        push_flag(&mut fields, "reverse", self.reverse);
        push_count(&mut fields, "limit", self.limit);
        fields
    }
}

impl<'a> Default for ListOptions<'a> {
    fn default() -> (r: Self)
        ensures
            r == (ListOptions::<'a> { start: None, end: None, prefix: None, reverse: None, limit: None }),
    {
        ListOptions::new()
    }
}

/// What an object with these properties holds under `name`. A later property replaces an earlier
/// one of the same name.
pub open spec fn property<'a>(fields: Seq<OptionField<'a>>, name: Seq<char>) -> Option<
    FieldValue<'a>,
>
    decreases fields.len(),
{
    if fields.len() == 0 {
        None
    } else if fields.last().name@ == name {
        Some(fields.last().value)
    } else {
        property(fields.drop_last(), name)
    }
}

proof fn lemma_property_of_more<'a>(
    fields: Seq<OptionField<'a>>,
    added: &'static str,
    value: Option<FieldValue<'a>>,
    name: Seq<char>,
)
    ensures
        property(fields + field_if_set(added, value), name) == if value is Some && added@ == name {
            value
        } else {
            property(fields, name)
        },
{
    let all: Seq<OptionField<'a>> = fields + field_if_set(added, value);
    match value {
        Some(_) => {
            assert(all.drop_last() =~= fields);
        },
        None => {
            assert(all =~= fields);
        },
    }
}

/// The options object of a listing holds each option under its own name, nothing for an option that
/// is not set, and nothing else.
pub proof fn law_list_options_are_carried<'a>(options: ListOptions<'a>, name: Seq<char>)
    ensures
        property(options.properties(), "start"@) == as_text(options.start),
        property(options.properties(), "end"@) == as_text(options.end),
        property(options.properties(), "prefix"@) == as_text(options.prefix),
        property(options.properties(), "reverse"@) == as_flag(options.reverse),
        property(options.properties(), "limit"@) == as_count(options.limit),
        property(options.properties(), name) is Some ==> name == "start"@ || name == "end"@ || name
            == "prefix"@ || name == "reverse"@ || name == "limit"@,
{
    reveal_strlit("start");
    reveal_strlit("end");
    reveal_strlit("prefix");
    reveal_strlit("reverse");
    reveal_strlit("limit");
    assert("start"@[0] != "limit"@[0]);
    assert("start"@.len() == 5 && "limit"@.len() == 5);
    assert("end"@.len() == 3 && "prefix"@.len() == 6 && "reverse"@.len() == 7);
    assert forall|wanted: Seq<char>| #[trigger]
        property(options.properties(), wanted) == if options.limit is Some && "limit"@ == wanted {
            as_count(options.limit)
        } else if options.reverse is Some && "reverse"@ == wanted {
            as_flag(options.reverse)
        } else if options.prefix is Some && "prefix"@ == wanted {
            as_text(options.prefix)
        } else if options.end is Some && "end"@ == wanted {
            as_text(options.end)
        } else if options.start is Some && "start"@ == wanted {
            as_text(options.start)
        } else {
            None
        } by {
        let none: Seq<OptionField<'a>> = seq![];
        let one: Seq<OptionField<'a>> = field_if_set("start", as_text(options.start));
        let two: Seq<OptionField<'a>> = one + field_if_set("end", as_text(options.end));
        let three: Seq<OptionField<'a>> = two + field_if_set("prefix", as_text(options.prefix));
        let four: Seq<OptionField<'a>> = three + field_if_set("reverse", as_flag(options.reverse));
        assert(none + one =~= one);
        lemma_property_of_more(none, "start", as_text(options.start), wanted);
        lemma_property_of_more(one, "end", as_text(options.end), wanted);
        lemma_property_of_more(two, "prefix", as_text(options.prefix), wanted);
        lemma_property_of_more(three, "reverse", as_flag(options.reverse), wanted);
        lemma_property_of_more(four, "limit", as_count(options.limit), wanted);
    }
}

/// Options of reading the alarm.
#[derive(Clone, Copy, Debug)]
pub struct GetAlarmOptions {
    pub allow_concurrency: Option<bool>,
}

impl GetAlarmOptions {
    /// The properties of the options object, those that are set and no others.
    pub open spec fn properties(self) -> Seq<OptionField<'static>> {
        field_if_set("allow_concurrency", as_flag(self.allow_concurrency))
    }

    /// The options object, property by property.
    pub fn fields(&self) -> (r: Vec<OptionField<'static>>)
        ensures
            r@ == self.properties(),
    {
        let mut fields: Vec<OptionField<'static>> = Vec::new();
        push_flag(&mut fields, "allow_concurrency", self.allow_concurrency);
        fields
    }
}

impl Default for GetAlarmOptions {
    fn default() -> (r: Self)
        ensures
            r == (GetAlarmOptions { allow_concurrency: None }),
    {
        GetAlarmOptions { allow_concurrency: None }
    }
}

/// Options of setting and of deleting the alarm.
#[derive(Clone, Copy, Debug)]
pub struct SetAlarmOptions {
    pub allow_concurrency: Option<bool>,
    pub allow_unconfirmed: Option<bool>,
}

impl SetAlarmOptions {
    /// The properties of the options object, those that are set and no others.
    pub open spec fn properties(self) -> Seq<OptionField<'static>> {
        field_if_set("allow_concurrency", as_flag(self.allow_concurrency)) + field_if_set(
            "allow_unconfirmed",
            as_flag(self.allow_unconfirmed),
        )
    }

    /// The options object, property by property.
    pub fn fields(&self) -> (r: Vec<OptionField<'static>>)
        ensures
            r@ == self.properties(),
    {
        let mut fields: Vec<OptionField<'static>> = Vec::new();
        push_flag(&mut fields, "allow_concurrency", self.allow_concurrency);
        push_flag(&mut fields, "allow_unconfirmed", self.allow_unconfirmed);
        fields
    }
}

impl Default for SetAlarmOptions {
    fn default() -> (r: Self)
        ensures
            r == (SetAlarmOptions { allow_concurrency: None, allow_unconfirmed: None }),
    {
        SetAlarmOptions { allow_concurrency: None, allow_unconfirmed: None }
    }
}

/// The options object of an alarm call holds each option under its own name, nothing for an option
/// that is not set, and nothing else.
pub proof fn law_alarm_options_are_carried(
    reading: GetAlarmOptions,
    setting: SetAlarmOptions,
    name: Seq<char>,
)
    ensures
        property(reading.properties(), "allow_concurrency"@) == as_flag(reading.allow_concurrency),
        property(setting.properties(), "allow_concurrency"@) == as_flag(setting.allow_concurrency),
        property(setting.properties(), "allow_unconfirmed"@) == as_flag(setting.allow_unconfirmed),
        property(reading.properties(), name) is Some ==> name == "allow_concurrency"@,
        property(setting.properties(), name) is Some ==> name == "allow_concurrency"@ || name
            == "allow_unconfirmed"@,
{
    reveal_strlit("allow_concurrency");
    reveal_strlit("allow_unconfirmed");
    assert("allow_concurrency"@[6] != "allow_unconfirmed"@[6]);
    let none: Seq<OptionField<'static>> = seq![];
    let read: Seq<OptionField<'static>> = field_if_set(
        "allow_concurrency",
        as_flag(reading.allow_concurrency),
    );
    let first: Seq<OptionField<'static>> = field_if_set(
        "allow_concurrency",
        as_flag(setting.allow_concurrency),
    );
    assert(none + read =~= read);
    assert(none + first =~= first);
    assert forall|wanted: Seq<char>| #[trigger]
        property(reading.properties(), wanted) == if reading.allow_concurrency is Some
            && "allow_concurrency"@ == wanted {
            as_flag(reading.allow_concurrency)
        } else {
            None
        } by {
        lemma_property_of_more(none, "allow_concurrency", as_flag(reading.allow_concurrency), wanted);
    }
    assert forall|wanted: Seq<char>| #[trigger]
        property(setting.properties(), wanted) == if setting.allow_unconfirmed is Some
            && "allow_unconfirmed"@ == wanted {
            as_flag(setting.allow_unconfirmed)
        } else if setting.allow_concurrency is Some && "allow_concurrency"@ == wanted {
            as_flag(setting.allow_concurrency)
        } else {
            None
        } by {
        lemma_property_of_more(none, "allow_concurrency", as_flag(setting.allow_concurrency), wanted);
        lemma_property_of_more(first, "allow_unconfirmed", as_flag(setting.allow_unconfirmed), wanted);
    }
}

} // verus!
