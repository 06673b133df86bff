use durable::options::{FieldValue, GetAlarmOptions, ListOptions, OptionField, SetAlarmOptions};

fn shown(fields: Vec<OptionField<'_>>) -> Vec<String> {
    fields
        .iter()
        .map(|field| match field.value {
            FieldValue::Text(text) => format!("{}={:?}", field.name, text),
            FieldValue::Flag(flag) => format!("{}={}", field.name, flag),
            FieldValue::Count(count) => format!("{}={}", field.name, count),
        })
        .collect()
}

#[test]
fn no_options_leave_no_trace() {
    assert_eq!(shown(ListOptions::new().fields()), Vec::<String>::new());
    assert_eq!(shown(ListOptions::default().fields()), Vec::<String>::new());
    assert_eq!(shown(GetAlarmOptions::default().fields()), Vec::<String>::new());
    assert_eq!(shown(SetAlarmOptions::default().fields()), Vec::<String>::new());
}

#[test]
fn law_list_options_are_carried() {
    let options = ListOptions::new().limit(10).reverse(false).prefix("p").end("z").start("a");
    assert_eq!(
        shown(options.fields()),
        vec!["start=\"a\"", "end=\"z\"", "prefix=\"p\"", "reverse=false", "limit=10"]
    );
    assert_eq!(shown(ListOptions::new().end("z").fields()), vec!["end=\"z\""]);
    assert_eq!(shown(ListOptions::new().start("").limit(0).fields()), vec!["start=\"\"", "limit=0"]);
}

#[test]
fn the_last_value_of_an_option_counts() {
    assert_eq!(shown(ListOptions::new().limit(1).limit(2).fields()), vec!["limit=2"]);
    assert_eq!(shown(ListOptions::new().start("a").start("b").fields()), vec!["start=\"b\""]);
}

#[test]
fn law_alarm_options_are_carried() {
    let reading = GetAlarmOptions { allow_concurrency: Some(true) };
    assert_eq!(shown(reading.fields()), vec!["allow_concurrency=true"]);
    let setting = SetAlarmOptions { allow_concurrency: None, allow_unconfirmed: Some(false) };
    assert_eq!(shown(setting.fields()), vec!["allow_unconfirmed=false"]);
    let both = SetAlarmOptions { allow_concurrency: Some(false), allow_unconfirmed: Some(true) };
    assert_eq!(shown(both.fields()), vec!["allow_concurrency=false", "allow_unconfirmed=true"]);
}
