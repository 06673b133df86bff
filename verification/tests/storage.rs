use durable::error::{Error, Message};
use durable::number::Number;
use durable::operation::{CallOutcome, Entries, Fetched, FromReply, Operation, Stored};
use durable::options::{FieldValue, GetAlarmOptions, ListOptions, SetAlarmOptions};
use chrono::{DateTime, NaiveDateTime, Timelike, Utc};
use durable::schedule::{AlarmDate, ScheduledTime, DATE_LIMIT};
use durable::storage::{AlarmCall, Storage, StorageCall, Transaction};
use durable::value::{Kind, Value};
use std::collections::BTreeMap;

/// A handle that shows what it leads to.
type Handle = String;

fn value(kind: Kind, handle: &str) -> Value<Handle> {
    Value { kind, map: false, response: false, handle: handle.to_string() }
}

fn text(handle: &str) -> Value<Handle> {
    value(Kind::Other, handle)
}

fn float(f: f64) -> Value<Handle> {
    value(Kind::Number(Number { bits: f.to_bits() }), "number")
}

fn done<C, O>(operation: Operation<C, Handle, O>) -> Result<O, Error<Handle>> {
    match operation {
        Operation::Done(result) => result,
        _ => panic!("not done"),
    }
}

fn answered<C, O: FromReply<Handle>>(
    operation: Operation<C, Handle, O>,
    reply: Value<Handle>,
) -> Result<O, Error<Handle>> {
    done(operation.called(CallOutcome::Started).settled(Ok(reply)))
}

fn message_of<O>(result: Result<O, Error<Handle>>) -> String {
    match result {
        Err(Error::JsMessage(message)) => format!("js: {}", message.text()),
        Err(Error::RustMessage(message)) => format!("rust: {}", message.text()),
        Err(Error::Js(handle)) => format!("thrown: {}", handle),
        Err(Error::Encoding(handle)) => format!("encoding: {}", handle),
        Ok(_) => String::from("ok"),
    }
}

/// A runtime in miniature.
struct Runtime {
    entries: BTreeMap<String, Handle>,
    alarm: Option<f64>,
    broken: bool,
}

impl Runtime {
    fn new() -> Runtime {
        Runtime { entries: BTreeMap::new(), alarm: None, broken: false }
    }

    fn answer(&mut self, call: &StorageCall<'_, Handle>) -> Value<Handle> {
        match call {
            StorageCall::Get { key } => match self.entries.get(*key) {
                Some(handle) => text(handle),
                None => value(Kind::Undefined, "undefined"),
            },
            StorageCall::Put { key, value: stored } => {
                self.entries.insert(key.to_string(), stored.handle.clone());
                value(Kind::Undefined, "undefined")
            }
            StorageCall::PutMultiple { values } => {
                for pair in values.handle.split(',') {
                    let (key, stored) = pair.split_once(':').unwrap();
                    self.entries.insert(key.to_string(), stored.to_string());
                }
                value(Kind::Undefined, "undefined")
            }
            StorageCall::Delete { key } => {
                let existed = self.entries.remove(*key).is_some();
                value(Kind::Bool(existed), "boolean")
            }
            StorageCall::DeleteMultiple { keys } => {
                let mut count = 0.0;
                for key in keys {
                    if self.entries.remove(*key).is_some() {
                        count += 1.0;
                    }
                }
                float(count)
            }
            StorageCall::DeleteAll => {
                self.entries.clear();
                value(Kind::Undefined, "undefined")
            }
            StorageCall::GetMultiple { keys } => {
                let found: Vec<String> =
                    keys.iter().filter(|key| self.entries.contains_key(**key)).map(|key| key.to_string()).collect();
                Value { kind: Kind::Object, map: true, response: false, handle: found.join(",") }
            }
            StorageCall::List => {
                let all: Vec<String> = self.entries.keys().cloned().collect();
                Value { kind: Kind::Object, map: true, response: false, handle: all.join(",") }
            }
            StorageCall::ListWithOptions { options } => {
                let mut all: Vec<String> = self.entries.keys().cloned().collect();
                for option in options {
                    match (option.name, option.value) {
                        ("start", FieldValue::Text(start)) => all.retain(|key| key.as_str() >= start),
                        ("end", FieldValue::Text(end)) => all.retain(|key| key.as_str() < end),
                        ("prefix", FieldValue::Text(prefix)) => all.retain(|key| key.starts_with(prefix)),
                        ("reverse", FieldValue::Flag(true)) => all.reverse(),
                        ("reverse", FieldValue::Flag(false)) => {}
                        ("limit", FieldValue::Count(limit)) => all.truncate(limit),
                        _ => panic!("an unknown option"),
                    }
                }
                Value { kind: Kind::Object, map: true, response: false, handle: all.join(",") }
            }
        }
    }

    fn answer_alarm(&mut self, call: &AlarmCall<u8>) -> Value<Handle> {
        match call {
            AlarmCall::GetAlarm { .. } => match self.alarm {
                Some(time) => float(time),
                None => value(Kind::Null, "null"),
            },
            AlarmCall::SetAlarm { date, .. } => {
                self.alarm = match date {
                    AlarmDate::Millis(millis) => Some(*millis as f64),
                    AlarmDate::Date(date) => Some(*date as f64),
                };
                value(Kind::Undefined, "undefined")
            }
            AlarmCall::DeleteAlarm { .. } => {
                self.alarm = None;
                value(Kind::Undefined, "undefined")
            }
        }
    }

    fn run<O: FromReply<Handle>>(
        &mut self,
        operation: Operation<StorageCall<'_, Handle>, Handle, O>,
    ) -> Result<O, Error<Handle>> {
        if self.broken {
            if let Operation::Call(StorageCall::DeleteAll) = operation {
                self.entries.pop_first();
            }
            return done(operation.called(CallOutcome::Started).settled(Err(String::from("broken"))));
        }
        let reply = match &operation {
            Operation::Call(call) => self.answer(call),
            _ => return done(operation),
        };
        answered(operation, reply)
    }

    fn run_alarm<O: FromReply<Handle>>(
        &mut self,
        operation: Operation<AlarmCall<u8>, Handle, O>,
    ) -> Result<O, Error<Handle>> {
        let reply = match &operation {
            Operation::Call(AlarmCall::SetAlarm { date: AlarmDate::Millis(millis), .. })
                if millis.abs() > DATE_LIMIT as i128 =>
            {
                return done(operation.called(CallOutcome::Threw(String::from("invalid date"))));
            }
            Operation::Call(call) => self.answer_alarm(call),
            _ => return done(operation),
        };
        answered(operation, reply)
    }
}

fn storage() -> Storage<()> {
    Storage { inner: () }
}

fn transaction() -> Transaction<&'static str> {
    Transaction { inner: "transaction" }
}

#[test]
fn law_get_gives_back_what_was_put() {
    let mut runtime = Runtime::new();
    let mut storage = storage();
    runtime.run(storage.put("a", Ok(text("one")))).unwrap();
    runtime.run(storage.put("a", Ok(text("two")))).unwrap();
    let stored: Stored<Handle> = runtime.run(storage.get("a")).unwrap();
    assert_eq!(stored.0, "two");
    let decoded: Result<usize, Error<Handle>> = storage.decoded(Ok(stored.0.len()));
    assert_eq!(decoded.unwrap(), 3);
}

#[test]
fn law_missing_key_is_an_error() {
    let mut runtime = Runtime::new();
    assert_eq!(message_of(runtime.run(storage().get("a"))), "js: No such value in storage.");
    assert_eq!(message_of(runtime.run(transaction().get("a"))), "js: No such value in storage.");
}

#[test]
fn a_null_is_a_value() {
    assert_eq!(answered(storage().get("a"), value(Kind::Null, "null")).unwrap().0, "null");
}

#[test]
fn law_put_leaves_other_keys_alone() {
    let mut runtime = Runtime::new();
    let mut storage = storage();
    runtime.run(storage.put("a", Ok(text("one")))).unwrap();
    runtime.run(storage.put("b", Ok(text("two")))).unwrap();
    assert_eq!(runtime.run(storage.get("a")).unwrap().0, "one");
}

#[test]
fn law_put_multiple_stores_each_pair() {
    let mut runtime = Runtime::new();
    let mut storage = storage();
    runtime.run(storage.put_multiple(Ok(value(Kind::Object, "a:1,b:2")))).unwrap();
    assert_eq!(runtime.run(storage.get("a")).unwrap().0, "1");
    assert_eq!(runtime.run(storage.get("b")).unwrap().0, "2");
}

#[test]
fn law_refused_write_makes_no_call() {
    let mut storage = storage();
    let mut transaction = transaction();
    assert_eq!(message_of(done(storage.put("a", Err(String::from("bad"))))), "encoding: bad");
    assert_eq!(message_of(done(storage.put_multiple(Err(String::from("bad"))))), "encoding: bad");
    assert_eq!(message_of(done(transaction.put("a", Err(String::from("bad"))))), "encoding: bad");
    for kind in [Kind::Undefined, Kind::Null, Kind::Bool(true), Kind::Number(Number { bits: 0 }), Kind::Other] {
        assert_eq!(
            message_of(done(storage.put_multiple(Ok(value(kind, "v"))))),
            "rust: Must pass in a struct type"
        );
        assert_eq!(
            message_of(done(transaction.put_multiple(Ok(value(kind, "v"))))),
            "rust: Must pass in a struct type"
        );
    }
}

#[test]
fn law_delete_removes_the_key() {
    let mut runtime = Runtime::new();
    let mut storage = storage();
    runtime.run(storage.put("a", Ok(text("one")))).unwrap();
    assert!(runtime.run(storage.delete("a")).unwrap());
    assert!(!runtime.run(storage.delete("a")).unwrap());
    assert!(runtime.run(storage.get("a")).is_err());
}

#[test]
fn law_delete_multiple_counts_the_pairs() {
    let mut runtime = Runtime::new();
    let mut storage = storage();
    runtime.run(storage.put_multiple(Ok(value(Kind::Object, "a:1,b:2,c:3")))).unwrap();
    assert_eq!(runtime.run(storage.delete_multiple(vec!["a", "x", "c", "a"])).unwrap(), 2);
    assert!(runtime.run(storage.get("a")).is_err());
    assert_eq!(runtime.run(storage.get("b")).unwrap().0, "2");
}

#[test]
fn law_delete_all_leaves_nothing() {
    let mut runtime = Runtime::new();
    let mut storage = storage();
    runtime.run(storage.put("a", Ok(text("one")))).unwrap();
    runtime.run(storage.delete_all()).unwrap();
    assert!(runtime.run(storage.get("a")).is_err());
}

#[test]
fn answers_to_deletions_have_to_be_of_their_type() {
    assert_eq!(
        message_of(answered(storage().delete("a"), text("yes"))),
        "js: Promise did not return bool"
    );
    assert_eq!(
        message_of(answered(transaction().delete("a"), float(1.0))),
        "js: Promise did not return bool"
    );
    assert_eq!(
        message_of(answered(storage().delete_multiple(vec!["a"]), value(Kind::Bool(true), "true"))),
        "js: Promise did not return number"
    );
    assert_eq!(answered(transaction().delete_multiple(vec!["a"]), float(2.9)).unwrap(), 2);
    assert_eq!(answered(storage().delete_multiple(vec!["a"]), float(-1.0)).unwrap(), 0);
    assert_eq!(answered(storage().delete_multiple(vec![]), float(f64::INFINITY)).unwrap(), usize::MAX);
}

#[test]
fn law_list_holds_everything_in_order() {
    let mut runtime = Runtime::new();
    let mut storage = storage();
    runtime.run(storage.put_multiple(Ok(value(Kind::Object, "b:2,a:1,c:3")))).unwrap();
    let entries: Entries<Handle> = runtime.run(storage.list()).unwrap();
    assert_eq!(entries.0, "a,b,c");
    assert_eq!(runtime.run(storage.get_multiple(vec!["c", "x", "a"])).unwrap().0, "c,a");
    assert_eq!(runtime.run(transaction().list()).unwrap().0, "a,b,c");
}

#[test]
fn law_listing_follows_its_options() {
    let mut runtime = Runtime::new();
    let mut storage = storage();
    runtime.run(storage.put_multiple(Ok(value(Kind::Object, "a1:1,a2:2,a3:3,b1:4,b2:5")))).unwrap();
    let options = ListOptions::new().start("a2").end("b2");
    assert_eq!(runtime.run(storage.list_with_options(options)).unwrap().0, "a2,a3,b1");
    let options = ListOptions::new().prefix("a").reverse(true).limit(2);
    assert_eq!(runtime.run(storage.list_with_options(options)).unwrap().0, "a3,a2");
    let options = ListOptions::new();
    assert_eq!(runtime.run(transaction().list_with_options(options)).unwrap().0, "a1,a2,a3,b1,b2");
}

#[test]
fn a_listing_has_to_be_a_map() {
    assert_eq!(message_of(answered(storage().list(), text("other"))), "thrown: other");
    assert_eq!(message_of(answered(storage().get_multiple(vec!["a"]), text("other"))), "thrown: other");
    assert_eq!(
        message_of(answered(storage().list_with_options(ListOptions::new()), text("other"))),
        "thrown: other"
    );
}

#[test]
fn a_fetch_has_to_give_a_response() {
    let waiting: Operation<(), Handle, Fetched<Handle>> = Operation::Waiting;
    assert_eq!(message_of(done(waiting.settled(Ok(text("other"))))), "thrown: other");
    let waiting: Operation<(), Handle, Fetched<Handle>> = Operation::Waiting;
    let response = Value { kind: Kind::Object, map: false, response: true, handle: String::from("hello") };
    assert_eq!(done(waiting.settled(Ok(response))).unwrap().0, "hello");
}

#[test]
fn decoders_fail_in_two_ways() {
    let from_storage: Result<u8, Error<Handle>> = storage().decoded(Err(String::from("not a u8")));
    assert_eq!(message_of(from_storage), "js: not a u8");
    let from_transaction: Result<u8, Error<Handle>> = transaction().decoded(Err(String::from("error object")));
    assert_eq!(message_of(from_transaction), "thrown: error object");
    let kept: Result<u8, Error<Handle>> = transaction().decoded(Ok(5));
    assert_eq!(kept.unwrap(), 5);
}

#[test]
fn calls_carry_what_was_asked_for() {
    let get = transaction().get::<Handle>("k");
    assert!(matches!(get, Operation::Call(StorageCall::Get { key: "k" })));
    match transaction().get_multiple::<Handle>(vec!["a", "b"]) {
        Operation::Call(StorageCall::GetMultiple { keys }) => assert_eq!(keys, vec!["a", "b"]),
        other => panic!("{:?}", other),
    }
    match transaction().put("k", Ok(text("v"))) {
        Operation::Call(StorageCall::Put { key, value }) => {
            assert_eq!(key, "k");
            assert_eq!(value.handle, "v");
        }
        other => panic!("{:?}", other),
    }
    assert!(matches!(transaction().delete_all::<Handle>(), Operation::Call(StorageCall::DeleteAll)));
    assert!(matches!(storage().list::<Handle>(), Operation::Call(StorageCall::List)));
}

#[test]
fn a_rollback_asks_the_runtime() {
    let mut transaction = transaction();
    assert!(transaction.rollback(|inner: &&str| if *inner == "transaction" { Ok(()) } else { Err(1u8) }).is_ok());
    assert!(matches!(transaction.rollback(|_: &&str| Err(2u8)), Err(Error::Js(2))));
}

#[test]
fn law_alarm_reads_as_it_was_set() {
    let mut runtime = Runtime::new();
    let storage = storage();
    runtime.run_alarm(storage.set_alarm(ScheduledTime::at_millis(1_700_000_000_123), 5)).unwrap();
    assert_eq!(runtime.run_alarm(storage.get_alarm()).unwrap(), Some(1_700_000_000_123));
    runtime.run_alarm(storage.set_alarm(ScheduledTime::new(200u8), 5)).unwrap();
    assert_eq!(runtime.run_alarm(storage.get_alarm()).unwrap(), Some(200));
}

#[test]
fn law_alarm_counts_from_the_call() {
    let mut runtime = Runtime::new();
    let storage = storage();
    runtime.run_alarm(storage.set_alarm(ScheduledTime::from(250i64), 1_000)).unwrap();
    assert_eq!(runtime.run_alarm(storage.get_alarm()).unwrap(), Some(1_250));
}

#[test]
fn law_deleted_alarm_reads_as_none() {
    let mut runtime = Runtime::new();
    let storage = storage();
    runtime.run_alarm(storage.set_alarm(ScheduledTime::from(250i64), 1_000)).unwrap();
    runtime.run_alarm(storage.delete_alarm()).unwrap();
    assert_eq!(runtime.run_alarm(storage.get_alarm()).unwrap(), None);
}

#[test]
fn alarm_calls_carry_their_options() {
    let storage = storage();
    assert!(matches!(
        storage.get_alarm::<u8, u8>(),
        Operation::Call(AlarmCall::GetAlarm { options: None })
    ));
    assert!(matches!(
        storage.delete_alarm::<u8, u8>(),
        Operation::Call(AlarmCall::DeleteAlarm { options: None })
    ));
    assert!(matches!(
        storage.set_alarm::<u8, u8>(ScheduledTime::new(1), 0),
        Operation::Call(AlarmCall::SetAlarm { date: AlarmDate::Date(1), options: None })
    ));
    let reading = GetAlarmOptions { allow_concurrency: Some(true) };
    match storage.get_alarm_with_options::<u8, u8>(reading) {
        Operation::Call(AlarmCall::GetAlarm { options: Some(fields) }) => {
            assert_eq!(fields.len(), 1);
            assert_eq!(fields[0].name, "allow_concurrency");
            assert!(matches!(fields[0].value, FieldValue::Flag(true)));
        }
        other => panic!("{:?}", other),
    }
    let setting = SetAlarmOptions { allow_concurrency: None, allow_unconfirmed: Some(true) };
    match storage.set_alarm_with_options::<u8, u8>(ScheduledTime::from(3i64), 4, setting) {
        Operation::Call(AlarmCall::SetAlarm { date, options: Some(fields) }) => {
            assert!(matches!(date, AlarmDate::Millis(7)));
            assert_eq!(fields.len(), 1);
            assert_eq!(fields[0].name, "allow_unconfirmed");
        }
        other => panic!("{:?}", other),
    }
    match storage.delete_alarm_with_options::<u8, u8>(SetAlarmOptions::default()) {
        Operation::Call(AlarmCall::DeleteAlarm { options: Some(fields) }) => assert!(fields.is_empty()),
        other => panic!("{:?}", other),
    }
}

#[test]
fn law_failures_are_passed_on() {
    let thrown = storage().list().called(CallOutcome::Threw(String::from("thrown")));
    assert_eq!(message_of(done(thrown)), "thrown: thrown");
    let rejected = storage().list().called(CallOutcome::Started).settled(Err(String::from("rejected")));
    assert_eq!(message_of(done(rejected)), "thrown: rejected");
    let unencodable = storage().list().called(CallOutcome::Unencodable(String::from("options")));
    assert_eq!(message_of(done(unencodable)), "encoding: options");
}

#[test]
fn law_one_call_only() {
    let operation = storage().list::<Handle>().called(CallOutcome::Started);
    assert!(matches!(operation, Operation::Waiting));
    assert!(matches!(operation.called(CallOutcome::Started), Operation::Waiting));
}

#[test]
fn law_result_is_final() {
    let operation: Operation<(), Handle, bool> = Operation::Done(Ok(true));
    let operation = operation.called(CallOutcome::Threw(String::from("late")));
    let operation = operation.settled(Ok(text("late")));
    assert!(done(operation).unwrap());
}

#[test]
fn law_operation_ends() {
    let operation = storage().delete("a").called(CallOutcome::Started).settled(Ok(text("no")));
    assert!(matches!(operation, Operation::Done(Err(Error::JsMessage(Message::NotABool)))));
}

#[test]
fn a_promise_is_not_settled_before_the_call() {
    let operation = storage().list::<Handle>().settled(Ok(text("early")));
    assert!(matches!(operation, Operation::Call(StorageCall::List)));
}

#[test]
fn values_show_what_they_are() {
    assert!(value(Kind::Undefined, "").is_undefined());
    assert!(!value(Kind::Null, "").is_undefined());
    assert!(value(Kind::Object, "").is_object());
    assert!(!value(Kind::Null, "").is_object());
    assert_eq!(value(Kind::Bool(false), "").as_bool(), Some(false));
    assert_eq!(value(Kind::Other, "").as_bool(), None);
    assert_eq!(float(1.0).as_number(), Some(Number { bits: 0x3ff0_0000_0000_0000 }));
    assert_eq!(value(Kind::Null, "").as_number(), None);
}

fn filled() -> Runtime {
    let mut runtime = Runtime::new();
    let mut storage = storage();
    runtime.run(storage.put_multiple(Ok(value(Kind::Object, "a1:1,a2:2,b1:3")))).unwrap();
    runtime
}

#[test]
fn law_get_multiple_reads_what_is_stored() {
    let mut runtime = filled();
    assert_eq!(runtime.run(storage().get_multiple(vec!["b1", "x", "a2"])).unwrap().0, "b1,a2");
    assert_eq!(runtime.run(storage().get_multiple(vec![])).unwrap().0, "");
}

#[test]
fn law_deleting_again_counts_nothing() {
    let mut runtime = filled();
    assert_eq!(runtime.run(storage().delete_multiple(vec!["a1", "b1"])).unwrap(), 2);
    assert_eq!(runtime.run(storage().delete_multiple(vec!["a1", "b1"])).unwrap(), 0);
}

#[test]
fn law_nothing_is_found_after_delete_all() {
    let mut runtime = filled();
    let mut storage = storage();
    runtime.run(storage.delete_all()).unwrap();
    assert_eq!(runtime.run(storage.list()).unwrap().0, "");
    assert!(!runtime.run(storage.delete("a1")).unwrap());
    assert_eq!(runtime.run(storage.delete_multiple(vec!["a1", "b1"])).unwrap(), 0);
}

#[test]
fn law_unset_options_list_everything() {
    let mut runtime = filled();
    let plain = runtime.run(storage().list()).unwrap().0;
    assert_eq!(runtime.run(storage().list_with_options(ListOptions::new())).unwrap().0, plain);
    assert_eq!(plain, "a1,a2,b1");
}

#[test]
fn law_reverse_lists_backwards() {
    let mut runtime = filled();
    let options = ListOptions::new().prefix("a").reverse(false);
    assert_eq!(runtime.run(storage().list_with_options(options)).unwrap().0, "a1,a2");
    let options = ListOptions::new().prefix("a").reverse(true);
    assert_eq!(runtime.run(storage().list_with_options(options)).unwrap().0, "a2,a1");
}

#[test]
fn law_put_multiple_is_putting_each_pair() {
    let mut runtime = Runtime::new();
    let mut storage = storage();
    for (key, stored) in [("b1", "3"), ("a2", "2"), ("a1", "1")] {
        runtime.run(storage.put(key, Ok(text(stored)))).unwrap();
    }
    assert_eq!(runtime.entries, filled().entries);
}

#[test]
fn law_failed_writes_change_nothing() {
    let mut runtime = filled();
    let mut storage = storage();
    runtime.broken = true;
    assert_eq!(message_of(runtime.run(storage.put("a1", Ok(text("9"))))), "thrown: broken");
    let values = value(Kind::Object, "a1:9,c1:9");
    assert_eq!(message_of(runtime.run(storage.put_multiple(Ok(values)))), "thrown: broken");
    assert_eq!(message_of(runtime.run(storage.delete("a1"))), "thrown: broken");
    assert_eq!(message_of(runtime.run(storage.delete_multiple(vec!["a1", "a2"]))), "thrown: broken");
    assert_eq!(message_of(runtime.run(storage.list())), "thrown: broken");
    assert_eq!(runtime.entries, filled().entries);
}

#[test]
fn law_failed_delete_all_leaves_a_part() {
    let mut runtime = filled();
    runtime.broken = true;
    assert_eq!(message_of(runtime.run(storage().delete_all())), "thrown: broken");
    let before = filled().entries;
    assert!(runtime.entries.len() < before.len());
    assert!(runtime.entries.iter().all(|(key, stored)| before.get(key) == Some(stored)));
}

#[test]
fn law_alarm_reads_as_its_date_time() {
    let mut runtime = Runtime::new();
    let date = DateTime::<Utc>::from_timestamp(1_431_648_000, 7_999_999).unwrap().naive_utc();
    runtime.run_alarm(storage().set_alarm(ScheduledTime::from(date), 5)).unwrap();
    assert_eq!(runtime.run_alarm(storage().get_alarm()).unwrap(), Some(1_431_648_000_007));
    // The first and the last of all dates, the last with a leap second.
    let first = NaiveDateTime::MIN;
    runtime.run_alarm(storage().set_alarm(ScheduledTime::from(first), 5)).unwrap();
    assert_eq!(runtime.run_alarm(storage().get_alarm()).unwrap(), Some(-8_334_601_228_800_000));
    let last = NaiveDateTime::MAX.with_nanosecond(1_999_999_999).unwrap();
    runtime.run_alarm(storage().set_alarm(ScheduledTime::from(last), 5)).unwrap();
    assert_eq!(runtime.run_alarm(storage().get_alarm()).unwrap(), Some(8_210_266_876_800_999));
}

#[test]
fn an_alarm_beyond_the_range_of_dates_is_not_set() {
    let mut runtime = Runtime::new();
    runtime.run_alarm(storage().set_alarm(ScheduledTime::at_millis(DATE_LIMIT), 0)).unwrap();
    assert_eq!(runtime.run_alarm(storage().get_alarm()).unwrap(), Some(DATE_LIMIT));
    let beyond = ScheduledTime::at_millis(DATE_LIMIT + 1);
    assert_eq!(message_of(runtime.run_alarm(storage().set_alarm(beyond, 0))), "thrown: invalid date");
    assert_eq!(runtime.run_alarm(storage().get_alarm()).unwrap(), Some(DATE_LIMIT));
}
