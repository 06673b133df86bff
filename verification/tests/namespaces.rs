use durable::error::{Error, Message};
use durable::namespace::{FetchCall, ObjectId, ObjectNamespace, State, Stub, TYPE_NAME};
use durable::operation::Operation;
use durable::options::{FieldValue, OptionField};

type Namespace = ObjectNamespace<&'static str>;

fn namespace() -> Namespace {
    ObjectNamespace { inner: "rooms" }
}

#[test]
fn an_id_from_a_name_belongs_to_its_namespace() {
    let namespace = namespace();
    let id = namespace
        .id_from_name("lobby", |inner: &&str, name: &str| Ok::<String, u8>(format!("{}/{}", inner, name)))
        .unwrap();
    assert_eq!(id.inner, "rooms/lobby");
    assert_eq!(id.namespace.unwrap().inner, "rooms");
}

#[test]
fn what_the_runtime_throws_is_the_error() {
    let namespace = namespace();
    let thrown = namespace.id_from_string("xyz", |_: &&str, text: &str| Err::<u8, String>(text.to_string()));
    match thrown {
        Err(Error::Js(text)) => assert_eq!(text, "xyz"),
        other => panic!("{:?}", other),
    }
    assert!(matches!(namespace.unique_id(|_: &&str| Err::<u8, i32>(4)), Err(Error::Js(4))));
    assert!(matches!(namespace.adopt(Err::<u8, i32>(5)), Err(Error::Js(5))));
}

#[test]
fn a_unique_id_is_what_the_runtime_made() {
    let namespace = namespace();
    let id = namespace.unique_id(|inner: &&str| Ok::<usize, u8>(inner.len())).unwrap();
    assert_eq!(id.inner, 5);
    assert!(id.namespace.is_some());
}

#[test]
fn a_jurisdiction_is_an_option() {
    let namespace = namespace();
    let id = namespace
        .unique_id_with_jurisdiction("eu", |_: &&str, options: Vec<OptionField<'_>>| {
            assert_eq!(options.len(), 1);
            assert_eq!(options[0].name, "jurisdiction");
            match options[0].value {
                FieldValue::Text(text) => Ok::<String, u8>(text.to_string()),
                _ => Err(1),
            }
        })
        .unwrap();
    assert_eq!(id.inner, "eu");
}

#[test]
fn law_same_name_same_id() {
    let namespace = namespace();
    let call = |_: &&str, name: &str| Ok::<String, u8>(name.to_uppercase());
    let first = namespace.id_from_name("a", call).unwrap();
    let second = namespace.id_from_name("a", call).unwrap();
    assert_eq!(first.inner, second.inner);
    assert_eq!(first.inner, "A");
}

#[test]
fn law_distinct_ids_stay_distinct() {
    let namespace = namespace();
    let first = namespace.adopt(Ok::<u8, u8>(1)).unwrap();
    let second = namespace.adopt(Ok::<u8, u8>(2)).unwrap();
    assert_ne!(first.inner, second.inner);
}

#[test]
fn law_stub_comes_from_the_namespace_of_the_id() {
    let namespace = namespace();
    let id = namespace.adopt(Ok::<u8, u8>(9)).unwrap();
    let stub = id.get_stub(|inner: &&str, id: &u8| Ok::<String, u8>(format!("{}#{}", inner, id))).unwrap();
    assert_eq!(stub.inner, "rooms#9");
    assert!(matches!(id.get_stub(|_: &&str, id: &u8| Err::<u8, u8>(*id)), Err(Error::Js(9))));
}

#[test]
fn law_own_id_gives_no_stub() {
    let state = State::from(3u32);
    let id: ObjectId<'_, &str, u32> = state.id(|inner: &u32| inner + 1);
    assert_eq!(id.inner, 4);
    assert!(id.namespace.is_none());
    let refused = id.get_stub(|_: &&str, _: &u32| -> Result<u8, u8> { panic!("the runtime was asked") });
    match refused {
        Err(Error::JsMessage(message)) => {
            assert!(matches!(message, Message::InsideObject));
            assert_eq!(message.text(), "Cannot get stub from within a Durable Object");
        }
        other => panic!("{:?}", other),
    }
}

#[test]
fn an_id_is_written_by_the_runtime() {
    let id: ObjectId<'_, u8, u64> = ObjectId { inner: 255, namespace: None };
    assert_eq!(id.to_string(|inner: &u64| format!("{:064x}", inner)).len(), 64);
}

#[test]
fn a_state_gives_its_storage_and_itself() {
    let state = State::from(String::from("state"));
    assert_eq!(state.storage(|inner: &String| inner.len()).inner, 5);
    assert_eq!(state._inner(), "state");
}

#[test]
fn a_stub_fetches_a_request_or_a_url() {
    let stub = Stub { inner: () };
    assert!(matches!(
        stub.fetch_with_request::<u8, u8>(7),
        Operation::Call(FetchCall::Request(7))
    ));
    assert!(matches!(
        stub.fetch_with_str::<u8, u8>("https://a/b"),
        Operation::Call(FetchCall::Url("https://a/b"))
    ));
}

#[test]
fn the_class_of_a_namespace_has_a_name() {
    assert_eq!(TYPE_NAME, "DurableObjectNamespace");
}

/// The ids of one namespace, by their numbers.
struct Ids {
    named: Vec<String>,
    made: u64,
}

impl Ids {
    fn by_name(&mut self, name: &str) -> u64 {
        match self.named.iter().position(|known| known == name) {
            Some(at) => at as u64,
            None => {
                self.named.push(name.to_string());
                self.named.len() as u64 - 1
            }
        }
    }

    fn at_random(&mut self) -> u64 {
        self.made += 1;
        1_000_000 + self.made
    }

    fn parse(&self, text: &str) -> Result<u64, String> {
        match u64::from_str_radix(text, 16) {
            Ok(id) if id < self.named.len() as u64 => Ok(id),
            Ok(id) if 1_000_000 < id && id <= 1_000_000 + self.made => Ok(id),
            _ => Err(format!("not an id: {}", text)),
        }
    }
}

fn written(id: &ObjectId<'_, &'static str, u64>) -> String {
    id.to_string(|inner: &u64| format!("{:064x}", inner))
}

#[test]
fn law_names_and_ids_correspond() {
    let namespace = namespace();
    let mut ids = Ids { named: vec![], made: 0 };
    let a = namespace.id_from_name("a", |_: &&str, name: &str| Ok::<u64, u8>(ids.by_name(name))).unwrap();
    let b = namespace.id_from_name("b", |_: &&str, name: &str| Ok::<u64, u8>(ids.by_name(name))).unwrap();
    let again = namespace.id_from_name("a", |_: &&str, name: &str| Ok::<u64, u8>(ids.by_name(name))).unwrap();
    assert_eq!(written(&a), written(&again));
    assert_ne!(written(&a), written(&b));
}

#[test]
fn law_text_leads_back_to_the_id() {
    let namespace = namespace();
    let mut ids = Ids { named: vec![], made: 0 };
    let named = namespace.id_from_name("a", |_: &&str, name: &str| Ok::<u64, u8>(ids.by_name(name))).unwrap();
    let random = namespace.unique_id(|_: &&str| Ok::<u64, u8>(ids.at_random())).unwrap();
    let placed = namespace
        .unique_id_with_jurisdiction("eu", |_: &&str, _: Vec<OptionField<'_>>| Ok::<u64, u8>(ids.at_random()))
        .unwrap();
    for id in [named, random, placed] {
        let text = written(&id);
        let back = namespace.id_from_string(&text, |_: &&str, hex: &str| ids.parse(hex)).unwrap();
        assert_eq!(written(&back), text);
        assert_eq!(back.inner, id.inner);
    }
}

#[test]
fn law_foreign_text_is_refused() {
    let namespace = namespace();
    let ids = Ids { named: vec![], made: 0 };
    match namespace.id_from_string("ff", |_: &&str, hex: &str| ids.parse(hex)) {
        Err(Error::Js(thrown)) => assert_eq!(thrown, "not an id: ff"),
        other => panic!("{:?}", other),
    }
}

#[test]
fn law_new_ids_are_new() {
    let namespace = namespace();
    let mut ids = Ids { named: vec![], made: 0 };
    let mut texts = vec![];
    for _ in 0..5 {
        let id = namespace.unique_id(|_: &&str| Ok::<u64, u8>(ids.at_random())).unwrap();
        assert!(!texts.contains(&written(&id)));
        texts.push(written(&id));
    }
}

#[test]
fn law_text_of_an_id() {
    let state = State::from(171u64);
    let id: ObjectId<'_, &'static str, u64> = state.id(|inner: &u64| *inner);
    assert_eq!(written(&id).len(), 64);
    assert!(written(&id).chars().all(|c| c.is_ascii_hexdigit()));
    assert_eq!(written(&id), written(&id));
}
