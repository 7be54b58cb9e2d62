use rendezvous::registry::{Registry, Role};
use rendezvous::store::{
    claim_outcome, command, del_keys, delete_outcome, dequeue_outcome, enqueue_outcome, receive,
    send, set_nx, ClaimOutcome, DeleteOutcome, DequeueOutcome, EnqueueOutcome, Response,
};
use std::collections::{HashMap, VecDeque};

enum Entry {
    Text(String),
    List(VecDeque<String>),
}

/// A store that does what the real one does with the commands it is sent:
/// lists grow at the head and are popped at either end.
struct FakeStore {
    entries: HashMap<String, Entry>,
}

impl FakeStore {
    fn new() -> FakeStore {
        FakeStore { entries: HashMap::new() }
    }

    fn post(&mut self, body: &str) -> String {
        let words: Vec<String> = serde_json::from_str::<serde_json::Value>(body)
            .unwrap()
            .as_array()
            .unwrap()
            .iter()
            .map(|word| word.as_str().unwrap().to_string())
            .collect();
        let words: Vec<&str> = words.iter().map(|word| word.as_str()).collect();
        let wrong_type = r#"{"error":"WRONGTYPE Operation against a key holding the wrong kind of value"}"#;
        match words.as_slice() {
            ["set", key, value, "nx"] => {
                if self.entries.contains_key(*key) {
                    r#"{"result":null}"#.to_string()
                } else {
                    self.entries.insert(key.to_string(), Entry::Text(value.to_string()));
                    r#"{"result":"OK"}"#.to_string()
                }
            }
            ["lpush", key, element] => {
                let entry =
                    self.entries.entry(key.to_string()).or_insert(Entry::List(VecDeque::new()));
                match entry {
                    Entry::List(list) => {
                        list.push_front(element.to_string());
                        format!("{{\"result\":{}}}", list.len())
                    }
                    Entry::Text(_) => wrong_type.to_string(),
                }
            }
            [pop @ ("rpop" | "lpop"), key] => match self.entries.get_mut(*key) {
                None => r#"{"result":null}"#.to_string(),
                Some(Entry::Text(_)) => wrong_type.to_string(),
                Some(Entry::List(list)) => {
                    let item = if *pop == "rpop" { list.pop_back() } else { list.pop_front() };
                    if list.is_empty() {
                        self.entries.remove(*key);
                    }
                    match item {
                        Some(item) => {
                            format!("{{\"result\":{}}}", serde_json::to_string(&item).unwrap())
                        }
                        None => r#"{"result":null}"#.to_string(),
                    }
                }
            },
            ["del", keys @ ..] => {
                let removed = keys.iter().filter(|key| self.entries.remove(**key).is_some()).count();
                format!("{{\"result\":{removed}}}")
            }
            _ => r#"{"error":"ERR unknown command"}"#.to_string(),
        }
    }

    fn ask(&mut self, words: Vec<String>) -> Option<Response> {
        Response::answer(200, &self.post(&command(&words)))
    }
}

#[test]
fn values_come_out_in_the_order_they_went_in() {
    let values = [
        "first",
        "second",
        "",
        r#"{"event":"Offer","data":"v=0\r\n"}"#,
        "second",
        "line\nbreak \"quoted\" \\ \u{1f600}",
    ];
    let mut store = FakeStore::new();
    let key = Registry::caller_channel_key("swordfish");
    for value in values {
        assert_eq!(enqueue_outcome(store.ask(send(&key, value))), EnqueueOutcome::Accepted);
    }
    for value in values {
        assert_eq!(
            dequeue_outcome(store.ask(receive(&key))),
            DequeueOutcome::Value(value.to_string())
        );
    }
    assert_eq!(dequeue_outcome(store.ask(receive(&key))), DequeueOutcome::Empty);
    assert_eq!(dequeue_outcome(store.ask(receive(&key))), DequeueOutcome::Empty);
}

#[test]
fn sends_and_receives_may_alternate() {
    let mut store = FakeStore::new();
    let key = "channel:callee:p";
    assert_eq!(dequeue_outcome(store.ask(receive(key))), DequeueOutcome::Empty);
    store.ask(send(key, "a"));
    store.ask(send(key, "b"));
    assert_eq!(dequeue_outcome(store.ask(receive(key))), DequeueOutcome::Value("a".to_string()));
    store.ask(send(key, "c"));
    assert_eq!(dequeue_outcome(store.ask(receive(key))), DequeueOutcome::Value("b".to_string()));
    assert_eq!(dequeue_outcome(store.ask(receive(key))), DequeueOutcome::Value("c".to_string()));
    assert_eq!(dequeue_outcome(store.ask(receive(key))), DequeueOutcome::Empty);
}

#[test]
fn the_two_channels_of_a_passphrase_do_not_mix() {
    let mut store = FakeStore::new();
    let caller = Registry::new("swordfish".to_string(), Role::Caller);
    let callee = Registry::new("swordfish".to_string(), Role::Callee);
    store.ask(send(caller.send_key(), "offer"));
    store.ask(send(callee.send_key(), "answer"));
    assert_eq!(
        dequeue_outcome(store.ask(receive(callee.receive_key()))),
        DequeueOutcome::Value("offer".to_string())
    );
    assert_eq!(
        dequeue_outcome(store.ask(receive(caller.receive_key()))),
        DequeueOutcome::Value("answer".to_string())
    );
    assert_eq!(dequeue_outcome(store.ask(receive(caller.receive_key()))), DequeueOutcome::Empty);
}

#[test]
fn a_passphrase_can_be_claimed_again_after_cleanup() {
    let mut store = FakeStore::new();
    let registry = Registry::new("swordfish".to_string(), Role::Caller);
    assert_eq!(claim_outcome(store.ask(set_nx(registry.claim_key()))), ClaimOutcome::Claimed);
    assert_eq!(claim_outcome(store.ask(set_nx(registry.claim_key()))), ClaimOutcome::AlreadyExists);
    store.ask(send(registry.send_key(), "unread"));
    let keys = vec![registry.claim_key().to_string(), registry.send_key().to_string()];
    assert_eq!(delete_outcome(store.ask(del_keys(&keys))), DeleteOutcome::Done);
    assert_eq!(dequeue_outcome(store.ask(receive(registry.send_key()))), DequeueOutcome::Empty);
    assert_eq!(claim_outcome(store.ask(set_nx(registry.claim_key()))), ClaimOutcome::Claimed);
}

#[test]
fn a_key_of_the_wrong_kind_is_an_error() {
    let mut store = FakeStore::new();
    assert_eq!(claim_outcome(store.ask(set_nx("k"))), ClaimOutcome::Claimed);
    assert_eq!(enqueue_outcome(store.ask(send("k", "x"))), EnqueueOutcome::Error);
    assert_eq!(dequeue_outcome(store.ask(receive("k"))), DequeueOutcome::Error);
}
