use rendezvous::coordinator::{response_based_on_role, Coordinator, Directive, Input};
use rendezvous::fault::Fault;
use rendezvous::protocol::{Event, Message};
use rendezvous::registry::{Registry, Role};
use rendezvous::store::{
    claim_outcome, command, enqueue_outcome, ClaimOutcome, EnqueueOutcome, Response,
};
use std::collections::{HashMap, HashSet, VecDeque};

/// A store that serves one command at a time, as the real one does.
struct FakeStore {
    strings: HashSet<String>,
    lists: HashMap<String, VecDeque<String>>,
}

impl FakeStore {
    fn new() -> FakeStore {
        FakeStore { strings: HashSet::new(), lists: HashMap::new() }
    }

    /// Takes the body of a request and gives the body of the reply.
    fn post(&mut self, body: &str) -> String {
        let words: Vec<String> = serde_json::from_str::<serde_json::Value>(body)
            .unwrap()
            .as_array()
            .unwrap()
            .iter()
            .map(|word| word.as_str().unwrap().to_string())
            .collect();
        let words: Vec<&str> = words.iter().map(|word| word.as_str()).collect();
        match words.as_slice() {
            ["set", key, _, "nx"] => {
                if self.strings.contains(*key) || self.lists.contains_key(*key) {
                    r#"{"result":null}"#.to_string()
                } else {
                    self.strings.insert(key.to_string());
                    r#"{"result":"OK"}"#.to_string()
                }
            }
            ["lpush", key, element] => {
                let list = self.lists.entry(key.to_string()).or_default();
                list.push_front(element.to_string());
                format!("{{\"result\":{}}}", list.len())
            }
            _ => r#"{"error":"ERR unknown command"}"#.to_string(),
        }
    }
}

fn claim(store: &mut FakeStore, key: &str) -> ClaimOutcome {
    let body = command(&rendezvous::store::set_nx(key));
    claim_outcome(Response::answer(200, &store.post(&body)))
}

/// Runs a connection up to its announcement, and gives the session and what
/// the peer was sent.
fn connect(store: &mut FakeStore, passphrase: &str) -> (Coordinator, String, Registry) {
    let (session, directive) =
        Coordinator::new().step(Input::Text(passphrase.to_string()));
    let key = match directive {
        Directive::Claim { key } => key,
        other => panic!("expected a claim, got {other:?}"),
    };
    let outcome = claim(store, &key);
    let (session, directive) = session.step(Input::Claim(outcome));
    match directive {
        Directive::Welcome { announcement, registry } => (session, announcement, registry),
        other => panic!("expected a welcome, got {other:?}"),
    }
}

#[test]
fn two_connections_on_one_passphrase_get_complementary_roles() {
    let mut store = FakeStore::new();
    let (first, first_frame, first_registry) = connect(&mut store, "swordfish");
    let (second, second_frame, second_registry) = connect(&mut store, "swordfish");

    let first_message = Message::from_json(&first_frame).unwrap();
    let second_message = Message::from_json(&second_frame).unwrap();
    assert_eq!(first_message, Message { event: Event::Passphrase, data: "1".to_string() });
    assert_eq!(second_message, Message { event: Event::Passphrase, data: "0".to_string() });

    let frames = [first_frame, second_frame];
    assert_eq!(frames.iter().filter(|f| f.as_str() == r#"{"event":"Passphrase","data":"1"}"#).count(), 1);
    assert_eq!(frames.iter().filter(|f| f.as_str() == r#"{"event":"Passphrase","data":"0"}"#).count(), 1);

    assert_eq!(first_registry, Registry::new("swordfish".to_string(), Role::Caller));
    assert_eq!(second_registry, Registry::new("swordfish".to_string(), Role::Callee));
    assert_eq!(first, Coordinator::Relaying { registry: first_registry });
    assert_eq!(second, Coordinator::Relaying { registry: second_registry });
}

#[test]
fn exactly_one_claim_wins_whatever_the_passphrase() {
    for passphrase in ["", "swordfish", "a b", "\"quoted\"", "gr\u{fc}n \u{1f600}", "x\ny"] {
        let mut store = FakeStore::new();
        let key = Registry::passphrase_key(passphrase);
        let outcomes = [claim(&mut store, &key), claim(&mut store, &key), claim(&mut store, &key)];
        assert_eq!(
            outcomes,
            [ClaimOutcome::Claimed, ClaimOutcome::AlreadyExists, ClaimOutcome::AlreadyExists]
        );
    }
}

#[test]
fn different_passphrases_do_not_meet() {
    let mut store = FakeStore::new();
    let (_, one, _) = connect(&mut store, "one");
    let (_, other, _) = connect(&mut store, "other");
    assert_eq!(one, r#"{"event":"Passphrase","data":"1"}"#);
    assert_eq!(other, r#"{"event":"Passphrase","data":"1"}"#);
}

#[test]
fn announcement_names_the_role() {
    assert_eq!(
        response_based_on_role(&Role::Caller),
        Message { event: Event::Passphrase, data: "1".to_string() }
    );
    assert_eq!(
        response_based_on_role(&Role::Callee),
        Message { event: Event::Passphrase, data: "0".to_string() }
    );
}

#[test]
fn first_frame_is_taken_as_the_bare_passphrase() {
    let frame = r#"{"event":"Offer","data":"x"}"#;
    let (session, directive) = Coordinator::new().step(Input::Text(frame.to_string()));
    assert_eq!(session, Coordinator::Claiming { passphrase: frame.to_string() });
    assert_eq!(directive, Directive::Claim { key: format!("passphrase:{frame}") });
}

#[test]
fn store_failure_during_the_claim_closes_the_transport() {
    let (session, _) = Coordinator::new().step(Input::Text("swordfish".to_string()));
    let (session, directive) = session.step(Input::Claim(ClaimOutcome::Error));
    assert_eq!(directive, Directive::Close { reason: Fault::StoreUnavailable });
    assert!(session.is_closed());
    let (session, directive) = session.step(Input::Text("late".to_string()));
    assert_eq!(directive, Directive::Halt);
    assert!(session.is_closed());
}

#[test]
fn first_frame_without_text_is_a_violation() {
    let (session, directive) = Coordinator::new().step(Input::Binary);
    assert_eq!(directive, Directive::Close { reason: Fault::ProtocolViolation });
    assert!(session.is_closed());
}

#[test]
fn closing_before_the_passphrase_ends_quietly() {
    let (session, directive) = Coordinator::new().step(Input::Closed);
    assert_eq!(directive, Directive::Halt);
    assert!(session.is_closed());
}

#[test]
fn frames_go_to_the_own_mailbox_in_order() {
    let mut store = FakeStore::new();
    let (mut session, _, registry) = connect(&mut store, "swordfish");
    for frame in ["first", "second", r#"{"event":"Offer","data":"sdp"}"#] {
        let (next, directive) = session.step(Input::Text(frame.to_string()));
        let (key, value) = match directive {
            Directive::Enqueue { key, value } => (key, value),
            other => panic!("expected an enqueue, got {other:?}"),
        };
        assert_eq!(key, registry.send_key());
        assert_ne!(key, registry.receive_key());
        assert_eq!(value, frame);
        let body = command(&rendezvous::store::send(&key, &value));
        let outcome = enqueue_outcome(Response::answer(200, &store.post(&body)));
        assert_eq!(outcome, EnqueueOutcome::Accepted);
        let (next, directive) = next.step(Input::Enqueue(outcome));
        assert_eq!(directive, Directive::Continue);
        session = next;
    }
    let stored: Vec<String> =
        store.lists["channel:caller:swordfish"].iter().rev().cloned().collect();
    assert_eq!(stored, ["first", "second", r#"{"event":"Offer","data":"sdp"}"#]);
    assert!(!store.lists.contains_key("channel:callee:swordfish"));
}

#[test]
fn frames_without_text_are_passed_over_while_relaying() {
    let mut store = FakeStore::new();
    let (session, _, registry) = connect(&mut store, "swordfish");
    let (session, directive) = session.step(Input::Binary);
    assert_eq!(directive, Directive::Continue);
    assert_eq!(session, Coordinator::Relaying { registry });
}

#[test]
fn failed_enqueue_cancels_the_relay() {
    let mut store = FakeStore::new();
    let (session, _, _) = connect(&mut store, "swordfish");
    let (session, _) = session.step(Input::Text("frame".to_string()));
    let (session, directive) = session.step(Input::Enqueue(EnqueueOutcome::Error));
    assert_eq!(directive, Directive::Cancel { reason: Fault::StoreUnavailable });
    assert!(session.is_closed());
}

#[test]
fn closed_transport_cancels_the_relay() {
    let mut store = FakeStore::new();
    let (session, _, _) = connect(&mut store, "swordfish");
    let (session, directive) = session.step(Input::Closed);
    assert_eq!(directive, Directive::Cancel { reason: Fault::TransportClosed });
    assert!(session.is_closed());
}

#[test]
fn the_relay_is_cancelled_once_even_if_close_and_error_both_come() {
    for inputs in [
        vec![Input::Enqueue(EnqueueOutcome::Error), Input::Closed],
        vec![Input::Closed, Input::Enqueue(EnqueueOutcome::Error)],
        vec![Input::Closed, Input::Closed, Input::Text("x".to_string())],
    ] {
        let mut store = FakeStore::new();
        let (mut session, _, _) = connect(&mut store, "swordfish");
        let (next, _) = session.step(Input::Text("frame".to_string()));
        session = next;
        let mut cancels = 0;
        for input in inputs {
            let (next, directive) = session.step(input);
            if matches!(directive, Directive::Cancel { .. }) {
                cancels += 1;
            }
            session = next;
        }
        assert_eq!(cancels, 1);
    }
}

#[test]
fn answers_out_of_turn_end_the_session() {
    let (session, directive) = Coordinator::new().step(Input::Claim(ClaimOutcome::Claimed));
    assert_eq!(directive, Directive::Close { reason: Fault::ProtocolViolation });
    assert!(session.is_closed());

    let (session, _) = Coordinator::new().step(Input::Text("p".to_string()));
    let (session, directive) = session.step(Input::Text("too early".to_string()));
    assert_eq!(directive, Directive::Close { reason: Fault::ProtocolViolation });
    assert!(session.is_closed());

    let mut store = FakeStore::new();
    let (session, _, _) = connect(&mut store, "swordfish");
    let (session, directive) = session.step(Input::Claim(ClaimOutcome::Claimed));
    assert_eq!(directive, Directive::Cancel { reason: Fault::ProtocolViolation });
    assert!(session.is_closed());
}

#[test]
fn a_passphrase_that_does_not_come_in_time_is_a_violation() {
    let (session, directive) = Coordinator::new().step(Input::Expired);
    assert_eq!(directive, Directive::Close { reason: Fault::ProtocolViolation });
    assert!(session.is_closed());
    assert_eq!(rendezvous::coordinator::PASSPHRASE_WAIT_MILLIS, 10_000);
}

#[test]
fn the_end_of_the_wait_means_nothing_once_the_passphrase_is_in() {
    let mut store = FakeStore::new();
    let (session, _, registry) = connect(&mut store, "swordfish");
    let (session, directive) = session.step(Input::Expired);
    assert_eq!(directive, Directive::Continue);
    assert_eq!(session, Coordinator::Relaying { registry });
}
