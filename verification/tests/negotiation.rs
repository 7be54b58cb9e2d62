use rendezvous::fault::Fault;
use rendezvous::negotiation::{candidate_frame, Command, Negotiation, SdpKind, Signal};
use rendezvous::protocol::{Event, Message};

fn frame(event: Event, data: &str) -> Signal {
    Signal::Frame(Message { event, data: data.to_string() }.to_json())
}

/// An engine that creates fixed descriptions, accepts everything, and
/// discovers one candidate whenever it is given its local description.
struct FakeEngine {
    offer: &'static str,
    answer: &'static str,
    calls: Vec<String>,
    discovered: Vec<String>,
}

impl FakeEngine {
    fn new(offer: &'static str, answer: &'static str) -> FakeEngine {
        FakeEngine { offer, answer, calls: Vec::new(), discovered: Vec::new() }
    }
}

/// Hands `first` to the negotiation and carries out its commands until it
/// waits for the next frame. Gives the frames that went out, in order.
fn run(
    mut negotiation: Negotiation,
    engine: &mut FakeEngine,
    first: Signal,
) -> (Negotiation, Vec<String>, Command) {
    let mut sent = Vec::new();
    let mut signal = first;
    loop {
        let (next, command) = negotiation.step(signal);
        negotiation = next;
        signal = match command {
            Command::CreateOffer => {
                engine.calls.push("CreateOffer".to_string());
                Signal::Created { sdp: engine.offer.to_string() }
            }
            Command::CreateAnswer => {
                engine.calls.push("CreateAnswer".to_string());
                Signal::Created { sdp: engine.answer.to_string() }
            }
            Command::SetLocalDescription { kind, sdp } => {
                engine.calls.push(format!("SetLocalDescription({kind:?}, {sdp})"));
                engine.discovered.push(format!("candidate:{}", engine.discovered.len()));
                Signal::Applied
            }
            Command::SetRemoteDescription { kind, sdp } => {
                engine.calls.push(format!("SetRemoteDescription({kind:?}, {sdp})"));
                Signal::Applied
            }
            Command::AddIceCandidate { candidate } => {
                engine.calls.push(format!("AddIceCandidate({candidate})"));
                Signal::Applied
            }
            Command::Send { frame } => {
                sent.push(frame);
                for candidate in engine.discovered.drain(..) {
                    sent.push(candidate_frame(&candidate));
                }
                return (negotiation, sent, Command::Wait);
            }
            last => return (negotiation, sent, last),
        };
    }
}

#[test]
fn a_caller_sends_exactly_one_offer_before_any_candidate() {
    let mut engine = FakeEngine::new("v=0...", "unused");
    let (negotiation, sent, _) =
        run(Negotiation::new(), &mut engine, frame(Event::Passphrase, "1"));
    assert_eq!(negotiation, Negotiation::AwaitingAnswer);
    assert_eq!(
        engine.calls,
        ["CreateOffer", "SetLocalDescription(Offer, v=0...)"]
    );
    let messages: Vec<Message> =
        sent.iter().map(|frame| Message::from_json(frame).unwrap()).collect();
    assert_eq!(
        messages,
        [
            Message { event: Event::Offer, data: "v=0...".to_string() },
            Message { event: Event::IceCandidate, data: "candidate:0".to_string() },
        ]
    );
    assert_eq!(messages.iter().filter(|m| m.event == Event::Offer).count(), 1);
    assert_eq!(sent[0], r#"{"event":"Offer","data":"v=0..."}"#);
}

#[test]
fn a_callee_answers_an_offer_with_exactly_one_answer() {
    let mut engine = FakeEngine::new("unused", "sdpB");
    let (negotiation, sent, last) =
        run(Negotiation::new(), &mut engine, frame(Event::Passphrase, "0"));
    assert_eq!(negotiation, Negotiation::AwaitingOffer);
    assert_eq!(last, Command::Wait);
    assert!(sent.is_empty());
    assert!(engine.calls.is_empty());

    let (negotiation, sent, _) = run(negotiation, &mut engine, frame(Event::Offer, "sdpA"));
    assert_eq!(negotiation, Negotiation::Established);
    assert_eq!(
        engine.calls,
        [
            "SetRemoteDescription(Offer, sdpA)",
            "CreateAnswer",
            "SetLocalDescription(Answer, sdpB)",
        ]
    );
    let messages: Vec<Message> =
        sent.iter().map(|frame| Message::from_json(frame).unwrap()).collect();
    assert_eq!(messages[0], Message { event: Event::Answer, data: "sdpB".to_string() });
    assert_eq!(messages.iter().filter(|m| m.event == Event::Answer).count(), 1);
    assert_eq!(sent[0], r#"{"event":"Answer","data":"sdpB"}"#);
}

#[test]
fn a_caller_takes_the_answer_and_then_candidates() {
    let mut engine = FakeEngine::new("sdpA", "unused");
    let (negotiation, _, _) = run(Negotiation::new(), &mut engine, frame(Event::Passphrase, "1"));
    engine.calls.clear();
    let (negotiation, sent, last) = run(negotiation, &mut engine, frame(Event::Answer, "sdpB"));
    assert_eq!(negotiation, Negotiation::Established);
    assert_eq!(last, Command::Wait);
    assert!(sent.is_empty());
    let (negotiation, sent, last) =
        run(negotiation, &mut engine, frame(Event::IceCandidate, "candidate:9"));
    assert_eq!(negotiation, Negotiation::Established);
    assert_eq!(last, Command::Wait);
    assert!(sent.is_empty());
    assert_eq!(
        engine.calls,
        ["SetRemoteDescription(Answer, sdpB)", "AddIceCandidate(candidate:9)"]
    );
}

#[test]
fn each_step_of_a_caller() {
    let (n, c) = Negotiation::new().step(frame(Event::Passphrase, "1"));
    assert_eq!((&n, &c), (&Negotiation::CreatingOffer, &Command::CreateOffer));
    let (n, c) = n.step(Signal::Created { sdp: "o".to_string() });
    assert_eq!(n, Negotiation::PublishingOffer { sdp: "o".to_string() });
    assert_eq!(c, Command::SetLocalDescription { kind: SdpKind::Offer, sdp: "o".to_string() });
    let (n, c) = n.step(Signal::Applied);
    assert_eq!(n, Negotiation::AwaitingAnswer);
    assert_eq!(c, Command::Send { frame: r#"{"event":"Offer","data":"o"}"#.to_string() });
    let (n, c) = n.step(frame(Event::Answer, "a"));
    assert_eq!(n, Negotiation::AcceptingAnswer);
    assert_eq!(c, Command::SetRemoteDescription { kind: SdpKind::Answer, sdp: "a".to_string() });
    let (n, c) = n.step(Signal::Applied);
    assert_eq!((&n, &c), (&Negotiation::Established, &Command::Wait));
    let (n, c) = n.step(frame(Event::IceCandidate, "c"));
    assert_eq!(n, Negotiation::AddingCandidate);
    assert_eq!(c, Command::AddIceCandidate { candidate: "c".to_string() });
    let (n, c) = n.step(Signal::Applied);
    assert_eq!((&n, &c), (&Negotiation::Established, &Command::Wait));
    assert!(!n.is_failed());
}

#[test]
fn local_candidates_are_wrapped_as_they_are() {
    assert_eq!(
        candidate_frame("candidate:1 1 UDP 2122252543 192.168.0.2 49203 typ host"),
        r#"{"event":"IceCandidate","data":"candidate:1 1 UDP 2122252543 192.168.0.2 49203 typ host"}"#
    );
    assert_eq!(
        Message::from_json(&candidate_frame("a\"b")),
        Ok(Message { event: Event::IceCandidate, data: "a\"b".to_string() })
    );
}

fn violation(negotiation: Negotiation, signal: Signal) {
    let (next, command) = negotiation.step(signal);
    assert_eq!(command, Command::Fail { reason: Fault::ProtocolViolation });
    assert!(next.is_failed());
}

#[test]
fn events_out_of_turn_are_violations() {
    violation(Negotiation::new(), frame(Event::Offer, "sdp"));
    violation(Negotiation::new(), frame(Event::Answer, "sdp"));
    violation(Negotiation::new(), frame(Event::IceCandidate, "c"));
    violation(Negotiation::new(), frame(Event::Passphrase, "2"));
    violation(Negotiation::new(), frame(Event::Passphrase, ""));
    violation(Negotiation::AwaitingOffer, frame(Event::Passphrase, "0"));
    violation(Negotiation::AwaitingOffer, frame(Event::Answer, "sdp"));
    violation(Negotiation::AwaitingOffer, frame(Event::IceCandidate, "c"));
    violation(Negotiation::AwaitingAnswer, frame(Event::Offer, "sdp"));
    violation(Negotiation::AwaitingAnswer, frame(Event::IceCandidate, "c"));
    violation(Negotiation::Established, frame(Event::Offer, "sdp"));
    violation(Negotiation::Established, frame(Event::Answer, "sdp"));
    violation(Negotiation::Established, frame(Event::Passphrase, "1"));
    violation(Negotiation::CreatingOffer, frame(Event::Answer, "sdp"));
    violation(Negotiation::AwaitingRole, Signal::Applied);
    violation(Negotiation::AwaitingRole, Signal::Created { sdp: "x".to_string() });
    violation(Negotiation::AwaitingRole, Signal::Rejected);
    violation(Negotiation::Established, Signal::Rejected);
    violation(Negotiation::CreatingOffer, Signal::Applied);
    violation(Negotiation::AcceptingOffer, Signal::Created { sdp: "x".to_string() });
}

#[test]
fn malformed_frames_are_violations() {
    violation(Negotiation::new(), Signal::Frame("swordfish".to_string()));
    violation(Negotiation::new(), Signal::Frame(String::new()));
    violation(Negotiation::AwaitingOffer, Signal::Frame(r#"{"event":"Offer"}"#.to_string()));
    violation(
        Negotiation::Established,
        Signal::Frame(r#"{"event":"IceCandidate","data":7}"#.to_string()),
    );
}

#[test]
fn a_rejected_call_is_an_engine_failure() {
    let busy = [
        Negotiation::CreatingOffer,
        Negotiation::PublishingOffer { sdp: "o".to_string() },
        Negotiation::AcceptingAnswer,
        Negotiation::AcceptingOffer,
        Negotiation::CreatingAnswer,
        Negotiation::PublishingAnswer { sdp: "a".to_string() },
        Negotiation::AddingCandidate,
    ];
    for negotiation in busy {
        let (next, command) = negotiation.step(Signal::Rejected);
        assert_eq!(command, Command::Fail { reason: Fault::EngineFailure });
        assert!(next.is_failed());
    }
}

#[test]
fn a_closed_transport_ends_the_negotiation() {
    for negotiation in [Negotiation::new(), Negotiation::Established, Negotiation::CreatingAnswer] {
        let (next, command) = negotiation.step(Signal::Closed);
        assert_eq!(command, Command::Fail { reason: Fault::TransportClosed });
        assert!(next.is_failed());
    }
}

#[test]
fn nothing_moves_a_failed_negotiation() {
    let signals = [
        frame(Event::Passphrase, "1"),
        Signal::Applied,
        Signal::Created { sdp: "x".to_string() },
        Signal::Rejected,
        Signal::Closed,
    ];
    let mut negotiation = Negotiation::Failed;
    for signal in signals {
        let (next, command) = negotiation.step(signal);
        assert_eq!(command, Command::Halt);
        assert!(next.is_failed());
        negotiation = next;
    }
}

#[test]
fn one_description_is_sent_however_the_run_goes_on() {
    let mut engine = FakeEngine::new("sdpA", "sdpB");
    let (mut negotiation, first, _) =
        run(Negotiation::new(), &mut engine, frame(Event::Passphrase, "1"));
    let mut sends = first.len() - engine.calls.iter().filter(|c| c.starts_with("SetLocal")).count();
    for signal in [
        frame(Event::Answer, "sdpB"),
        frame(Event::IceCandidate, "c1"),
        frame(Event::IceCandidate, "c2"),
        frame(Event::Answer, "again"),
        frame(Event::Passphrase, "1"),
        Signal::Applied,
    ] {
        let (next, sent, _) = run(negotiation, &mut engine, signal);
        sends += sent.len();
        negotiation = next;
    }
    assert_eq!(sends, 1);
    assert!(negotiation.is_failed());
}
