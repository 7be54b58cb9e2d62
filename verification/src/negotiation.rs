//! The client side of a rendezvous: it takes the frames that the server
//! relays and the results of the negotiation engine, and says which call to
//! make or which frame to send next.
//!
//! One call of the engine is under way at a time, and a frame is handed in
//! only when none is: frames that arrive meanwhile wait in their owner's
//! queue. Candidates that the engine discovers locally need no state: each
//! is wrapped by [`candidate_frame`] and sent at once.
use crate::fault::Fault;
use crate::protocol::{message_text, parse_message, readable, Event, Message, MessageView};
use crate::registry::{law_role_is_found_by_marker, role_marked, role_marker, Role};
use vstd::prelude::*;
use vstd::string::*;

verus! {

/// Which of the two session descriptions is meant.
#[derive(Clone, Copy, Debug, PartialEq, Eq, Structural)]
pub enum SdpKind {
    Offer,
    Answer,
}

/// Where a negotiation stands.
#[derive(Debug, PartialEq, Eq)]
pub enum Negotiation {
    /// Nothing was received: the role comes first.
    AwaitingRole,
    /// Caller: the engine is creating the offer.
    CreatingOffer,
    /// Caller: the engine is taking the offer `sdp` as its local description.
    PublishingOffer { sdp: String },
    /// Caller: the offer was sent.
    AwaitingAnswer,
    /// Caller: the engine is taking the answer as its remote description.
    AcceptingAnswer,
    /// Callee: the role is known.
    AwaitingOffer,
    /// Callee: the engine is taking the offer as its remote description.
    AcceptingOffer,
    /// Callee: the engine is creating the answer.
    CreatingAnswer,
    /// Callee: the engine is taking the answer `sdp` as its local
    /// description.
    PublishingAnswer { sdp: String },
    /// Both descriptions are set; candidates are taken.
    Established,
    /// The engine is taking a candidate.
    AddingCandidate,
    /// The negotiation is over.
    Failed,
}

/// What happened.
#[derive(Debug, PartialEq, Eq)]
pub enum Signal {
    /// A text frame arrived from the server.
    Frame(String),
    /// The engine created the description that it was asked for.
    Created { sdp: String },
    /// The engine took the description or the candidate that it was given.
    Applied,
    /// The engine rejected the call.
    Rejected,
    /// The transport was closed.
    Closed,
}

/// What to do next.
#[derive(Debug, PartialEq, Eq)]
pub enum Command {
    /// Ask the engine for an offer; come back with `Created` or `Rejected`.
    CreateOffer,
    /// Ask the engine for an answer; come back with `Created` or `Rejected`.
    CreateAnswer,
    /// Give the engine its own description; come back with `Applied` or
    /// `Rejected`.
    SetLocalDescription { kind: SdpKind, sdp: String },
    /// Give the engine the other side's description; come back with
    /// `Applied` or `Rejected`.
    SetRemoteDescription { kind: SdpKind, sdp: String },
    /// Give the engine a candidate of the other side; come back with
    /// `Applied` or `Rejected`.
    AddIceCandidate { candidate: String },
    /// Send `frame` to the server, then take the next frame.
    Send { frame: String },
    /// Take the next frame.
    Wait,
    /// The negotiation is over, for `reason`.
    Fail { reason: Fault },
    /// Nothing: the negotiation was over already.
    Halt,
}

/// Mathematical value of a [`Negotiation`].
pub enum NegotiationView {
    AwaitingRole,
    CreatingOffer,
    PublishingOffer { sdp: Seq<char> },
    AwaitingAnswer,
    AcceptingAnswer,
    AwaitingOffer,
    AcceptingOffer,
    CreatingAnswer,
    PublishingAnswer { sdp: Seq<char> },
    Established,
    AddingCandidate,
    Failed,
}

/// Mathematical value of a [`Signal`].
pub enum SignalView {
    Frame(Seq<char>),
    Created { sdp: Seq<char> },
    Applied,
    Rejected,
    Closed,
}

/// Mathematical value of a [`Command`].
pub enum CommandView {
    CreateOffer,
    CreateAnswer,
    SetLocalDescription { kind: SdpKind, sdp: Seq<char> },
    SetRemoteDescription { kind: SdpKind, sdp: Seq<char> },
    AddIceCandidate { candidate: Seq<char> },
    Send { frame: Seq<char> },
    Wait,
    Fail { reason: Fault },
    Halt,
}

impl View for Negotiation {
    type V = NegotiationView;

    open spec fn view(&self) -> NegotiationView {
        match self {
            Negotiation::AwaitingRole => NegotiationView::AwaitingRole,
            Negotiation::CreatingOffer => NegotiationView::CreatingOffer,
            Negotiation::PublishingOffer { sdp } => NegotiationView::PublishingOffer { sdp: sdp@ },
            Negotiation::AwaitingAnswer => NegotiationView::AwaitingAnswer,
            Negotiation::AcceptingAnswer => NegotiationView::AcceptingAnswer,
            Negotiation::AwaitingOffer => NegotiationView::AwaitingOffer,
            Negotiation::AcceptingOffer => NegotiationView::AcceptingOffer,
            Negotiation::CreatingAnswer => NegotiationView::CreatingAnswer,
            Negotiation::PublishingAnswer { sdp } => NegotiationView::PublishingAnswer {
                sdp: sdp@,
            },
            Negotiation::Established => NegotiationView::Established,
            Negotiation::AddingCandidate => NegotiationView::AddingCandidate,
            Negotiation::Failed => NegotiationView::Failed,
        }
    }
}

impl View for Signal {
    type V = SignalView;

    open spec fn view(&self) -> SignalView {
        match self {
            Signal::Frame(frame) => SignalView::Frame(frame@),
            Signal::Created { sdp } => SignalView::Created { sdp: sdp@ },
            Signal::Applied => SignalView::Applied,
            Signal::Rejected => SignalView::Rejected,
            Signal::Closed => SignalView::Closed,
        }
    }
}

impl View for Command {
    type V = CommandView;

    open spec fn view(&self) -> CommandView {
        match self {
            Command::CreateOffer => CommandView::CreateOffer,
            Command::CreateAnswer => CommandView::CreateAnswer,
            Command::SetLocalDescription { kind, sdp } => CommandView::SetLocalDescription {
                kind: *kind,
                sdp: sdp@,
            },
            Command::SetRemoteDescription { kind, sdp } => CommandView::SetRemoteDescription {
                kind: *kind,
                sdp: sdp@,
            },
            Command::AddIceCandidate { candidate } => CommandView::AddIceCandidate {
                candidate: candidate@,
            },
            Command::Send { frame } => CommandView::Send { frame: frame@ },
            Command::Wait => CommandView::Wait,
            Command::Fail { reason } => CommandView::Fail { reason: *reason },
            Command::Halt => CommandView::Halt,
        }
    }
}

/// The end of a negotiation for `reason`.
pub open spec fn failed(reason: Fault) -> (NegotiationView, CommandView) {
    (NegotiationView::Failed, CommandView::Fail { reason })
}

/// The frame that carries the description `sdp` of the given kind.
pub open spec fn description_frame(kind: SdpKind, sdp: Seq<char>) -> Seq<char> {
    message_text(
        MessageView {
            event: match kind {
                SdpKind::Offer => Event::Offer,
                SdpKind::Answer => Event::Answer,
            },
            data: sdp,
        },
    )
}

/// What a message does to a negotiation that waits for a frame.
///
/// - The role comes first: `"1"` makes a caller, who creates the offer;
///   `"0"` makes a callee, who waits for it.
/// - An offer reaches a callee that waits for it, and becomes its remote
///   description.
/// - An answer reaches a caller that has sent its offer, and becomes its
///   remote description.
/// - A candidate is taken once both descriptions are set.
/// - Everything else is out of turn, and a protocol violation.
pub open spec fn on_message(state: NegotiationView, message: MessageView) -> (
    NegotiationView,
    CommandView,
) {
    match message.event {
        Event::Passphrase => match (state, role_marked(message.data)) {
            (NegotiationView::AwaitingRole, Some(Role::Caller)) => (
                NegotiationView::CreatingOffer,
                CommandView::CreateOffer,
            ),
            (NegotiationView::AwaitingRole, Some(Role::Callee)) => (
                NegotiationView::AwaitingOffer,
                CommandView::Wait,
            ),
            _ => failed(Fault::ProtocolViolation),
        },
        Event::Offer => match state {
            NegotiationView::AwaitingOffer => (
                NegotiationView::AcceptingOffer,
                CommandView::SetRemoteDescription { kind: SdpKind::Offer, sdp: message.data },
            ),
            _ => failed(Fault::ProtocolViolation),
        },
        Event::Answer => match state {
            NegotiationView::AwaitingAnswer => (
                NegotiationView::AcceptingAnswer,
                CommandView::SetRemoteDescription { kind: SdpKind::Answer, sdp: message.data },
            ),
            _ => failed(Fault::ProtocolViolation),
        },
        Event::IceCandidate => match state {
            NegotiationView::Established => (
                NegotiationView::AddingCandidate,
                CommandView::AddIceCandidate { candidate: message.data },
            ),
            _ => failed(Fault::ProtocolViolation),
        },
    }
}

/// Whether a call of the engine is under way.
pub open spec fn engine_busy(state: NegotiationView) -> bool {
    state is CreatingOffer || state is PublishingOffer || state is AcceptingAnswer
        || state is AcceptingOffer || state is CreatingAnswer || state is PublishingAnswer
        || state is AddingCandidate
}

/// The rules of a negotiation: the state it moves to and the command it
/// gives, for each state and signal.
///
/// - A frame is read as a message and handled by [`on_message`]; a frame
///   that holds no message is a protocol violation.
/// - A caller creates its offer, takes it as local description and sends
///   it; later it takes the answer as remote description.
/// - A callee takes the offer as remote description, creates its answer,
///   takes it as local description and sends it.
/// - A call that the engine rejects ends the negotiation, and so does the
///   end of the transport and every signal that comes out of turn.
pub open spec fn step(state: NegotiationView, signal: SignalView) -> (
    NegotiationView,
    CommandView,
) {
    if state is Failed {
        (NegotiationView::Failed, CommandView::Halt)
    } else {
        match signal {
            SignalView::Closed => failed(Fault::TransportClosed),
            SignalView::Frame(frame) => match parse_message(frame) {
                Some(message) => on_message(state, message),
                None => failed(Fault::ProtocolViolation),
            },
            SignalView::Created { sdp } => on_created(state, sdp),
            SignalView::Applied => on_applied(state),
            SignalView::Rejected => if engine_busy(state) {
                failed(Fault::EngineFailure)
            } else {
                failed(Fault::ProtocolViolation)
            },
        }
    }
}

/// What a description that the engine created does: it becomes the local
/// description, an offer where an offer was asked for and an answer where
/// an answer was.
pub open spec fn on_created(state: NegotiationView, sdp: Seq<char>) -> (
    NegotiationView,
    CommandView,
) {
    match state {
        NegotiationView::CreatingOffer => (
            NegotiationView::PublishingOffer { sdp },
            CommandView::SetLocalDescription { kind: SdpKind::Offer, sdp },
        ),
        NegotiationView::CreatingAnswer => (
            NegotiationView::PublishingAnswer { sdp },
            CommandView::SetLocalDescription { kind: SdpKind::Answer, sdp },
        ),
        _ => failed(Fault::ProtocolViolation),
    }
}

/// What follows when the engine has taken what it was given: a local
/// description is sent to the other side, a remote offer is answered, and
/// after a remote answer or a candidate the next frame is taken.
pub open spec fn on_applied(state: NegotiationView) -> (NegotiationView, CommandView) {
    match state {
        NegotiationView::PublishingOffer { sdp } => (
            NegotiationView::AwaitingAnswer,
            CommandView::Send { frame: description_frame(SdpKind::Offer, sdp) },
        ),
        NegotiationView::AcceptingAnswer => (NegotiationView::Established, CommandView::Wait),
        NegotiationView::AcceptingOffer => (
            NegotiationView::CreatingAnswer,
            CommandView::CreateAnswer,
        ),
        NegotiationView::PublishingAnswer { sdp } => (
            NegotiationView::Established,
            CommandView::Send { frame: description_frame(SdpKind::Answer, sdp) },
        ),
        NegotiationView::AddingCandidate => (NegotiationView::Established, CommandView::Wait),
        _ => failed(Fault::ProtocolViolation),
    }
}

/// The frame that carries a candidate which the engine discovered locally.
pub fn candidate_frame(candidate: &str) -> (frame: String)
    ensures
        frame@ == message_text(MessageView { event: Event::IceCandidate, data: candidate@ }),
        readable(frame@),
{
    Message { event: Event::IceCandidate, data: candidate.to_owned() }.to_json()
}

fn fail(reason: Fault) -> (next: (Negotiation, Command))
    ensures
        (next.0@, next.1@) == failed(reason),
{
    (Negotiation::Failed, Command::Fail { reason })
}

impl Negotiation {
    /// A negotiation that has received nothing yet.
    pub fn new() -> (negotiation: Negotiation)
        ensures
            negotiation@ == NegotiationView::AwaitingRole,
    {
        Negotiation::AwaitingRole
    }

    /// Whether the negotiation is over.
    pub fn is_failed(&self) -> (over: bool)
        ensures
            over == (self@ is Failed),
    {
        match self {
            Negotiation::Failed => true,
            _ => false,
        }
    }

    fn on_message(self, message: Message) -> (next: (Negotiation, Command))
        ensures
            (next.0@, next.1@) == on_message(self@, message@),
    {
        let Message { event, data } = message;
        match event {
            Event::Passphrase => match (self, Role::from_marker(data.as_str())) {
                (Negotiation::AwaitingRole, Some(Role::Caller)) => (
                    Negotiation::CreatingOffer,
                    Command::CreateOffer,
                ),
                (Negotiation::AwaitingRole, Some(Role::Callee)) => (
                    Negotiation::AwaitingOffer,
                    Command::Wait,
                ),
                _ => fail(Fault::ProtocolViolation),
            },
            Event::Offer => match self {
                Negotiation::AwaitingOffer => (
                    Negotiation::AcceptingOffer,
                    Command::SetRemoteDescription { kind: SdpKind::Offer, sdp: data },
                ),
                _ => fail(Fault::ProtocolViolation),
            },
            Event::Answer => match self {
                Negotiation::AwaitingAnswer => (
                    Negotiation::AcceptingAnswer,
                    Command::SetRemoteDescription { kind: SdpKind::Answer, sdp: data },
                ),
                _ => fail(Fault::ProtocolViolation),
            },
            Event::IceCandidate => match self {
                Negotiation::Established => (
                    Negotiation::AddingCandidate,
                    Command::AddIceCandidate { candidate: data },
                ),
                _ => fail(Fault::ProtocolViolation),
            },
        }
    }

    fn on_created(self, sdp: String) -> (next: (Negotiation, Command))
        ensures
            (next.0@, next.1@) == on_created(self@, sdp@),
    {
        match self {
            Negotiation::CreatingOffer => {
                let local = sdp.clone();
                (
                    Negotiation::PublishingOffer { sdp },
                    Command::SetLocalDescription { kind: SdpKind::Offer, sdp: local },
                )
            },
            Negotiation::CreatingAnswer => {
                let local = sdp.clone();
                (
                    Negotiation::PublishingAnswer { sdp },
                    Command::SetLocalDescription { kind: SdpKind::Answer, sdp: local },
                )
            },
            _ => fail(Fault::ProtocolViolation),
        }
    }

    fn on_applied(self) -> (next: (Negotiation, Command))
        ensures
            (next.0@, next.1@) == on_applied(self@),
            next.1@ matches CommandView::Send { frame } ==> readable(frame),
    {
        match self {
            Negotiation::PublishingOffer { sdp } => {
                let frame = Message { event: Event::Offer, data: sdp }.to_json();
                (Negotiation::AwaitingAnswer, Command::Send { frame })
            },
            Negotiation::AcceptingAnswer => (Negotiation::Established, Command::Wait),
            Negotiation::AcceptingOffer => (Negotiation::CreatingAnswer, Command::CreateAnswer),
            Negotiation::PublishingAnswer { sdp } => {
                let frame = Message { event: Event::Answer, data: sdp }.to_json();
                (Negotiation::Established, Command::Send { frame })
            },
            Negotiation::AddingCandidate => (Negotiation::Established, Command::Wait),
            _ => fail(Fault::ProtocolViolation),
        }
    }

    fn on_rejected(self) -> (next: (Negotiation, Command))
        ensures
            (next.0@, next.1@) == if engine_busy(self@) {
                failed(Fault::EngineFailure)
            } else {
                failed(Fault::ProtocolViolation)
            },
    {
        match self {
            Negotiation::CreatingOffer
            | Negotiation::PublishingOffer { .. }
            | Negotiation::AcceptingAnswer
            | Negotiation::AcceptingOffer
            | Negotiation::CreatingAnswer
            | Negotiation::PublishingAnswer { .. }
            | Negotiation::AddingCandidate => fail(Fault::EngineFailure),
            _ => fail(Fault::ProtocolViolation),
        }
    }

    /// Takes one signal and says what to do next.
    ///
    /// A frame that is to be sent is read back by the other side as the
    /// message it was written from.
    pub fn step(self, signal: Signal) -> (next: (Negotiation, Command))
        ensures
            (next.0@, next.1@) == step(self@, signal@),
            next.1@ matches CommandView::Send { frame } ==> readable(frame),
    {
        if self.is_failed() {
            return (Negotiation::Failed, Command::Halt);
        }
        match signal {
            Signal::Closed => fail(Fault::TransportClosed),
            Signal::Frame(frame) => match Message::from_json(frame.as_str()) {
                Ok(message) => self.on_message(message),
                Err(_) => fail(Fault::ProtocolViolation),
            },
            Signal::Created { sdp } => self.on_created(sdp),
            Signal::Applied => self.on_applied(),
            Signal::Rejected => self.on_rejected(),
        }
    }
}

/// The state after a run of signals.
pub open spec fn state_after(state: NegotiationView, signals: Seq<SignalView>) -> NegotiationView
    decreases signals.len(),
{
    if signals.len() == 0 {
        state
    } else {
        step(state_after(state, signals.drop_last()), signals.last()).0
    }
}

/// The commands that a run of signals draws, in order.
pub open spec fn commands(state: NegotiationView, signals: Seq<SignalView>) -> Seq<CommandView>
    decreases signals.len(),
{
    if signals.len() == 0 {
        Seq::empty()
    } else {
        commands(state, signals.drop_last()).push(
            step(state_after(state, signals.drop_last()), signals.last()).1,
        )
    }
}

/// How many of `given` send a frame.
pub open spec fn sends(given: Seq<CommandView>) -> nat
    decreases given.len(),
{
    if given.len() == 0 {
        0
    } else {
        sends(given.drop_last()) + if given.last() is Send {
            1nat
        } else {
            0nat
        }
    }
}

/// Whether a negotiation has yet to send its description.
pub open spec fn before_sending(state: NegotiationView) -> bool {
    state is AwaitingRole || state is CreatingOffer || state is PublishingOffer
        || state is AwaitingOffer || state is AcceptingOffer || state is CreatingAnswer
        || state is PublishingAnswer
}

proof fn lemma_sends_once(signals: Seq<SignalView>)
    ensures
        sends(commands(NegotiationView::AwaitingRole, signals)) <= 1,
        before_sending(state_after(NegotiationView::AwaitingRole, signals)) ==> sends(
            commands(NegotiationView::AwaitingRole, signals),
        ) == 0,
    decreases signals.len(),
{
    let start = NegotiationView::AwaitingRole;
    if signals.len() > 0 {
        lemma_sends_once(signals.drop_last());
        assert(commands(start, signals).drop_last() =~= commands(start, signals.drop_last()));
    }
}

/// A negotiation sends one description at most: a caller its offer, a
/// callee its answer, and nothing more, whatever reaches it and in whatever
/// order.
pub proof fn law_sends_at_most_one_description(signals: Seq<SignalView>)
    ensures
        sends(commands(NegotiationView::AwaitingRole, signals)) <= 1,
{
    lemma_sends_once(signals);
}

/// What a negotiation sends is the description that its engine created: the
/// offer of a caller, the answer of a callee.
pub proof fn law_sends_what_the_engine_created(state: NegotiationView, signal: SignalView)
    ensures
        step(state, signal).1 matches CommandView::Send { frame } ==> {
            &&& signal is Applied
            &&& state is PublishingOffer || state is PublishingAnswer
            &&& state matches NegotiationView::PublishingOffer { sdp } ==> frame
                == description_frame(SdpKind::Offer, sdp)
            &&& state matches NegotiationView::PublishingAnswer { sdp } ==> frame
                == description_frame(SdpKind::Answer, sdp)
        },
{
}

/// A peer takes the role that the server announces to it: told `"1"` it
/// creates the offer, told `"0"` it waits for one.
pub proof fn law_announced_role_is_taken(role: Role)
    ensures
        on_message(
            NegotiationView::AwaitingRole,
            MessageView { event: Event::Passphrase, data: role_marker(role) },
        ) == match role {
            Role::Caller => (NegotiationView::CreatingOffer, CommandView::CreateOffer),
            Role::Callee => (NegotiationView::AwaitingOffer, CommandView::Wait),
        },
{
    law_role_is_found_by_marker(role);
}

} // verus!
