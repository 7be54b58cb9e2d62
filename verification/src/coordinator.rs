//! The server side of one connection: it reads the passphrase, claims it,
//! tells the peer its role, and from then on puts every frame of the peer
//! into the mailbox that the other side reads.
//!
//! The coordinator decides; its owner acts. Each input is something that
//! happened on the transport or an answer of the store, and each directive
//! is the one thing to do next.
use crate::fault::Fault;
use crate::protocol::{message_text, readable, Event, Message, MessageView};
use crate::registry::{
    derived, law_keys_differ, passphrase_key_of, registry_of, role_marker, Registry, RegistryView,
    Role,
};
use crate::store::{ClaimOutcome, EnqueueOutcome};
use vstd::prelude::*;
use vstd::string::*;

verus! {

/// How long a session waits for the passphrase, in milliseconds.
pub const PASSPHRASE_WAIT_MILLIS: u64 = 10000;

/// Where a session stands.
#[derive(Debug, PartialEq, Eq)]
pub enum Coordinator {
    /// Nothing was read yet: the first frame is the passphrase.
    AwaitingPassphrase,
    /// The passphrase was read and its claim is under way.
    Claiming { passphrase: String },
    /// The role is assigned and frames are relayed.
    Relaying { registry: Registry },
    /// The session is over.
    Closed,
}

/// What happened.
#[derive(Debug, PartialEq, Eq)]
pub enum Input {
    /// A text frame arrived.
    Text(String),
    /// A frame without text arrived.
    Binary,
    /// The transport was closed.
    Closed,
    /// The wait for the passphrase ran out.
    Expired,
    /// The store answered the claim.
    Claim(ClaimOutcome),
    /// The store answered an enqueue.
    Enqueue(EnqueueOutcome),
}

/// What to do next.
#[derive(Debug, PartialEq, Eq)]
pub enum Directive {
    /// Claim `key` in the store, and come back with the outcome.
    Claim { key: String },
    /// Send `announcement` to the peer, start the relay loop with
    /// `registry`, and read on.
    Welcome { announcement: String, registry: Registry },
    /// Put `value` into the mailbox `key`, and come back with the outcome.
    Enqueue { key: String, value: String },
    /// Read the next frame.
    Continue,
    /// Signal the relay loop to clean up and stop; the session is over.
    Cancel { reason: Fault },
    /// Close the transport; no relay loop was started; the session is over.
    Close { reason: Fault },
    /// Nothing: the session was over already.
    Halt,
}

/// Mathematical value of a [`Coordinator`].
pub enum CoordinatorView {
    AwaitingPassphrase,
    Claiming { passphrase: Seq<char> },
    Relaying { registry: RegistryView },
    Closed,
}

/// Mathematical value of an [`Input`].
pub enum InputView {
    Text(Seq<char>),
    Binary,
    Closed,
    Expired,
    Claim(ClaimOutcome),
    Enqueue(EnqueueOutcome),
}

/// Mathematical value of a [`Directive`].
pub enum DirectiveView {
    Claim { key: Seq<char> },
    Welcome { announcement: Seq<char>, registry: RegistryView },
    Enqueue { key: Seq<char>, value: Seq<char> },
    Continue,
    Cancel { reason: Fault },
    Close { reason: Fault },
    Halt,
}

impl View for Coordinator {
    type V = CoordinatorView;

    open spec fn view(&self) -> CoordinatorView {
        match self {
            Coordinator::AwaitingPassphrase => CoordinatorView::AwaitingPassphrase,
            Coordinator::Claiming { passphrase } => CoordinatorView::Claiming {
                passphrase: passphrase@,
            },
            Coordinator::Relaying { registry } => CoordinatorView::Relaying {
                registry: registry@,
            },
            Coordinator::Closed => CoordinatorView::Closed,
        }
    }
}

impl View for Input {
    type V = InputView;

    open spec fn view(&self) -> InputView {
        match self {
            Input::Text(frame) => InputView::Text(frame@),
            Input::Binary => InputView::Binary,
            Input::Closed => InputView::Closed,
            Input::Expired => InputView::Expired,
            Input::Claim(outcome) => InputView::Claim(*outcome),
            Input::Enqueue(outcome) => InputView::Enqueue(*outcome),
        }
    }
}

impl View for Directive {
    type V = DirectiveView;

    open spec fn view(&self) -> DirectiveView {
        match self {
            Directive::Claim { key } => DirectiveView::Claim { key: key@ },
            Directive::Welcome { announcement, registry } => DirectiveView::Welcome {
                announcement: announcement@,
                registry: registry@,
            },
            Directive::Enqueue { key, value } => DirectiveView::Enqueue {
                key: key@,
                value: value@,
            },
            Directive::Continue => DirectiveView::Continue,
            Directive::Cancel { reason } => DirectiveView::Cancel { reason: *reason },
            Directive::Close { reason } => DirectiveView::Close { reason: *reason },
            Directive::Halt => DirectiveView::Halt,
        }
    }
}

/// The message that tells a peer its role.
pub open spec fn announcement_of(role: Role) -> MessageView {
    MessageView { event: Event::Passphrase, data: role_marker(role) }
}

/// The message that tells a peer its role.
pub fn response_based_on_role(role: &Role) -> (message: Message)
    ensures
        message@ == announcement_of(*role),
{
    Message { event: Event::Passphrase, data: role.marker().to_owned() }
}

/// What welcoming a peer as `role` for `passphrase` comes to.
pub open spec fn welcomed(passphrase: Seq<char>, role: Role) -> (CoordinatorView, DirectiveView) {
    (
        CoordinatorView::Relaying { registry: registry_of(passphrase, role) },
        DirectiveView::Welcome {
            announcement: message_text(announcement_of(role)),
            registry: registry_of(passphrase, role),
        },
    )
}

/// The rules of a session: the state it moves to and the directive it
/// gives, for each state and input.
///
/// - The first text frame is the passphrase, and is claimed. A first frame
///   without text is a protocol violation, and so is a passphrase that does
///   not come in time.
/// - Whoever claims the passphrase is the caller; whoever finds it claimed
///   is the callee. If the store fails, the transport is closed and no relay
///   loop is started.
/// - Every further text frame goes into the session's own mailbox; frames
///   without text are passed over, and so is the end of a wait that is over
///   already.
/// - A failed enqueue and a closed transport cancel the relay loop, which
///   alone cleans up.
/// - An input that the state does not wait for ends the session.
pub open spec fn step(state: CoordinatorView, input: InputView) -> (
    CoordinatorView,
    DirectiveView,
) {
    match state {
        CoordinatorView::AwaitingPassphrase => match input {
            InputView::Text(passphrase) => (
                CoordinatorView::Claiming { passphrase },
                DirectiveView::Claim { key: passphrase_key_of(passphrase) },
            ),
            InputView::Closed => (CoordinatorView::Closed, DirectiveView::Halt),
            _ => (
                CoordinatorView::Closed,
                DirectiveView::Close { reason: Fault::ProtocolViolation },
            ),
        },
        CoordinatorView::Claiming { passphrase } => match input {
            InputView::Claim(ClaimOutcome::Claimed) => welcomed(passphrase, Role::Caller),
            InputView::Claim(ClaimOutcome::AlreadyExists) => welcomed(passphrase, Role::Callee),
            InputView::Claim(ClaimOutcome::Error) => (
                CoordinatorView::Closed,
                DirectiveView::Close { reason: Fault::StoreUnavailable },
            ),
            InputView::Closed => (CoordinatorView::Closed, DirectiveView::Halt),
            _ => (
                CoordinatorView::Closed,
                DirectiveView::Close { reason: Fault::ProtocolViolation },
            ),
        },
        CoordinatorView::Relaying { registry } => match input {
            InputView::Text(frame) => (
                state,
                DirectiveView::Enqueue { key: registry.send_channel_key, value: frame },
            ),
            InputView::Binary => (state, DirectiveView::Continue),
            InputView::Expired => (state, DirectiveView::Continue),
            InputView::Enqueue(EnqueueOutcome::Accepted) => (state, DirectiveView::Continue),
            InputView::Enqueue(EnqueueOutcome::Error) => (
                CoordinatorView::Closed,
                DirectiveView::Cancel { reason: Fault::StoreUnavailable },
            ),
            InputView::Closed => (
                CoordinatorView::Closed,
                DirectiveView::Cancel { reason: Fault::TransportClosed },
            ),
            InputView::Claim(_) => (
                CoordinatorView::Closed,
                DirectiveView::Cancel { reason: Fault::ProtocolViolation },
            ),
        },
        CoordinatorView::Closed => (CoordinatorView::Closed, DirectiveView::Halt),
    }
}

impl Coordinator {
    /// A session that has read nothing yet.
    pub fn new() -> (session: Coordinator)
        ensures
            session@ == CoordinatorView::AwaitingPassphrase,
    {
        Coordinator::AwaitingPassphrase
    }

    /// Whether the session is over.
    pub fn is_closed(&self) -> (closed: bool)
        ensures
            closed == (self@ is Closed),
    {
        match self {
            Coordinator::Closed => true,
            _ => false,
        }
    }

    fn welcome(passphrase: String, role: Role) -> (next: (Coordinator, Directive))
        ensures
            (next.0@, next.1@) == welcomed(passphrase@, role),
            readable(message_text(announcement_of(role))),
    {
        let announcement = response_based_on_role(&role).to_json();
        let registry = Registry::new(passphrase, role);
        let started = registry.clone();
        (Coordinator::Relaying { registry }, Directive::Welcome { announcement, registry: started })
    }

    /// Takes one input and says what to do next.
    ///
    /// The announcement of a welcome is read back by the peer as the message
    /// it was written from.
    pub fn step(self, input: Input) -> (next: (Coordinator, Directive))
        ensures
            (next.0@, next.1@) == step(self@, input@),
            next.1@ matches DirectiveView::Welcome { announcement, .. } ==> readable(announcement),
    {
        match self {
            Coordinator::AwaitingPassphrase => match input {
                Input::Text(passphrase) => {
                    let key = Registry::passphrase_key(passphrase.as_str());
                    (Coordinator::Claiming { passphrase }, Directive::Claim { key })
                },
                Input::Closed => (Coordinator::Closed, Directive::Halt),
                _ => (Coordinator::Closed, Directive::Close { reason: Fault::ProtocolViolation }),
            },
            Coordinator::Claiming { passphrase } => match input {
                Input::Claim(ClaimOutcome::Claimed) => Coordinator::welcome(passphrase, Role::Caller),
                Input::Claim(ClaimOutcome::AlreadyExists) => Coordinator::welcome(
                    passphrase,
                    Role::Callee,
                ),
                Input::Claim(ClaimOutcome::Error) => (
                    Coordinator::Closed,
                    Directive::Close { reason: Fault::StoreUnavailable },
                ),
                Input::Closed => (Coordinator::Closed, Directive::Halt),
                _ => (Coordinator::Closed, Directive::Close { reason: Fault::ProtocolViolation }),
            },
            Coordinator::Relaying { registry } => match input {
                Input::Text(frame) => {
                    let key = registry.send_key().to_owned();
                    (Coordinator::Relaying { registry }, Directive::Enqueue { key, value: frame })
                },
                Input::Binary => (Coordinator::Relaying { registry }, Directive::Continue),
                Input::Expired => (Coordinator::Relaying { registry }, Directive::Continue),
                Input::Enqueue(EnqueueOutcome::Accepted) => (
                    Coordinator::Relaying { registry },
                    Directive::Continue,
                ),
                Input::Enqueue(EnqueueOutcome::Error) => (
                    Coordinator::Closed,
                    Directive::Cancel { reason: Fault::StoreUnavailable },
                ),
                Input::Closed => (
                    Coordinator::Closed,
                    Directive::Cancel { reason: Fault::TransportClosed },
                ),
                Input::Claim(_) => (
                    Coordinator::Closed,
                    Directive::Cancel { reason: Fault::ProtocolViolation },
                ),
            },
            Coordinator::Closed => (Coordinator::Closed, Directive::Halt),
        }
    }
}

/// Whether a state can come up in a session: the keys of a relaying session
/// are those of some passphrase and role.
pub open spec fn reachable(state: CoordinatorView) -> bool {
    state matches CoordinatorView::Relaying { registry } ==> derived(registry)
}

/// The state after a run of inputs.
pub open spec fn state_after(state: CoordinatorView, inputs: Seq<InputView>) -> CoordinatorView
    decreases inputs.len(),
{
    if inputs.len() == 0 {
        state
    } else {
        step(state_after(state, inputs.drop_last()), inputs.last()).0
    }
}

/// The directives that a run of inputs draws, in order.
pub open spec fn directives(state: CoordinatorView, inputs: Seq<InputView>) -> Seq<DirectiveView>
    decreases inputs.len(),
{
    if inputs.len() == 0 {
        Seq::empty()
    } else {
        directives(state, inputs.drop_last()).push(
            step(state_after(state, inputs.drop_last()), inputs.last()).1,
        )
    }
}

/// How many of `given` signal the relay loop.
pub open spec fn cancellations(given: Seq<DirectiveView>) -> nat
    decreases given.len(),
{
    if given.len() == 0 {
        0
    } else {
        cancellations(given.drop_last()) + if given.last() is Cancel {
            1nat
        } else {
            0nat
        }
    }
}

/// Every state of a session is reachable in the sense of [`reachable`].
pub proof fn law_states_are_reachable(state: CoordinatorView, input: InputView)
    requires
        reachable(state),
    ensures
        reachable(step(state, input).0),
{
    match state {
        CoordinatorView::Claiming { passphrase } => {
            assert(derived(registry_of(passphrase, Role::Caller)));
            assert(derived(registry_of(passphrase, Role::Callee)));
        },
        _ => {},
    }
}

/// A session writes to its own mailbox only: whatever it enqueues goes to
/// its send key, which is neither the mailbox it reads nor the key it
/// claimed. It is told to enqueue only while relaying.
pub proof fn law_writes_own_mailbox_only(state: CoordinatorView, input: InputView)
    requires
        reachable(state),
    ensures
        step(state, input).1 matches DirectiveView::Enqueue { key, value } ==> {
            &&& state matches CoordinatorView::Relaying { registry }
            &&& input == InputView::Text(value)
            &&& key == registry.send_channel_key
            &&& key != registry.receive_channel_key
            &&& key != registry.passphrase_key
        },
{
    if let CoordinatorView::Relaying { registry } = state {
        let (passphrase, role) = choose|passphrase: Seq<char>, role: Role|
            registry == registry_of(passphrase, role);
        law_keys_differ(passphrase, role);
    }
}

/// The two sessions of a passphrase are told complementary roles: the one
/// whose claim succeeded is announced as caller and given the caller's
/// keys, the other as callee with the mirrored keys.
pub proof fn law_roles_follow_the_claim(passphrase: Seq<char>)
    ensures
        step(
            CoordinatorView::Claiming { passphrase },
            InputView::Claim(ClaimOutcome::Claimed),
        ) == welcomed(passphrase, Role::Caller),
        step(
            CoordinatorView::Claiming { passphrase },
            InputView::Claim(ClaimOutcome::AlreadyExists),
        ) == welcomed(passphrase, Role::Callee),
{
}

proof fn lemma_cancels_once(state: CoordinatorView, inputs: Seq<InputView>)
    ensures
        cancellations(directives(state, inputs)) <= 1,
        cancellations(directives(state, inputs)) == 1 ==> state_after(state, inputs) is Closed,
    decreases inputs.len(),
{
    if inputs.len() > 0 {
        lemma_cancels_once(state, inputs.drop_last());
        assert(directives(state, inputs).drop_last() =~= directives(state, inputs.drop_last()));
    }
}

/// The relay loop is signalled at most once in the life of a session,
/// whatever happens and in whatever order: after the first signal the
/// session is over and gives no directive but `Halt`.
pub proof fn law_cancels_at_most_once(inputs: Seq<InputView>)
    ensures
        cancellations(directives(CoordinatorView::AwaitingPassphrase, inputs)) <= 1,
{
    lemma_cancels_once(CoordinatorView::AwaitingPassphrase, inputs);
}

} // verus!
