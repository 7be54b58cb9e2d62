//! The relay loop of one session: it polls the mailbox that the session
//! reads and forwards what it finds to the peer, and it alone removes the
//! session's keys when the session is over.
//!
//! One turn of the loop is a dequeue, then a forward or a pause, then a
//! look at the cancellation signal. The loop decides; its owner acts.
use crate::fault::Fault;
use crate::registry::{Registry, RegistryView};
use crate::store::{DequeueOutcome, DequeueOutcomeView};
use vstd::prelude::*;
use vstd::string::*;

verus! {

/// How long the loop pauses after it found the mailbox empty, in
/// milliseconds.
pub const BACKOFF_MILLIS: u64 = 1000;

/// Which answer the loop waits for.
#[derive(Clone, Copy, Debug, PartialEq, Eq, Structural)]
pub enum Phase {
    /// A dequeue is under way.
    Polling,
    /// The turn's work is done; the cancellation signal is looked at next.
    Checking,
    /// The loop has stopped.
    Finished,
}

/// A relay loop.
#[derive(Debug, PartialEq, Eq)]
pub struct Relay {
    registry: Registry,
    backoff: u64,
    phase: Phase,
}

/// What happened.
#[derive(Debug, PartialEq, Eq)]
pub enum Report {
    /// The store answered the dequeue.
    Dequeued(DequeueOutcome),
    /// The cancellation signal was looked at: whether it was raised.
    Checked(bool),
}

/// What to do next.
#[derive(Debug, PartialEq, Eq)]
pub enum Action {
    /// Dequeue from the mailbox `key`, and come back with the outcome.
    Dequeue { key: String },
    /// Send `frame` to the peer as it is, then look at the cancellation
    /// signal.
    Forward { frame: String },
    /// Pause for `millis` milliseconds, then look at the cancellation
    /// signal.
    Sleep { millis: u64 },
    /// Delete `keys` from the store; the loop is over.
    DeleteKeys { keys: Vec<String> },
    /// Nothing more: the loop is over, and nothing is cleaned up.
    Stop { reason: Fault },
    /// Nothing: the loop was over already.
    Halt,
}

/// Mathematical value of a [`Relay`].
pub struct RelayView {
    pub registry: RegistryView,
    pub backoff: u64,
    pub phase: Phase,
}

/// Mathematical value of a [`Report`].
pub enum ReportView {
    Dequeued(DequeueOutcomeView),
    Checked(bool),
}

/// Mathematical value of an [`Action`].
pub enum ActionView {
    Dequeue { key: Seq<char> },
    Forward { frame: Seq<char> },
    Sleep { millis: u64 },
    DeleteKeys { keys: Seq<Seq<char>> },
    Stop { reason: Fault },
    Halt,
}

impl View for Relay {
    type V = RelayView;

    closed spec fn view(&self) -> RelayView {
        RelayView { registry: self.registry@, backoff: self.backoff, phase: self.phase }
    }
}

impl View for Report {
    type V = ReportView;

    open spec fn view(&self) -> ReportView {
        match self {
            Report::Dequeued(outcome) => ReportView::Dequeued(outcome@),
            Report::Checked(raised) => ReportView::Checked(*raised),
        }
    }
}

impl View for Action {
    type V = ActionView;

    open spec fn view(&self) -> ActionView {
        match self {
            Action::Dequeue { key } => ActionView::Dequeue { key: key@ },
            Action::Forward { frame } => ActionView::Forward { frame: frame@ },
            Action::Sleep { millis } => ActionView::Sleep { millis: *millis },
            Action::DeleteKeys { keys } => ActionView::DeleteKeys {
                keys: Seq::new(keys@.len(), |i: int| keys@[i]@),
            },
            Action::Stop { reason } => ActionView::Stop { reason: *reason },
            Action::Halt => ActionView::Halt,
        }
    }
}

/// The keys that a session removes when it ends: the key it claimed and the
/// mailbox it writes. The mailbox it reads belongs to the other session.
pub open spec fn own_keys(registry: RegistryView) -> Seq<Seq<char>> {
    seq![registry.passphrase_key, registry.send_channel_key]
}

/// The loop as it starts, and its first action: a dequeue from the mailbox
/// that the session reads.
pub open spec fn started(registry: RegistryView, backoff: u64) -> (RelayView, ActionView) {
    (
        RelayView { registry, backoff, phase: Phase::Polling },
        ActionView::Dequeue { key: registry.receive_channel_key },
    )
}

/// The loop with another phase.
pub open spec fn moved(relay: RelayView, phase: Phase) -> RelayView {
    RelayView { registry: relay.registry, backoff: relay.backoff, phase }
}

/// The rules of the loop: the state it moves to and the action it gives,
/// for each state and report.
///
/// - A value is forwarded as it is; an empty mailbox is waited out; a store
///   error stops the loop without cleanup.
/// - After each turn the cancellation signal is looked at: if it was
///   raised, the session's own keys are deleted and the loop is over; if
///   not, the next dequeue follows.
/// - A report that the phase does not wait for stops the loop.
pub open spec fn step(relay: RelayView, report: ReportView) -> (RelayView, ActionView) {
    match relay.phase {
        Phase::Polling => match report {
            ReportView::Dequeued(DequeueOutcomeView::Value(frame)) => (
                moved(relay, Phase::Checking),
                ActionView::Forward { frame },
            ),
            ReportView::Dequeued(DequeueOutcomeView::Empty) => (
                moved(relay, Phase::Checking),
                ActionView::Sleep { millis: relay.backoff },
            ),
            ReportView::Dequeued(DequeueOutcomeView::Error) => (
                moved(relay, Phase::Finished),
                ActionView::Stop { reason: Fault::StoreUnavailable },
            ),
            ReportView::Checked(_) => (
                moved(relay, Phase::Finished),
                ActionView::Stop { reason: Fault::ProtocolViolation },
            ),
        },
        Phase::Checking => match report {
            ReportView::Checked(true) => (
                moved(relay, Phase::Finished),
                ActionView::DeleteKeys { keys: own_keys(relay.registry) },
            ),
            ReportView::Checked(false) => (
                moved(relay, Phase::Polling),
                ActionView::Dequeue { key: relay.registry.receive_channel_key },
            ),
            ReportView::Dequeued(_) => (
                moved(relay, Phase::Finished),
                ActionView::Stop { reason: Fault::ProtocolViolation },
            ),
        },
        Phase::Finished => (relay, ActionView::Halt),
    }
}

impl Relay {
    /// Starts a loop for the session that holds `registry`, with the usual
    /// pause of [`BACKOFF_MILLIS`].
    pub fn start(registry: Registry) -> (begun: (Relay, Action))
        ensures
            (begun.0@, begun.1@) == started(registry@, BACKOFF_MILLIS),
    {
        Relay::start_with_backoff(registry, BACKOFF_MILLIS)
    }

    /// Starts a loop that pauses for `backoff` milliseconds whenever it
    /// finds the mailbox empty.
    pub fn start_with_backoff(registry: Registry, backoff: u64) -> (begun: (Relay, Action))
        ensures
            (begun.0@, begun.1@) == started(registry@, backoff),
    {
        let key = registry.receive_key().to_owned();
        (Relay { registry, backoff, phase: Phase::Polling }, Action::Dequeue { key })
    }

    /// Which answer the loop waits for.
    pub fn phase(&self) -> (phase: Phase)
        ensures
            phase == self@.phase,
    {
        self.phase
    }

    /// Whether the loop is over.
    pub fn is_finished(&self) -> (finished: bool)
        ensures
            finished == (self@.phase == Phase::Finished),
    {
        self.phase == Phase::Finished
    }

    /// Takes one report and says what to do next.
    pub fn step(self, report: Report) -> (next: (Relay, Action))
        ensures
            (next.0@, next.1@) == step(self@, report@),
    {
        let Relay { registry, backoff, phase } = self;
        match phase {
            Phase::Polling => match report {
                Report::Dequeued(DequeueOutcome::Value(frame)) => (
                    Relay { registry, backoff, phase: Phase::Checking },
                    Action::Forward { frame },
                ),
                Report::Dequeued(DequeueOutcome::Empty) => (
                    Relay { registry, backoff, phase: Phase::Checking },
                    Action::Sleep { millis: backoff },
                ),
                Report::Dequeued(DequeueOutcome::Error) => (
                    Relay { registry, backoff, phase: Phase::Finished },
                    Action::Stop { reason: Fault::StoreUnavailable },
                ),
                Report::Checked(_) => (
                    Relay { registry, backoff, phase: Phase::Finished },
                    Action::Stop { reason: Fault::ProtocolViolation },
                ),
            },
            Phase::Checking => match report {
                Report::Checked(true) => {
                    let mut keys: Vec<String> = Vec::new();
                    keys.push(registry.claim_key().to_owned());
                    keys.push(registry.send_key().to_owned());
                    let action = Action::DeleteKeys { keys };
                    assert(action@ =~= ActionView::DeleteKeys { keys: own_keys(registry@) }) by {
                        assert(action@->DeleteKeys_keys =~= own_keys(registry@));
                    }
                    (Relay { registry, backoff, phase: Phase::Finished }, action)
                },
                Report::Checked(false) => {
                    let key = registry.receive_key().to_owned();
                    (Relay { registry, backoff, phase: Phase::Polling }, Action::Dequeue { key })
                },
                Report::Dequeued(_) => (
                    Relay { registry, backoff, phase: Phase::Finished },
                    Action::Stop { reason: Fault::ProtocolViolation },
                ),
            },
            Phase::Finished => (Relay { registry, backoff, phase: Phase::Finished }, Action::Halt),
        }
    }
}

/// The state after a run of reports.
pub open spec fn state_after(relay: RelayView, reports: Seq<ReportView>) -> RelayView
    decreases reports.len(),
{
    if reports.len() == 0 {
        relay
    } else {
        step(state_after(relay, reports.drop_last()), reports.last()).0
    }
}

/// The actions that a run of reports draws, in order.
pub open spec fn actions(relay: RelayView, reports: Seq<ReportView>) -> Seq<ActionView>
    decreases reports.len(),
{
    if reports.len() == 0 {
        Seq::empty()
    } else {
        actions(relay, reports.drop_last()).push(
            step(state_after(relay, reports.drop_last()), reports.last()).1,
        )
    }
}

/// How many of `taken` delete keys.
pub open spec fn deletions(taken: Seq<ActionView>) -> nat
    decreases taken.len(),
{
    if taken.len() == 0 {
        0
    } else {
        deletions(taken.drop_last()) + if taken.last() is DeleteKeys {
            1nat
        } else {
            0nat
        }
    }
}

proof fn lemma_keys_stay(relay: RelayView, reports: Seq<ReportView>)
    ensures
        state_after(relay, reports).registry == relay.registry,
        state_after(relay, reports).backoff == relay.backoff,
    decreases reports.len(),
{
    if reports.len() > 0 {
        lemma_keys_stay(relay, reports.drop_last());
    }
}

proof fn lemma_one_action_each(relay: RelayView, reports: Seq<ReportView>)
    ensures
        actions(relay, reports).len() == reports.len(),
    decreases reports.len(),
{
    if reports.len() > 0 {
        lemma_one_action_each(relay, reports.drop_last());
    }
}

proof fn lemma_deletes_once(relay: RelayView, reports: Seq<ReportView>)
    ensures
        deletions(actions(relay, reports)) <= 1,
        deletions(actions(relay, reports)) == 1 ==> state_after(relay, reports).phase
            == Phase::Finished,
    decreases reports.len(),
{
    if reports.len() > 0 {
        lemma_deletes_once(relay, reports.drop_last());
        assert(actions(relay, reports).drop_last() =~= actions(relay, reports.drop_last()));
    }
}

/// Cleanup happens at most once: whatever is reported to a loop, and in
/// whatever order, it asks for its keys to be deleted at most one time.
pub proof fn law_deletes_at_most_once(relay: RelayView, reports: Seq<ReportView>)
    ensures
        deletions(actions(relay, reports)) <= 1,
{
    lemma_deletes_once(relay, reports);
}

/// A loop touches its own session's keys only: it reads the mailbox that
/// the session reads and nothing else, and what it deletes is the claimed
/// key and the mailbox that the session writes, never the one it reads.
pub proof fn law_touches_own_keys_only(relay: RelayView, reports: Seq<ReportView>, i: int)
    requires
        0 <= i < reports.len(),
    ensures
        actions(relay, reports).len() == reports.len(),
        actions(relay, reports)[i] matches ActionView::Dequeue { key } ==> key
            == relay.registry.receive_channel_key,
        actions(relay, reports)[i] matches ActionView::DeleteKeys { keys } ==> keys == own_keys(
            relay.registry,
        ),
    decreases reports.len(),
{
    lemma_one_action_each(relay, reports);
    lemma_one_action_each(relay, reports.drop_last());
    lemma_keys_stay(relay, reports.drop_last());
    if i < reports.len() - 1 {
        law_touches_own_keys_only(relay, reports.drop_last(), i);
    }
}

/// A store error stops the loop without cleanup: from then on it asks for
/// nothing.
pub proof fn law_store_error_stops_without_cleanup(relay: RelayView, report: ReportView)
    requires
        relay.phase == Phase::Polling,
    ensures
        step(relay, ReportView::Dequeued(DequeueOutcomeView::Error)).1 == (ActionView::Stop {
            reason: Fault::StoreUnavailable,
        }),
        step(step(relay, ReportView::Dequeued(DequeueOutcomeView::Error)).0, report).1
            is Halt,
{
}

} // verus!
