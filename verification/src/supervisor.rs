//! The life cycle of the subscription: connect, stream, back off, again.
//!
//! The supervisor decides; its caller acts. The caller performs the action
//! it is given and reports what came of it as the next event. There is no
//! final state and no action that ends the service: whatever goes wrong, the
//! supervisor waits a fixed delay and connects again.

use vstd::prelude::*;

verus! {

/// The delay before a new connection is attempted, in milliseconds.
pub const RECONNECT_DELAY_MILLIS: u64 = 5000;

/// Where the subscription stands.
#[derive(Clone, Copy, Debug, PartialEq, Eq, Structural)]
pub enum SupervisorState {
    /// A connection is being set up.
    Connecting,
    /// The subscription is live and its logs are being consumed.
    Streaming,
    /// The last connection is gone; the delay is running.
    BackingOff,
}

/// What the caller reports.
#[derive(Clone, Copy, Debug, PartialEq, Eq, Structural)]
pub enum SupervisorEvent {
    /// The subscription was established.
    Connected,
    /// The subscription could not be established.
    ConnectFailed,
    /// The stream of logs was closed.
    StreamEnded,
    /// The stream of logs broke with a transport error.
    StreamFailed,
    /// The delay has passed.
    DelayElapsed,
}

/// What the caller is to do next.
#[derive(Clone, Copy, Debug, PartialEq, Eq, Structural)]
pub enum SupervisorAction {
    /// Establish a new subscription.
    Connect,
    /// Consume the logs of the live subscription until it ends.
    Consume,
    /// Sleep, then report that the delay has passed.
    Wait {
        /// How long to sleep, in milliseconds.
        millis: u64,
    },
}

/// The state and the action that follow `event` in `state`.
///
/// A successful connection starts the streaming, and the end of the delay
/// starts a new connection. Everything else, a failure as much as an event
/// that does not belong to the state, starts the delay.
pub open spec fn transition(state: SupervisorState, event: SupervisorEvent) -> (
    SupervisorState,
    SupervisorAction,
) {
    match (state, event) {
        (SupervisorState::Connecting, SupervisorEvent::Connected) => (
            SupervisorState::Streaming,
            SupervisorAction::Consume,
        ),
        (SupervisorState::BackingOff, SupervisorEvent::DelayElapsed) => (
            SupervisorState::Connecting,
            SupervisorAction::Connect,
        ),
        _ => (SupervisorState::BackingOff, SupervisorAction::Wait { millis: 5000 }),
    }
}

/// The state after the events `events`, one after the other, from `state`.
pub open spec fn state_after(state: SupervisorState, events: Seq<SupervisorEvent>) -> SupervisorState
    decreases events.len(),
{
    if events.len() == 0 {
        state
    } else {
        transition(state_after(state, events.drop_last()), events.last()).0
    }
}

/// The actions that the events `events`, one after the other, call for from `state`.
pub open spec fn actions_after(state: SupervisorState, events: Seq<SupervisorEvent>) -> Seq<
    SupervisorAction,
>
    decreases events.len(),
{
    if events.len() == 0 {
        Seq::empty()
    } else {
        actions_after(state, events.drop_last()).push(
            transition(state_after(state, events.drop_last()), events.last()).1,
        )
    }
}

/// Whether `event` reports that the live subscription is gone.
pub open spec fn is_termination(event: SupervisorEvent) -> bool {
    event is StreamEnded || event is StreamFailed
}

/// The state in which the service starts, and its first action.
pub fn start() -> (first: (SupervisorState, SupervisorAction))
    ensures
        first == (SupervisorState::Connecting, SupervisorAction::Connect),
{
    (SupervisorState::Connecting, SupervisorAction::Connect)
}

/// Decides what follows `event` in `state`.
pub fn advance(state: SupervisorState, event: SupervisorEvent) -> (next: (
    SupervisorState,
    SupervisorAction,
))
    ensures
        next == transition(state, event),
{
    match (state, event) {
        (SupervisorState::Connecting, SupervisorEvent::Connected) => (
            SupervisorState::Streaming,
            SupervisorAction::Consume,
        ),
        (SupervisorState::BackingOff, SupervisorEvent::DelayElapsed) => (
            SupervisorState::Connecting,
            SupervisorAction::Connect,
        ),
        _ => (SupervisorState::BackingOff, SupervisorAction::Wait { millis: RECONNECT_DELAY_MILLIS }),
    }
}

/// When the live subscription ends, for whatever reason, the supervisor
/// waits the fixed delay and then attempts exactly one connection.
pub proof fn lemma_termination_then_one_reconnect(event: SupervisorEvent)
    requires
        is_termination(event),
    ensures
        actions_after(SupervisorState::Streaming, seq![event, SupervisorEvent::DelayElapsed])
            == seq![SupervisorAction::Wait { millis: 5000 }, SupervisorAction::Connect],
        state_after(SupervisorState::Streaming, seq![event, SupervisorEvent::DelayElapsed])
            == SupervisorState::Connecting,
{
    let events = seq![event, SupervisorEvent::DelayElapsed];
    let state = SupervisorState::Streaming;
    assert(events.drop_last() =~= seq![event]);
    assert(events.drop_last().drop_last() =~= Seq::<SupervisorEvent>::empty());
    assert(state_after(state, events.drop_last().drop_last()) == state);
    assert(state_after(state, events.drop_last()) == SupervisorState::BackingOff);
    assert(actions_after(state, events.drop_last().drop_last()) =~= Seq::empty());
    assert(actions_after(state, events.drop_last()) =~= seq![
        SupervisorAction::Wait { millis: 5000 },
    ]);
    assert(actions_after(state, events) =~= seq![
        SupervisorAction::Wait { millis: 5000 },
        SupervisorAction::Connect,
    ]);
}

/// A connection is attempted only when the delay has passed, and the logs
/// are consumed only once a connection stands.
pub proof fn lemma_actions_have_one_cause(state: SupervisorState, event: SupervisorEvent)
    ensures
        transition(state, event).1 is Connect <==> state is BackingOff && event is DelayElapsed,
        transition(state, event).1 is Consume <==> state is Connecting && event is Connected,
        transition(state, event).1 matches SupervisorAction::Wait { millis } ==> millis == 5000,
{
}

/// No failure ends the service: whatever the state, a failed connection or
/// a lost stream leads to the delay, and the end of the delay leads to a new
/// connection.
pub proof fn lemma_every_failure_is_retried(state: SupervisorState, event: SupervisorEvent)
    requires
        event is ConnectFailed || is_termination(event),
    ensures
        transition(state, event) == (
            SupervisorState::BackingOff,
            SupervisorAction::Wait { millis: 5000 },
        ),
        transition(transition(state, event).0, SupervisorEvent::DelayElapsed) == (
            SupervisorState::Connecting,
            SupervisorAction::Connect,
        ),
{
}

} // verus!
