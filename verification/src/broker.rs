//! The broker's decisions.
//!
//! The broker is one background task that serves one request at a time: it
//! waits for a request, works on it, sends the response, and waits again. The
//! waiting and the work suspend the task, so they are the caller's to perform.
//! What is decided here is only what to do next: `broker_step` takes the
//! broker's state and the outcome of what it was last told to do, and returns
//! the next state and the next thing to do.
//!
//! The broker keeps nothing between requests: all that a request needs is
//! inside it.

use crate::channel::ChannelClosed;
use crate::event::{response_to, respond, UiEvent};
use vstd::prelude::*;

verus! {

/// How long the work on a toggle request takes, in seconds.
pub const TOGGLE_DELAY_SECS: u64 = 2;

/// Where the broker stands.
#[derive(Clone, Copy, Debug, PartialEq, Eq, Structural)]
pub enum BrokerState {
    /// No request is in flight; the broker waits for the next one.
    Idle,
    /// `request` is in flight and its work is going on.
    Working { request: UiEvent },
    /// The work is done and `response` is about to be sent.
    Sending { response: UiEvent },
    /// The request channel was closed and empty: the broker has ended.
    Stopped,
    /// The response channel was closed under a send: the broker has ended.
    Failed,
}

/// The outcome of what the broker was last told to do.
#[derive(Clone, Copy, Debug, PartialEq, Eq, Structural)]
pub enum BrokerEvent {
    /// The wait for a request brought one.
    Received(UiEvent),
    /// The wait for a request found the channel closed and empty.
    RequestsClosed,
    /// The delay is over.
    DelayElapsed,
    /// The response was queued.
    Sent,
    /// The response was not queued: nobody is left to read it.
    SendFailed,
}

/// What the broker is to do next.
#[derive(Clone, Copy, Debug, PartialEq, Eq, Structural)]
pub enum BrokerAction {
    /// Wait, suspended, until a request arrives or the request channel closes.
    AwaitRequest,
    /// Wait, suspended, for `seconds` seconds.
    Delay { seconds: u64 },
    /// Send this response.
    Send(UiEvent),
    /// End the task: there will be no more requests.
    Finish,
    /// End the task as failed: responses can no longer be delivered.
    Abort,
}

impl BrokerState {
    /// The broker has ended, cleanly or not.
    pub open spec fn terminated(self) -> bool {
        self is Stopped || self is Failed
    }

    /// A request is in flight: it was taken out and its response has not
    /// been sent yet.
    pub open spec fn busy(self) -> bool {
        self is Working || self is Sending
    }

    /// `Working` holds a message that has a response, `Sending` holds a
    /// response. Every state that `next_state` reaches from `Idle` is so.
    pub open spec fn well_formed(self) -> bool {
        match self {
            BrokerState::Working { request } => response_to(request) is Some,
            BrokerState::Sending { response } => response is ToggleUiStateFinished,
            _ => true,
        }
    }
}

/// The state after `event`.
///
/// A request that has a response puts the broker to work; a message that has
/// none is dropped without effect. An event that the state does not wait for
/// changes nothing, and nothing leaves `Stopped` or `Failed`.
pub open spec fn next_state(state: BrokerState, event: BrokerEvent) -> BrokerState {
    match (state, event) {
        (BrokerState::Idle, BrokerEvent::Received(request)) => {
            if response_to(request) is Some {
                BrokerState::Working { request }
            } else {
                BrokerState::Idle
            }
        },
        (BrokerState::Idle, BrokerEvent::RequestsClosed) => BrokerState::Stopped,
        (BrokerState::Working { request }, BrokerEvent::DelayElapsed) => {
            match response_to(request) {
                Some(response) => BrokerState::Sending { response },
                None => BrokerState::Idle,
            }
        },
        (BrokerState::Sending { .. }, BrokerEvent::Sent) => BrokerState::Idle,
        (BrokerState::Sending { .. }, BrokerEvent::SendFailed) => BrokerState::Failed,
        _ => state,
    }
}

/// What a broker in `state` is to do.
pub open spec fn action_of(state: BrokerState) -> BrokerAction {
    match state {
        BrokerState::Idle => BrokerAction::AwaitRequest,
        BrokerState::Working { .. } => BrokerAction::Delay { seconds: TOGGLE_DELAY_SECS },
        BrokerState::Sending { response } => BrokerAction::Send(response),
        BrokerState::Stopped => BrokerAction::Finish,
        BrokerState::Failed => BrokerAction::Abort,
    }
}

/// The event that the end of a wait for a request stands for: the request
/// that came, or the end of the channel if none will come any more.
pub fn request_event(next: Option<UiEvent>) -> (event: BrokerEvent)
    ensures
        event == match next {
            Some(request) => BrokerEvent::Received(request),
            None => BrokerEvent::RequestsClosed,
        },
{
    match next {
        Some(request) => BrokerEvent::Received(request),
        None => BrokerEvent::RequestsClosed,
    }
}

/// The event that the outcome of sending a response stands for.
pub fn send_event(outcome: Result<(), ChannelClosed>) -> (event: BrokerEvent)
    ensures
        event == match outcome {
            Ok(_) => BrokerEvent::Sent,
            Err(_) => BrokerEvent::SendFailed,
        },
{
    match outcome {
        Ok(_) => BrokerEvent::Sent,
        Err(_) => BrokerEvent::SendFailed,
    }
}

/// The state in which a broker starts: idle, so that its first action is to
/// wait for a request.
pub fn broker_start() -> (state: BrokerState)
    ensures
        state == BrokerState::Idle,
{
    BrokerState::Idle
}

/// Tells what a broker in `state` is to do.
pub fn pending_action(state: BrokerState) -> (action: BrokerAction)
    ensures
        action == action_of(state),
{
    match state {
        BrokerState::Idle => BrokerAction::AwaitRequest,
        BrokerState::Working { .. } => BrokerAction::Delay { seconds: TOGGLE_DELAY_SECS },
        BrokerState::Sending { response } => BrokerAction::Send(response),
        BrokerState::Stopped => BrokerAction::Finish,
        BrokerState::Failed => BrokerAction::Abort,
    }
}

/// Takes the broker one step: from `state` and the outcome of its last action
/// to the next state and the action to perform now.
pub fn broker_step(state: BrokerState, event: BrokerEvent) -> (next: (BrokerState, BrokerAction))
    ensures
        next.0 == next_state(state, event),
        next.1 == action_of(next.0),
{
    let after = match (state, event) {
        (BrokerState::Idle, BrokerEvent::Received(request)) => {
            if respond(request).is_some() {
                BrokerState::Working { request }
            } else {
                BrokerState::Idle
            }
        },
        (BrokerState::Idle, BrokerEvent::RequestsClosed) => BrokerState::Stopped,
        (BrokerState::Working { request }, BrokerEvent::DelayElapsed) => {
            match respond(request) {
                Some(response) => BrokerState::Sending { response },
                None => BrokerState::Idle,
            }
        },
        (BrokerState::Sending { .. }, BrokerEvent::Sent) => BrokerState::Idle,
        (BrokerState::Sending { .. }, BrokerEvent::SendFailed) => BrokerState::Failed,
        _ => state,
    };
    (after, pending_action(after))
}

/// Whether the broker has ended.
pub fn has_terminated(state: BrokerState) -> (ended: bool)
    ensures
        ended == state.terminated(),
{
    match state {
        BrokerState::Stopped | BrokerState::Failed => true,
        _ => false,
    }
}

/// `next_state` keeps a well-formed state well-formed.
pub proof fn lemma_step_keeps_well_formed(state: BrokerState, event: BrokerEvent)
    requires
        state.well_formed(),
    ensures
        next_state(state, event).well_formed(),
{
}

/// A broker that has ended stays as it is, whatever is handed to it.
pub proof fn lemma_terminated_is_final(state: BrokerState, event: BrokerEvent)
    requires
        state.terminated(),
    ensures
        next_state(state, event) == state,
{
}

/// At most one request is in flight: a broker that is serving a request takes
/// no other. A request that is handed to a busy broker leaves it unchanged.
pub proof fn lemma_one_request_in_flight(state: BrokerState, request: UiEvent)
    requires
        state.busy(),
    ensures
        next_state(state, BrokerEvent::Received(request)) == state,
{
}

} // verus!
