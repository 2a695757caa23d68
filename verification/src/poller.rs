//! The foreground's side: submit and drain-one.
//!
//! The foreground runs a loop that must never wait. Once per turn it may
//! submit a request, and once per turn it looks for a finished response and
//! applies at most one. Its flag changes nowhere else.

use crate::channel::{
    connected, has_ended, new_channel, receiver_ended, release_sender, send, sender_released,
    try_receive, ChannelClosed, Polled,
};
use crate::event::UiEvent;
use futures::channel::mpsc::{UnboundedReceiver, UnboundedSender};
use vstd::prelude::*;

verus! {

/// The foreground's state as plain values.
pub struct ForegroundView {
    /// The flag that responses set.
    pub show_extra_label: bool,
    /// A submit was refused, or the foreground hung up: nothing more is sent.
    pub cut_off: bool,
    /// The foreground has given up its request sender: the request channel
    /// closes, and no request can be queued any more.
    pub hung_up: bool,
    /// The response channel has ended: nothing more will come.
    pub drained: bool,
}

/// The foreground's two channel ends and its flag.
pub struct Foreground {
    requests: UnboundedSender<UiEvent>,
    responses: UnboundedReceiver<UiEvent>,
    show_extra_label: bool,
    cut_off: bool,
}

/// The two channel ends that belong to the broker task.
pub struct BrokerEnds {
    pub requests: UnboundedReceiver<UiEvent>,
    pub responses: UnboundedSender<UiEvent>,
}

impl View for Foreground {
    type V = ForegroundView;

    closed spec fn view(&self) -> ForegroundView {
        ForegroundView {
            show_extra_label: self.show_extra_label,
            cut_off: self.cut_off,
            hung_up: sender_released(self.requests),
            drained: receiver_ended(self.responses),
        }
    }
}

impl Foreground {
    /// The foreground's end of the request channel.
    pub closed spec fn request_end(&self) -> UnboundedSender<UiEvent> {
        self.requests
    }

    /// The foreground's end of the response channel.
    pub closed spec fn response_end(&self) -> UnboundedReceiver<UiEvent> {
        self.responses
    }

    /// What the view says of the two channels is what the two ends say of
    /// themselves.
    pub proof fn lemma_view_reads_ends(&self)
        ensures
            self@.hung_up == sender_released(self.request_end()),
            self@.drained == receiver_ended(self.response_end()),
    {
    }
}

impl ForegroundView {
    /// The background side is known to be out of reach, one way or the other.
    pub open spec fn closed(self) -> bool {
        self.cut_off || self.drained
    }
}

/// The request that a foreground whose flag is `show_extra_label` submits: it
/// carries the flag as it is now.
pub open spec fn request_for(show_extra_label: bool) -> UiEvent {
    UiEvent::ToggleUiState { current_state: show_extra_label }
}

/// The flag after `message` has been applied to it. A finished toggle sets
/// the flag; any other message leaves it.
pub open spec fn applied(show_extra_label: bool, message: UiEvent) -> bool {
    match message {
        UiEvent::ToggleUiStateFinished { new_state } => new_state,
        UiEvent::ToggleUiState { .. } => show_extra_label,
    }
}

/// The foreground after a submit that had this outcome. A refusal is
/// remembered; the flag and the response channel are not touched.
pub open spec fn after_submit(before: ForegroundView, outcome: Result<(), ChannelClosed>)
    -> ForegroundView {
    ForegroundView { cut_off: before.cut_off || outcome is Err, ..before }
}

/// The foreground after it has given up its request sender.
pub open spec fn after_hang_up(before: ForegroundView) -> ForegroundView {
    ForegroundView { cut_off: true, hung_up: true, ..before }
}

/// The foreground after one look into the response channel found `polled`.
pub open spec fn after_poll(before: ForegroundView, polled: Polled) -> ForegroundView {
    match polled {
        Polled::Ready(message) => ForegroundView {
            show_extra_label: applied(before.show_extra_label, message),
            ..before
        },
        Polled::Empty => before,
        Polled::Closed => ForegroundView { drained: true, ..before },
    }
}

/// Builds the request that carries the flag's present value.
pub fn make_request(show_extra_label: bool) -> (request: UiEvent)
    ensures
        request == request_for(show_extra_label),
{
    UiEvent::ToggleUiState { current_state: show_extra_label }
}

/// Applies one message to the flag and returns the flag's new value.
pub fn apply_response(show_extra_label: bool, message: UiEvent) -> (flag: bool)
    ensures
        flag == applied(show_extra_label, message),
{
    match message {
        UiEvent::ToggleUiStateFinished { new_state } => new_state,
        UiEvent::ToggleUiState { .. } => show_extra_label,
    }
}

/// Makes the two channels and hands each side its ends. The foreground starts
/// with the given flag and with both channels in reach. Its request sender
/// and the broker's request receiver hold one channel, the broker's response
/// sender and its response receiver the other, and all four ends hold on.
pub fn connect(show_extra_label: bool) -> (sides: (Foreground, BrokerEnds))
    ensures
        sides.0@ == (ForegroundView {
            show_extra_label,
            cut_off: false,
            hung_up: false,
            drained: false,
        }),
        connected(sides.0.request_end(), sides.1.requests),
        connected(sides.1.responses, sides.0.response_end()),
        !receiver_ended(sides.1.requests),
        !sender_released(sides.1.responses),
{
    let (request_sender, request_receiver) = new_channel();
    let (response_sender, response_receiver) = new_channel();
    (
        Foreground {
            requests: request_sender,
            responses: response_receiver,
            show_extra_label,
            cut_off: false,
        },
        BrokerEnds { requests: request_receiver, responses: response_sender },
    )
}

impl Foreground {
    /// The flag.
    pub fn show_extra_label(&self) -> (flag: bool)
        ensures
            flag == self@.show_extra_label,
    {
        self.show_extra_label
    }

    /// Whether the background side is known to be out of reach. Once true,
    /// `submit` sends nothing more.
    pub fn is_closed(&self) -> (closed: bool)
        ensures
            closed == self@.closed(),
    {
        self.cut_off || has_ended(&self.responses)
    }

    /// Submits `request`. Never waits.
    ///
    /// `Err(ChannelClosed)` means that the request was not queued: the
    /// background side is gone. That is no failure of the foreground, which
    /// goes on; it only sends nothing from then on. Once the background side
    /// is known to be out of reach, nothing is sent at all.
    pub fn submit_request(&mut self, request: UiEvent) -> (outcome: Result<(), ChannelClosed>)
        ensures
            old(self)@.closed() || old(self)@.hung_up ==> outcome is Err,
            final(self)@ == after_submit(old(self)@, outcome),
            final(self).request_end() == old(self).request_end(),
            final(self).response_end() == old(self).response_end(),
    {
        if self.is_closed() {
            self.cut_off = true;
            return Err(ChannelClosed);
        }
        let outcome = send(&self.requests, request);
        if outcome.is_err() {
            self.cut_off = true;
        }
        outcome
    }

    /// Submits a toggle request that carries the flag's present value, as
    /// `submit_request` does for any request. The flag itself changes only
    /// when the response is drained.
    pub fn submit(&mut self) -> (outcome: Result<(), ChannelClosed>)
        ensures
            old(self)@.closed() || old(self)@.hung_up ==> outcome is Err,
            final(self)@ == after_submit(old(self)@, outcome),
            final(self).request_end() == old(self).request_end(),
            final(self).response_end() == old(self).response_end(),
    {
        let request = make_request(self.show_extra_label);
        self.submit_request(request)
    }

    /// Looks for a finished response, once and without waiting, and applies
    /// it to the flag if there is one. However many responses are queued, at
    /// most the oldest is taken. Returns what the look found.
    pub fn drain_one(&mut self) -> (polled: Polled)
        ensures
            final(self)@ == after_poll(old(self)@, polled),
            old(self)@.drained ==> polled is Closed,
            final(self).request_end() == old(self).request_end(),
    {
        let polled = try_receive(&mut self.responses);
        match polled {
            Polled::Ready(message) => {
                self.show_extra_label = apply_response(self.show_extra_label, message);
            },
            _ => {},
        }
        polled
    }

    /// Gives up the request sender: the sender lets go of its channel. The
    /// broker then finds its request channel closed once it has taken out
    /// what is queued. Responses can still be drained.
    pub fn hang_up(&mut self)
        ensures
            final(self)@ == after_hang_up(old(self)@),
            sender_released(final(self).request_end()),
            final(self).response_end() == old(self).response_end(),
    {
        release_sender(&mut self.requests);
        self.cut_off = true;
    }
}

} // verus!
