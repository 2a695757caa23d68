//! The messages that cross the two channels.

use vstd::prelude::*;

verus! {

/// A message between the foreground and the broker.
///
/// `ToggleUiState` is a request: it carries the flag as the foreground saw it
/// when it submitted, so the broker needs no state of its own.
/// `ToggleUiStateFinished` is the response: it carries the flag's new value.
#[derive(Clone, Copy, Debug, PartialEq, Eq, Structural)]
pub enum UiEvent {
    ToggleUiState { current_state: bool },
    ToggleUiStateFinished { new_state: bool },
}

/// The response owed for `request`: the inverted flag for a toggle request,
/// none for anything else.
pub open spec fn response_to(request: UiEvent) -> Option<UiEvent> {
    match request {
        UiEvent::ToggleUiState { current_state } => Some(
            UiEvent::ToggleUiStateFinished { new_state: !current_state },
        ),
        UiEvent::ToggleUiStateFinished { .. } => None,
    }
}

/// The responses owed for `requests`, in request order. A message that is no
/// request contributes nothing.
pub open spec fn responses_to(requests: Seq<UiEvent>) -> Seq<UiEvent>
    decreases requests.len(),
{
    if requests.len() == 0 {
        Seq::empty()
    } else {
        let earlier = responses_to(requests.drop_last());
        match response_to(requests.last()) {
            Some(response) => earlier.push(response),
            None => earlier,
        }
    }
}

/// Computes the response owed for `request`.
pub fn respond(request: UiEvent) -> (response: Option<UiEvent>)
    ensures
        response == response_to(request),
{
    match request {
        UiEvent::ToggleUiState { current_state } => Some(
            UiEvent::ToggleUiStateFinished { new_state: !current_state },
        ),
        UiEvent::ToggleUiStateFinished { .. } => None,
    }
}

} // verus!
