use event_broker::broker::{
    broker_start, broker_step, pending_action, request_event, send_event, BrokerAction,
    BrokerEvent, BrokerState,
};
use event_broker::channel::{send, try_receive, ChannelClosed, Polled};
use event_broker::event::UiEvent;
use event_broker::poller::{connect, BrokerEnds};

/// Runs the broker on its real channel ends until it would have to wait for a
/// request or has ended. A delay is taken as elapsed at once. Returns the
/// state it stopped in and the delays it was told to make.
fn pump(ends: &mut BrokerEnds, from: BrokerState) -> (BrokerState, Vec<u64>) {
    let mut state = from;
    let mut delays = Vec::new();
    loop {
        let event = match pending_action(state) {
            BrokerAction::AwaitRequest => match try_receive(&mut ends.requests) {
                Polled::Ready(request) => request_event(Some(request)),
                Polled::Closed => request_event(None),
                Polled::Empty => return (state, delays),
            },
            BrokerAction::Delay { seconds } => {
                delays.push(seconds);
                BrokerEvent::DelayElapsed
            }
            BrokerAction::Send(response) => send_event(send(&ends.responses, response)),
            BrokerAction::Finish | BrokerAction::Abort => return (state, delays),
        };
        state = broker_step(state, event).0;
    }
}

#[test]
fn toggle_true_comes_back_as_false() {
    let (mut foreground, mut ends) = connect(true);
    assert_eq!(foreground.submit(), Ok(()));
    assert!(foreground.show_extra_label());

    let (state, delays) = pump(&mut ends, broker_start());
    assert_eq!(state, BrokerState::Idle);
    assert_eq!(delays, vec![2]);

    assert_eq!(
        foreground.drain_one(),
        Polled::Ready(UiEvent::ToggleUiStateFinished { new_state: false })
    );
    assert!(!foreground.show_extra_label());
    assert_eq!(foreground.drain_one(), Polled::Empty);
    assert!(!foreground.show_extra_label());
}

#[test]
fn nothing_arrives_before_the_delay_is_over() {
    let (mut foreground, mut ends) = connect(true);
    assert_eq!(foreground.submit(), Ok(()));

    let received = try_receive(&mut ends.requests);
    assert_eq!(received, Polled::Ready(UiEvent::ToggleUiState { current_state: true }));
    let (working, action) = broker_step(broker_start(), BrokerEvent::Received(UiEvent::ToggleUiState {
        current_state: true,
    }));
    assert_eq!(action, BrokerAction::Delay { seconds: 2 });
    assert_eq!(foreground.drain_one(), Polled::Empty);
    assert!(foreground.show_extra_label());

    let (state, _) = pump(&mut ends, working);
    assert_eq!(state, BrokerState::Idle);
    assert_eq!(
        foreground.drain_one(),
        Polled::Ready(UiEvent::ToggleUiStateFinished { new_state: false })
    );
}

#[test]
fn two_toggles_are_answered_in_order() {
    let (mut foreground, mut ends) = connect(true);
    assert_eq!(
        foreground.submit_request(UiEvent::ToggleUiState { current_state: true }),
        Ok(())
    );
    assert_eq!(
        foreground.submit_request(UiEvent::ToggleUiState { current_state: false }),
        Ok(())
    );

    let (state, delays) = pump(&mut ends, broker_start());
    assert_eq!(state, BrokerState::Idle);
    assert_eq!(delays, vec![2, 2]);

    assert_eq!(
        foreground.drain_one(),
        Polled::Ready(UiEvent::ToggleUiStateFinished { new_state: false })
    );
    assert!(!foreground.show_extra_label());
    assert_eq!(
        foreground.drain_one(),
        Polled::Ready(UiEvent::ToggleUiStateFinished { new_state: true })
    );
    assert!(foreground.show_extra_label());
    assert_eq!(foreground.drain_one(), Polled::Empty);
}

#[test]
fn submit_after_the_broker_is_gone_is_refused() {
    let (mut foreground, ends) = connect(true);
    assert!(!foreground.is_closed());
    drop(ends);

    assert_eq!(foreground.submit(), Err(ChannelClosed));
    assert!(foreground.is_closed());
    assert_eq!(foreground.submit(), Err(ChannelClosed));
    assert_eq!(
        foreground.submit_request(UiEvent::ToggleUiState { current_state: false }),
        Err(ChannelClosed)
    );
    assert_eq!(foreground.drain_one(), Polled::Closed);
    assert_eq!(foreground.drain_one(), Polled::Closed);
    assert!(foreground.show_extra_label());
}

#[test]
fn requests_reach_the_broker_once_and_in_order() {
    let (mut foreground, mut ends) = connect(false);
    let flags = [true, false, false, true, true, false, true];
    for flag in flags {
        assert_eq!(
            foreground.submit_request(UiEvent::ToggleUiState { current_state: flag }),
            Ok(())
        );
    }
    for flag in flags {
        assert_eq!(
            try_receive(&mut ends.requests),
            Polled::Ready(UiEvent::ToggleUiState { current_state: flag })
        );
    }
    assert_eq!(try_receive(&mut ends.requests), Polled::Empty);
}

#[test]
fn responses_keep_the_order_of_a_batch() {
    let (mut foreground, mut ends) = connect(false);
    let flags = [true, true, false, true, false, false];
    for flag in flags {
        assert_eq!(
            foreground.submit_request(UiEvent::ToggleUiState { current_state: flag }),
            Ok(())
        );
    }
    let (state, delays) = pump(&mut ends, broker_start());
    assert_eq!(state, BrokerState::Idle);
    assert_eq!(delays.len(), flags.len());

    for flag in flags {
        assert_eq!(
            foreground.drain_one(),
            Polled::Ready(UiEvent::ToggleUiStateFinished { new_state: !flag })
        );
        assert_eq!(foreground.show_extra_label(), !flag);
    }
    assert_eq!(foreground.drain_one(), Polled::Empty);
}

#[test]
fn drain_one_takes_one_of_many() {
    let (mut foreground, ends) = connect(true);
    for flag in [false, true, false] {
        assert_eq!(
            send(&ends.responses, UiEvent::ToggleUiStateFinished { new_state: flag }),
            Ok(())
        );
    }
    assert_eq!(
        foreground.drain_one(),
        Polled::Ready(UiEvent::ToggleUiStateFinished { new_state: false })
    );
    assert!(!foreground.show_extra_label());

    drop(ends);
    assert_eq!(
        foreground.drain_one(),
        Polled::Ready(UiEvent::ToggleUiStateFinished { new_state: true })
    );
    assert!(foreground.show_extra_label());
    assert!(!foreground.is_closed());
    assert_eq!(
        foreground.drain_one(),
        Polled::Ready(UiEvent::ToggleUiStateFinished { new_state: false })
    );
    assert!(!foreground.show_extra_label());
    assert_eq!(foreground.drain_one(), Polled::Closed);
    assert!(foreground.is_closed());
}

#[test]
fn hang_up_lets_the_broker_finish_and_stop() {
    let (mut foreground, mut ends) = connect(true);
    assert_eq!(foreground.submit(), Ok(()));
    let (first, action) = broker_step(
        broker_start(),
        request_event(match try_receive(&mut ends.requests) {
            Polled::Ready(request) => Some(request),
            _ => None,
        }),
    );
    assert_eq!(first, BrokerState::Working { request: UiEvent::ToggleUiState { current_state: true } });
    assert_eq!(action, BrokerAction::Delay { seconds: 2 });
    assert_eq!(
        foreground.submit_request(UiEvent::ToggleUiState { current_state: false }),
        Ok(())
    );

    foreground.hang_up();
    assert!(foreground.is_closed());
    assert_eq!(foreground.submit(), Err(ChannelClosed));

    let (state, delays) = pump(&mut ends, first);
    assert_eq!(state, BrokerState::Stopped);
    assert_eq!(pending_action(state), BrokerAction::Finish);
    assert_eq!(delays, vec![2, 2]);
    drop(ends);

    assert_eq!(
        foreground.drain_one(),
        Polled::Ready(UiEvent::ToggleUiStateFinished { new_state: false })
    );
    assert_eq!(
        foreground.drain_one(),
        Polled::Ready(UiEvent::ToggleUiStateFinished { new_state: true })
    );
    assert_eq!(foreground.drain_one(), Polled::Closed);
    assert!(foreground.show_extra_label());
}

#[test]
fn hang_up_with_nothing_queued_stops_an_idle_broker() {
    let (mut foreground, mut ends) = connect(false);
    let (state, delays) = pump(&mut ends, broker_start());
    assert_eq!(state, BrokerState::Idle);
    assert!(delays.is_empty());

    foreground.hang_up();
    let (state, delays) = pump(&mut ends, state);
    assert_eq!(state, BrokerState::Stopped);
    assert!(delays.is_empty());
    assert_eq!(try_receive(&mut ends.requests), Polled::Closed);
}

#[test]
fn broker_fails_when_nobody_reads_responses() {
    let (mut foreground, mut ends) = connect(true);
    assert_eq!(foreground.submit(), Ok(()));
    assert_eq!(foreground.submit(), Ok(()));
    drop(foreground);

    let (state, delays) = pump(&mut ends, broker_start());
    assert_eq!(state, BrokerState::Failed);
    assert_eq!(pending_action(state), BrokerAction::Abort);
    assert_eq!(delays, vec![2]);
}

#[test]
fn broker_ignores_a_message_that_is_no_request() {
    let (mut foreground, mut ends) = connect(true);
    assert_eq!(
        foreground.submit_request(UiEvent::ToggleUiStateFinished { new_state: false }),
        Ok(())
    );
    let (state, delays) = pump(&mut ends, broker_start());
    assert_eq!(state, BrokerState::Idle);
    assert!(delays.is_empty());
    assert_eq!(foreground.drain_one(), Polled::Empty);
    assert!(foreground.show_extra_label());
}

#[test]
fn foreground_ignores_a_message_that_is_no_response() {
    let (mut foreground, ends) = connect(true);
    assert_eq!(send(&ends.responses, UiEvent::ToggleUiState { current_state: true }), Ok(()));
    assert_eq!(
        foreground.drain_one(),
        Polled::Ready(UiEvent::ToggleUiState { current_state: true })
    );
    assert!(foreground.show_extra_label());
}

#[test]
fn submit_carries_the_flag_of_the_moment() {
    let (mut foreground, mut ends) = connect(false);
    assert_eq!(foreground.submit(), Ok(()));
    assert_eq!(foreground.submit(), Ok(()));
    assert_eq!(
        try_receive(&mut ends.requests),
        Polled::Ready(UiEvent::ToggleUiState { current_state: false })
    );
    assert_eq!(
        try_receive(&mut ends.requests),
        Polled::Ready(UiEvent::ToggleUiState { current_state: false })
    );

    assert_eq!(send(&ends.responses, UiEvent::ToggleUiStateFinished { new_state: true }), Ok(()));
    assert_eq!(
        foreground.drain_one(),
        Polled::Ready(UiEvent::ToggleUiStateFinished { new_state: true })
    );
    assert_eq!(foreground.submit(), Ok(()));
    assert_eq!(
        try_receive(&mut ends.requests),
        Polled::Ready(UiEvent::ToggleUiState { current_state: true })
    );
}
