use helium_multi_gateway::router::{start, step, RouterAction, RouterEvent, RouterState, STORE_GC_SECS};

const POP: RouterAction = RouterAction::Pop { max_age_secs: 60 };

/// Runs the task over events and collects the actions.
fn run(events: &[RouterEvent]) -> (RouterState, Vec<RouterAction>) {
    let (mut state, action) = start();
    let mut actions = vec![action];
    for event in events {
        let (next, action) = step(state, *event).expect("event fits");
        state = next;
        actions.push(action);
    }
    (state, actions)
}

#[test]
fn store_interval_is_a_minute() {
    assert_eq!(STORE_GC_SECS, 60);
}

#[test]
fn task_starts_waiting() {
    assert_eq!(start(), (RouterState::Waiting, RouterAction::Wait));
}

#[test]
fn stored_packets_are_sent_until_none_is_left() {
    let (state, actions) = run(&[
        RouterEvent::Uplink,
        RouterEvent::Stored { connected: true, backoff_elapsed: false },
        RouterEvent::Popped { hold_millis: Some(250) },
        RouterEvent::Sent { ok: true },
        RouterEvent::Popped { hold_millis: Some(3) },
        RouterEvent::Sent { ok: true },
        RouterEvent::Popped { hold_millis: None },
    ]);
    assert_eq!(state, RouterState::Waiting);
    assert_eq!(
        actions,
        vec![
            RouterAction::Wait,
            RouterAction::Store,
            POP,
            RouterAction::Send { hold_time: 250 },
            POP,
            RouterAction::Send { hold_time: 3 },
            POP,
            RouterAction::Wait,
        ]
    );
}

#[test]
fn failed_packet_goes_back_and_the_router_backs_off() {
    let (state, actions) = run(&[
        RouterEvent::Uplink,
        RouterEvent::Stored { connected: true, backoff_elapsed: true },
        RouterEvent::Popped { hold_millis: Some(1) },
        RouterEvent::Sent { ok: false },
        RouterEvent::Done,
        RouterEvent::Done,
        RouterEvent::Done,
    ]);
    assert_eq!(state, RouterState::Waiting);
    assert_eq!(
        actions[4..],
        [
            RouterAction::PutBack,
            RouterAction::Disconnect,
            RouterAction::UpdateBackoff { failed: true },
            RouterAction::Wait,
        ]
    );
}

#[test]
fn hold_time_keeps_its_low_bits() {
    assert_eq!(
        step(RouterState::Popping, RouterEvent::Popped { hold_millis: Some((1u128 << 64) + 9) }),
        Some((RouterState::Sending, RouterAction::Send { hold_time: 9 }))
    );
}

#[test]
fn disconnected_task_reconnects_on_an_uplink_after_the_backoff() {
    let stored = |connected, backoff_elapsed| {
        step(RouterState::Storing, RouterEvent::Stored { connected, backoff_elapsed }).unwrap().1
    };
    assert_eq!(stored(false, true), RouterAction::Reconnect);
    assert_eq!(stored(false, false), RouterAction::Wait);
    assert_eq!(stored(true, true), POP);
    assert_eq!(stored(true, false), POP);
}

#[test]
fn reconnect_updates_the_backoff() {
    let (_, actions) = run(&[
        RouterEvent::ReconnectDue,
        RouterEvent::Reconnected { ok: true },
        RouterEvent::Done,
        RouterEvent::ReconnectDue,
        RouterEvent::Reconnected { ok: false },
        RouterEvent::Done,
    ]);
    assert_eq!(
        actions,
        vec![
            RouterAction::Wait,
            RouterAction::Reconnect,
            RouterAction::UpdateBackoff { failed: false },
            RouterAction::Wait,
            RouterAction::Reconnect,
            RouterAction::UpdateBackoff { failed: true },
            RouterAction::Wait,
        ]
    );
}

#[test]
fn session_is_established_and_packets_follow() {
    let (state, actions) = run(&[
        RouterEvent::SessionOffer,
        RouterEvent::SessionStarted { ok: true },
        RouterEvent::Done,
    ]);
    assert_eq!(state, RouterState::Popping);
    assert_eq!(
        actions[1..],
        [RouterAction::InitSession, RouterAction::ResetRetries, POP]
    );
}

#[test]
fn failed_session_disconnects() {
    let (state, actions) = run(&[
        RouterEvent::SessionOffer,
        RouterEvent::SessionStarted { ok: false },
        RouterEvent::Done,
        RouterEvent::Done,
    ]);
    assert_eq!(state, RouterState::Waiting);
    assert_eq!(
        actions[2..],
        [
            RouterAction::Disconnect,
            RouterAction::UpdateBackoff { failed: true },
            RouterAction::Wait,
        ]
    );
}

#[test]
fn router_error_backs_off_without_disconnecting() {
    let (_, actions) = run(&[RouterEvent::RouterError, RouterEvent::Done]);
    assert_eq!(actions[1..], [RouterAction::UpdateBackoff { failed: true }, RouterAction::Wait]);
}

#[test]
fn downlinks_are_delivered() {
    let (state, actions) = run(&[RouterEvent::Downlink, RouterEvent::Delivered { ok: true }]);
    assert_eq!(state, RouterState::Waiting);
    assert_eq!(actions[1..], [RouterAction::Deliver, RouterAction::Wait]);
}

#[test]
fn acknowledgements_are_ignored() {
    let (state, actions) = run(&[RouterEvent::PacketAck]);
    assert_eq!(state, RouterState::Waiting);
    assert_eq!(actions[1..], [RouterAction::Wait]);
}

#[test]
fn task_stops_when_told() {
    for events in [
        vec![RouterEvent::Shutdown],
        vec![RouterEvent::UplinkClosed],
        vec![RouterEvent::Downlink, RouterEvent::Delivered { ok: false }],
    ] {
        let (state, actions) = run(&events);
        assert_eq!(state, RouterState::Stopped);
        assert_eq!(actions.last(), Some(&RouterAction::Stop));
        assert_eq!(step(state, RouterEvent::Uplink), None);
        assert_eq!(step(state, RouterEvent::Done), None);
    }
}

#[test]
fn events_that_do_not_fit_are_refused() {
    assert_eq!(step(RouterState::Waiting, RouterEvent::Done), None);
    assert_eq!(step(RouterState::Storing, RouterEvent::Shutdown), None);
    assert_eq!(step(RouterState::Popping, RouterEvent::Sent { ok: true }), None);
    assert_eq!(step(RouterState::Sending, RouterEvent::Popped { hold_millis: None }), None);
    assert_eq!(step(RouterState::Reconnecting, RouterEvent::Done), None);
    assert_eq!(step(RouterState::Delivering, RouterEvent::Done), None);
    assert_eq!(step(RouterState::Initializing, RouterEvent::Done), None);
    assert_eq!(step(RouterState::PuttingBack, RouterEvent::Uplink), None);
    assert_eq!(step(RouterState::Disconnecting, RouterEvent::Uplink), None);
    assert_eq!(step(RouterState::BackingOff, RouterEvent::Uplink), None);
    assert_eq!(step(RouterState::Resetting, RouterEvent::Uplink), None);
}
