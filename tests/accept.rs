use preview_proxy::accept::{AcceptLoop, ConnAction, ConnEvent, LoopPhase};

fn listening() -> AcceptLoop {
    let mut l = AcceptLoop::new();
    assert_eq!(l.on_event(ConnEvent::Bound), ConnAction::StartAccepting);
    l
}

#[test]
fn new_loop_is_starting() {
    let l = AcceptLoop::new();
    assert_eq!(l.phase, LoopPhase::Starting);
    assert!(!l.is_listening());
}

#[test]
fn bind_failure_aborts() {
    let mut l = AcceptLoop::new();
    assert_eq!(l.on_event(ConnEvent::BindFailed), ConnAction::Abort);
    assert_eq!(l.phase, LoopPhase::Stopped);
    assert_eq!(l.on_event(ConnEvent::HandshakeSucceeded), ConnAction::Ignore);
    assert!(!l.is_listening());
}

#[test]
fn failed_handshake_then_next_client_is_served() {
    let mut l = listening();
    assert_eq!(l.on_event(ConnEvent::HandshakeFailed), ConnAction::DropWithHint);
    assert!(l.is_listening());
    assert_eq!(l.on_event(ConnEvent::HandshakeSucceeded), ConnAction::Serve);
    assert!(l.is_listening());
}

#[test]
fn accept_error_keeps_loop_alive() {
    let mut l = listening();
    assert_eq!(l.on_event(ConnEvent::AcceptFailed), ConnAction::LogAcceptError);
    assert_eq!(l.phase, LoopPhase::Listening);
    assert_eq!(l.on_event(ConnEvent::HandshakeSucceeded), ConnAction::Serve);
}

#[test]
fn many_failures_never_stop_loop() {
    let mut l = listening();
    let mut served = 0;
    let events = [
        ConnEvent::HandshakeFailed,
        ConnEvent::AcceptFailed,
        ConnEvent::HandshakeSucceeded,
        ConnEvent::HandshakeFailed,
        ConnEvent::HandshakeFailed,
        ConnEvent::HandshakeSucceeded,
    ];
    for e in events {
        if l.on_event(e) == ConnAction::Serve {
            served += 1;
        }
        assert!(l.is_listening());
    }
    assert_eq!(served, 2);
}

#[test]
fn connection_events_before_bind_are_ignored() {
    let mut l = AcceptLoop::new();
    assert_eq!(l.on_event(ConnEvent::HandshakeSucceeded), ConnAction::Ignore);
    assert_eq!(l.phase, LoopPhase::Starting);
}

#[test]
fn second_bind_event_is_ignored() {
    let mut l = listening();
    assert_eq!(l.on_event(ConnEvent::BindFailed), ConnAction::Ignore);
    assert!(l.is_listening());
}
