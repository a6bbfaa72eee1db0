use cxl_fm::acceptor::Acceptor;
use cxl_fm::acceptor::AcceptorAction;
use cxl_fm::acceptor::AcceptorEvent;
use cxl_fm::acceptor::AcceptorState;

const EVENTS: [AcceptorEvent; 5] = [
    AcceptorEvent::Bound,
    AcceptorEvent::BindFailed,
    AcceptorEvent::Accepted,
    AcceptorEvent::AcceptFailed,
    AcceptorEvent::SessionEnded,
];

#[test]
fn fresh_acceptor_is_unbound() {
    assert_eq!(Acceptor::new().state(), AcceptorState::Unbound);
}

#[test]
fn bound_acceptor_accepts() {
    let mut acceptor = Acceptor::new();
    assert_eq!(acceptor.step(AcceptorEvent::Bound), AcceptorAction::Accept);
    assert_eq!(acceptor.state(), AcceptorState::Listening);
}

#[test]
fn failed_bind_stops_the_acceptor() {
    let mut acceptor = Acceptor::new();
    assert_eq!(acceptor.step(AcceptorEvent::BindFailed), AcceptorAction::Stop);
    assert_eq!(acceptor.state(), AcceptorState::Stopped);
    for event in EVENTS {
        assert_eq!(acceptor.step(event), AcceptorAction::Stop);
        assert_eq!(acceptor.state(), AcceptorState::Stopped);
    }
}

#[test]
fn connections_are_served_one_after_the_other() {
    let mut acceptor = Acceptor::new();
    acceptor.step(AcceptorEvent::Bound);
    for _ in 0..3 {
        assert_eq!(acceptor.step(AcceptorEvent::Accepted), AcceptorAction::Serve);
        assert_eq!(acceptor.state(), AcceptorState::Serving);
        assert_eq!(acceptor.step(AcceptorEvent::SessionEnded), AcceptorAction::Accept);
        assert_eq!(acceptor.state(), AcceptorState::Listening);
    }
}

#[test]
fn failed_accept_keeps_the_acceptor_listening() {
    let mut acceptor = Acceptor::new();
    acceptor.step(AcceptorEvent::Bound);
    assert_eq!(acceptor.step(AcceptorEvent::AcceptFailed), AcceptorAction::Accept);
    assert_eq!(acceptor.state(), AcceptorState::Listening);
    assert_eq!(acceptor.step(AcceptorEvent::Accepted), AcceptorAction::Serve);
}

#[test]
fn bound_acceptor_never_stops() {
    for first in EVENTS {
        for second in EVENTS {
            for third in EVENTS {
                let mut acceptor = Acceptor::new();
                acceptor.step(AcceptorEvent::Bound);
                for event in [first, second, third] {
                    let action = acceptor.step(event);
                    assert_ne!(action, AcceptorAction::Stop);
                    assert_ne!(acceptor.state(), AcceptorState::Stopped);
                    assert_ne!(acceptor.state(), AcceptorState::Unbound);
                }
            }
        }
    }
}

#[test]
fn no_session_starts_while_another_is_served() {
    for event in EVENTS {
        let mut acceptor = Acceptor::new();
        acceptor.step(AcceptorEvent::Bound);
        assert_eq!(acceptor.step(AcceptorEvent::Accepted), AcceptorAction::Serve);
        assert_eq!(acceptor.step(event), AcceptorAction::Accept);
        assert_eq!(acceptor.state(), AcceptorState::Listening);
    }
}

#[test]
fn event_out_of_turn_before_the_bind_stops_the_acceptor() {
    for event in [AcceptorEvent::Accepted, AcceptorEvent::AcceptFailed, AcceptorEvent::SessionEnded] {
        let mut acceptor = Acceptor::new();
        assert_eq!(acceptor.step(event), AcceptorAction::Stop);
        assert_eq!(acceptor.state(), AcceptorState::Stopped);
    }
}
