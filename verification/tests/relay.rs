use tor_balancer::error::RelayError;
use tor_balancer::relay::{
    next_step, relay_error, Direction, Flow, RelayAction, RelayEvent, RelayFailure, RelaySession,
    RelayState,
};

const UP: Direction = Direction::ClientToBackend;
const DOWN: Direction = Direction::BackendToClient;

#[test]
fn refused_backend_fails_the_session() {
    let mut s = RelaySession::new();
    assert_eq!(s.state(), RelayState::Connecting);
    assert_eq!(s.outcome(), None);
    assert_eq!(
        s.on_event(RelayEvent::ConnectFailed),
        RelayAction::Fail { failure: RelayFailure::BackendConnect }
    );
    assert_eq!(s.outcome(), Some(Err(RelayFailure::BackendConnect)));
    for event in [
        RelayEvent::Connected,
        RelayEvent::SourceEnded { direction: UP },
        RelayEvent::WriteClosed { direction: DOWN },
        RelayEvent::CopyFailed { direction: UP },
    ] {
        assert_eq!(s.on_event(event), RelayAction::Ignore);
        assert_eq!(s.outcome(), Some(Err(RelayFailure::BackendConnect)));
    }
}

#[test]
fn client_end_is_forwarded_as_half_close() {
    let mut s = RelaySession::new();
    assert_eq!(s.on_event(RelayEvent::Connected), RelayAction::StartCopying);
    assert_eq!(
        s.on_event(RelayEvent::SourceEnded { direction: UP }),
        RelayAction::CloseWrite { direction: UP }
    );
    assert_eq!(
        s.state(),
        RelayState::Relaying {
            to_backend: Flow::Closing,
            to_client: Flow::Copying,
            first_failed: None
        }
    );
    assert_eq!(s.on_event(RelayEvent::WriteClosed { direction: UP }), RelayAction::Wait);
    assert_eq!(
        s.state(),
        RelayState::Relaying {
            to_backend: Flow::Closed,
            to_client: Flow::Copying,
            first_failed: None
        }
    );
    assert_eq!(s.outcome(), None);
    assert_eq!(
        s.on_event(RelayEvent::SourceEnded { direction: DOWN }),
        RelayAction::CloseWrite { direction: DOWN }
    );
    assert_eq!(s.on_event(RelayEvent::WriteClosed { direction: DOWN }), RelayAction::Complete);
    assert_eq!(s.state(), RelayState::Completed);
    assert_eq!(s.outcome(), Some(Ok(())));
    assert_eq!(s.on_event(RelayEvent::SourceEnded { direction: UP }), RelayAction::Ignore);
}

#[test]
fn session_completes_in_either_order() {
    let mut s = RelaySession::new();
    s.on_event(RelayEvent::Connected);
    assert_eq!(
        s.on_event(RelayEvent::SourceEnded { direction: DOWN }),
        RelayAction::CloseWrite { direction: DOWN }
    );
    assert_eq!(
        s.on_event(RelayEvent::SourceEnded { direction: UP }),
        RelayAction::CloseWrite { direction: UP }
    );
    assert_eq!(s.on_event(RelayEvent::WriteClosed { direction: UP }), RelayAction::Wait);
    assert_eq!(s.on_event(RelayEvent::WriteClosed { direction: DOWN }), RelayAction::Complete);
    assert_eq!(s.outcome(), Some(Ok(())));
}

#[test]
fn failure_in_one_direction_waits_for_the_other() {
    let mut s = RelaySession::new();
    s.on_event(RelayEvent::Connected);
    assert_eq!(s.on_event(RelayEvent::CopyFailed { direction: DOWN }), RelayAction::Wait);
    assert_eq!(s.outcome(), None);
    assert_eq!(
        s.state(),
        RelayState::Relaying {
            to_backend: Flow::Copying,
            to_client: Flow::Failed,
            first_failed: Some(DOWN)
        }
    );
    assert_eq!(
        s.on_event(RelayEvent::SourceEnded { direction: UP }),
        RelayAction::CloseWrite { direction: UP }
    );
    assert_eq!(s.outcome(), None);
    assert_eq!(
        s.on_event(RelayEvent::WriteClosed { direction: UP }),
        RelayAction::Fail { failure: RelayFailure::RelayIo { first: DOWN } }
    );
    assert_eq!(s.outcome(), Some(Err(RelayFailure::RelayIo { first: DOWN })));
    assert_eq!(s.on_event(RelayEvent::WriteClosed { direction: UP }), RelayAction::Ignore);
}

#[test]
fn first_failure_is_reported_when_both_directions_fail() {
    let mut s = RelaySession::new();
    s.on_event(RelayEvent::Connected);
    assert_eq!(s.on_event(RelayEvent::CopyFailed { direction: UP }), RelayAction::Wait);
    assert_eq!(s.on_event(RelayEvent::SourceEnded { direction: UP }), RelayAction::Ignore);
    assert_eq!(s.outcome(), None);
    assert_eq!(
        s.on_event(RelayEvent::CopyFailed { direction: DOWN }),
        RelayAction::Fail { failure: RelayFailure::RelayIo { first: UP } }
    );
    assert_eq!(s.state(), RelayState::Failed { failure: RelayFailure::RelayIo { first: UP } });
}

#[test]
fn close_failure_waits_for_the_other_direction() {
    let mut s = RelaySession::new();
    s.on_event(RelayEvent::Connected);
    s.on_event(RelayEvent::SourceEnded { direction: UP });
    assert_eq!(s.on_event(RelayEvent::CloseFailed { direction: UP }), RelayAction::Wait);
    assert_eq!(s.outcome(), None);
    assert_eq!(
        s.on_event(RelayEvent::SourceEnded { direction: DOWN }),
        RelayAction::CloseWrite { direction: DOWN }
    );
    assert_eq!(
        s.on_event(RelayEvent::CloseFailed { direction: DOWN }),
        RelayAction::Fail { failure: RelayFailure::RelayIo { first: UP } }
    );
    assert_eq!(s.outcome(), Some(Err(RelayFailure::RelayIo { first: UP })));
}

#[test]
fn failure_after_the_other_direction_has_closed_ends_the_session() {
    let mut s = RelaySession::new();
    s.on_event(RelayEvent::Connected);
    s.on_event(RelayEvent::SourceEnded { direction: UP });
    assert_eq!(s.on_event(RelayEvent::WriteClosed { direction: UP }), RelayAction::Wait);
    assert_eq!(
        s.on_event(RelayEvent::CopyFailed { direction: DOWN }),
        RelayAction::Fail { failure: RelayFailure::RelayIo { first: DOWN } }
    );
    assert_eq!(s.outcome(), Some(Err(RelayFailure::RelayIo { first: DOWN })));
}

#[test]
fn events_out_of_place_change_nothing() {
    let connecting = RelayState::Connecting;
    assert_eq!(
        next_step(connecting, RelayEvent::SourceEnded { direction: UP }),
        (connecting, RelayAction::Ignore)
    );
    let relaying = RelayState::Relaying {
        to_backend: Flow::Copying,
        to_client: Flow::Closed,
        first_failed: None,
    };
    assert_eq!(next_step(relaying, RelayEvent::Connected), (relaying, RelayAction::Ignore));
    assert_eq!(next_step(relaying, RelayEvent::ConnectFailed), (relaying, RelayAction::Ignore));
    assert_eq!(
        next_step(relaying, RelayEvent::WriteClosed { direction: UP }),
        (relaying, RelayAction::Ignore)
    );
    assert_eq!(
        next_step(relaying, RelayEvent::SourceEnded { direction: DOWN }),
        (relaying, RelayAction::Ignore)
    );
    assert_eq!(
        next_step(relaying, RelayEvent::CloseFailed { direction: UP }),
        (relaying, RelayAction::Ignore)
    );
    assert_eq!(
        next_step(relaying, RelayEvent::CopyFailed { direction: DOWN }),
        (relaying, RelayAction::Ignore)
    );
}

#[test]
fn relay_error_carries_the_details() {
    let e = relay_error(RelayFailure::BackendConnect, "127.0.0.1:9000", "connection refused");
    assert_eq!(
        e,
        RelayError::BackendConnect {
            address: "127.0.0.1:9000".to_string(),
            error: "connection refused".to_string()
        }
    );
    assert_eq!(e.message(), "can't connect to backend '127.0.0.1:9000': 'connection refused'");
    let e = relay_error(RelayFailure::RelayIo { first: UP }, "127.0.0.1:9000", "reset");
    assert_eq!(e, RelayError::RelayIo { error: "reset".to_string() });
    assert_eq!(e.message(), "relay failed: 'reset'");
}
