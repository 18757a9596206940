use gifdex::connection::{
    ConnectionAction, ConnectionEvent, ConnectionState, Dispatcher, EventDisposition,
    CONNECT_RETRY_SECS, MAX_IN_FLIGHT, RECONNECT_SECS,
};
use gifdex::status::{
    DatabaseStatus, HandleHealthResponse, HealthStatus, IdentityEventStatus, RepoState,
};

#[test]
fn connection_cycles_through_failures() {
    let s = ConnectionState::Disconnected;
    let (s, a) = s.step(ConnectionEvent::RetryDue);
    assert_eq!((s, a), (ConnectionState::Connecting, ConnectionAction::Connect));
    let (s, a) = s.step(ConnectionEvent::ConnectFailed);
    assert_eq!((s, a), (ConnectionState::Disconnected, ConnectionAction::Wait(CONNECT_RETRY_SECS)));
    let (s, _) = s.step(ConnectionEvent::RetryDue);
    let (s, a) = s.step(ConnectionEvent::Connected);
    assert_eq!((s, a), (ConnectionState::Streaming, ConnectionAction::Consume));
    for d in [
        EventDisposition::Committed,
        EventDisposition::Rejected,
        EventDisposition::UnknownCollection,
        EventDisposition::Failed,
    ] {
        assert_eq!(
            s.step(ConnectionEvent::EventHandled(d)),
            (ConnectionState::Streaming, ConnectionAction::Consume)
        );
    }
    let (s, a) = s.step(ConnectionEvent::StreamFailed);
    assert_eq!((s, a), (ConnectionState::Disconnected, ConnectionAction::Wait(RECONNECT_SECS)));
    assert_eq!(s.step(ConnectionEvent::Connected), (ConnectionState::Disconnected, ConnectionAction::Ignore));
}

#[test]
fn dispatcher_never_exceeds_its_bound() {
    let mut d = Dispatcher::new(MAX_IN_FLIGHT);
    for _ in 0..MAX_IN_FLIGHT {
        assert!(d.try_acquire());
    }
    assert!(!d.try_acquire());
    assert_eq!(d.running_now(), MAX_IN_FLIGHT);
    d.release();
    assert!(d.try_acquire());
    assert_eq!(d.running_now(), 50);
}

#[test]
fn state_names() {
    assert_eq!(RepoState::Pending.as_str(), "pending");
    assert_eq!(RepoState::Desynchronized.as_str(), "desynchronized");
    assert_eq!(RepoState::Error.as_str(), "error");
    assert_eq!(IdentityEventStatus::Takendown.as_str(), "takendown");
    assert_eq!(IdentityEventStatus::Deleted.as_str(), "deleted");
    assert!(IdentityEventStatus::Deleted.purges_account());
    assert!(IdentityEventStatus::Takendown.purges_account());
    assert!(!IdentityEventStatus::Suspended.purges_account());
}

#[test]
fn health_follows_the_store() {
    let ok = HandleHealthResponse::from_database(DatabaseStatus::Healthy);
    assert_eq!(ok.status, HealthStatus::Healthy);
    assert_eq!(ok.status_code(), 200);
    let bad = HandleHealthResponse::from_database(DatabaseStatus::Unhealthy);
    assert_eq!(bad.status, HealthStatus::Unhealthy);
    assert_eq!(bad.status_code(), 503);
}
