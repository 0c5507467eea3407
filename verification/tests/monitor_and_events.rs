use flor_echo::connection::{Connection, ConnectionEvent, Error};
use flor_echo::monitor::{ConnectionMonitor, Received};

fn event(id: &str) -> ConnectionEvent {
    ConnectionEvent::Accept(Connection { id: id.to_string() })
}

#[test]
fn monitor_reports_events() {
    let monitor = ConnectionMonitor::new();
    assert_eq!(monitor.observe(Received::Event(event("a"))), Some(event("a")));
    let rejected = ConnectionEvent::Reject(Connection { id: "b".to_string() });
    assert_eq!(monitor.observe(Received::Event(rejected.clone())), Some(rejected));
}

#[test]
fn monitor_stops_when_closed() {
    let monitor = ConnectionMonitor::new();
    assert_eq!(monitor.observe(Received::Closed), None);
}

#[test]
fn monitor_stops_when_lagging() {
    let monitor = ConnectionMonitor::new();
    assert_eq!(monitor.observe(Received::Lagged(3)), None);
}

#[test]
fn event_accessors() {
    let accept = event("peer");
    assert!(accept.is_accept());
    assert_eq!(accept.connection(), &Connection { id: "peer".to_string() });
    let reject = ConnectionEvent::Reject(Connection { id: "other".to_string() });
    assert!(!reject.is_accept());
    assert_eq!(reject.connection().id, "other");
}

#[test]
fn error_carries_its_message() {
    let error = Error::from("Failed to subscribe to connection events".to_string());
    assert_eq!(error.message(), "Failed to subscribe to connection events");
}
