//! The connection monitor: it follows the server's connection events for as
//! long as its subscription delivers them without a gap.

use vstd::prelude::*;
use crate::connection::ConnectionEvent;

verus! {

/// What one wait on the monitor's subscription gave.
#[derive(Debug, Clone, PartialEq, Eq)]
pub enum Received {
    /// The next event.
    Event(ConnectionEvent),
    /// The monitor fell behind and this many events were lost.
    Lagged(u64),
    /// The server has gone and no more events will come.
    Closed,
}

/// The component that reports every connection event of the server.
pub struct ConnectionMonitor;

impl ConnectionMonitor {
    /// A monitor.
    pub fn new() -> (m: ConnectionMonitor) {
        ConnectionMonitor
    }

    /// Decides what the monitor does with what its subscription gave: an
    /// event is returned to be reported, and the monitor keeps listening;
    /// the end of the subscription, or a gap because the monitor fell behind,
    /// ends the monitoring (`None`).
    pub fn observe(&self, received: Received) -> (report: Option<ConnectionEvent>)
        ensures
            report == match received {
                Received::Event(event) => Some(event),
                _ => None,
            },
    {
        match received {
            Received::Event(event) => Some(event),
            Received::Lagged(_) => None,
            Received::Closed => None,
        }
    }
}

} // verus!
