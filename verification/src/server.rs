//! Admission control of the echo server: at most `max_connections`
//! connections are served at a time, and every incoming connection is either
//! admitted or refused, with an event that names it.

use vstd::prelude::*;
use crate::connection::{Connection, ConnectionEvent};

verus! {

/// The server's admission state: its limit and the number of connection
/// handlers that are running.
pub struct Server {
    max_connections: usize,
    active: usize,
}

/// The mathematical state of a [`Server`].
pub ghost struct ServerView {
    pub max_connections: nat,
    pub active: nat,
}

impl ServerView {
    /// A state that a server can be in: no more handlers than the limit.
    pub open spec fn wf(self) -> bool {
        self.active <= self.max_connections
    }

    /// Whether an incoming connection is admitted in this state.
    pub open spec fn admits(self) -> bool {
        self.active < self.max_connections
    }

    /// The state after an incoming connection has been handled.
    pub open spec fn on_connection(self) -> ServerView {
        if self.admits() {
            ServerView { active: self.active + 1, ..self }
        } else {
            self
        }
    }

    /// The event that reports how an incoming connection was handled.
    pub open spec fn event_for(self, connection: Connection) -> ConnectionEvent {
        if self.admits() {
            ConnectionEvent::Accept(connection)
        } else {
            ConnectionEvent::Reject(connection)
        }
    }

    /// The state after a running handler has finished.
    pub open spec fn on_finished(self) -> ServerView {
        ServerView { active: (self.active - 1) as nat, ..self }
    }

    /// The state after `count` incoming connections, with no handler finishing.
    pub open spec fn after_connections(self, count: nat) -> ServerView
        decreases count,
    {
        if count == 0 {
            self
        } else {
            self.after_connections((count - 1) as nat).on_connection()
        }
    }
}

/// The state of a server that has just started.
pub open spec fn fresh(max_connections: nat) -> ServerView {
    ServerView { max_connections, active: 0 }
}

impl View for Server {
    type V = ServerView;

    closed spec fn view(&self) -> ServerView {
        ServerView { max_connections: self.max_connections as nat, active: self.active as nat }
    }
}

impl Server {
    #[verifier::type_invariant]
    closed spec fn inv(self) -> bool {
        self.active <= self.max_connections
    }

    /// A server that admits at most `max_connections` connections at a time
    /// and serves none yet.
    pub fn new(max_connections: usize) -> (s: Server)
        ensures
            s@ == fresh(max_connections as nat),
    {
        Server { max_connections, active: 0 }
    }

    /// The limit on connections served at a time.
    pub fn max_connections(&self) -> (n: usize)
        ensures
            n == self@.max_connections,
    {
        self.max_connections
    }

    /// The number of connections being served.
    pub fn active_connections(&self) -> (n: usize)
        ensures
            n == self@.active,
            n <= self@.max_connections,
    {
        proof {
            use_type_invariant(self);
        }
        self.active
    }

    /// Handles an incoming connection: admits it when fewer than the limit are
    /// being served, and refuses it otherwise. The returned event names the
    /// connection and says which; on `Accept` the caller starts a handler for
    /// it and reports its end with [`Server::handler_finished`].
    pub fn handle_connection(&mut self, connection: Connection) -> (event: ConnectionEvent)
        ensures
            event == old(self)@.event_for(connection),
            final(self)@ == old(self)@.on_connection(),
            final(self)@.wf(),
    {
        proof {
            use_type_invariant(&*self);
        }
        if self.active < self.max_connections {
            self.active = self.active + 1;
            ConnectionEvent::Accept(connection)
        } else {
            ConnectionEvent::Reject(connection)
        }
    }

    /// Records that the handler of an admitted connection has finished,
    /// which frees its slot.
    pub fn handler_finished(&mut self)
        requires
            old(self)@.active > 0,
        ensures
            final(self)@ == old(self)@.on_finished(),
            final(self)@.wf(),
    {
        proof {
            use_type_invariant(&*self);
        }
        self.active = self.active - 1;
    }
}

/// Every state that a server reaches respects its limit: handling a
/// connection, and the end of a running handler, keep the number served at
/// or below the limit.
pub proof fn lemma_limit_is_kept(v: ServerView)
    requires
        v.wf(),
    ensures
        v.on_connection().wf(),
        v.active > 0 ==> v.on_finished().wf(),
{
}

/// An incoming connection is reported exactly once, by an event that names
/// it: `Accept` when it is admitted, `Reject` when it is refused; a refused
/// connection leaves the server as it was.
pub proof fn lemma_event_names_connection(v: ServerView, connection: Connection)
    ensures
        v.event_for(connection).spec_connection() == connection,
        v.event_for(connection) is Accept <==> v.admits(),
        v.event_for(connection) is Reject ==> v.on_connection() == v,
{
}

/// When the handler of an admitted connection finishes, the server is back
/// in the state it was in before that connection came.
pub proof fn lemma_finish_undoes_accept(v: ServerView)
    requires
        v.wf(),
        v.admits(),
    ensures
        v.on_connection().active > 0,
        v.on_connection().on_finished() == v,
{
}

/// Of a burst of `count` connections to a fresh server, with no handler
/// finishing meanwhile, the first `max_connections` are admitted and all
/// later ones are refused.
pub proof fn lemma_burst(max_connections: nat, count: nat)
    ensures
        fresh(max_connections).after_connections(count).active == if count <= max_connections {
            count
        } else {
            max_connections
        },
        fresh(max_connections).after_connections(count).admits() <==> count < max_connections,
        fresh(max_connections).after_connections(count).max_connections == max_connections,
    decreases count,
{
    if count > 0 {
        lemma_burst(max_connections, (count - 1) as nat);
    }
}

} // verus!
