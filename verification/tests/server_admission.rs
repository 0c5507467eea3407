use flor_echo::connection::{Connection, ConnectionEvent};
use flor_echo::server::Server;

fn conn(id: &str) -> Connection {
    Connection { id: id.to_string() }
}

#[test]
fn fresh_server_serves_nobody() {
    let server = Server::new(3);
    assert_eq!(server.max_connections(), 3);
    assert_eq!(server.active_connections(), 0);
}

#[test]
fn admits_up_to_the_limit_then_refuses() {
    let mut server = Server::new(2);
    assert_eq!(server.handle_connection(conn("a")), ConnectionEvent::Accept(conn("a")));
    assert_eq!(server.handle_connection(conn("b")), ConnectionEvent::Accept(conn("b")));
    assert_eq!(server.handle_connection(conn("c")), ConnectionEvent::Reject(conn("c")));
    assert_eq!(server.handle_connection(conn("d")), ConnectionEvent::Reject(conn("d")));
    assert_eq!(server.active_connections(), 2);
}

#[test]
fn finished_handler_frees_a_slot() {
    let mut server = Server::new(1);
    assert!(server.handle_connection(conn("a")).is_accept());
    assert!(!server.handle_connection(conn("b")).is_accept());
    server.handler_finished();
    assert_eq!(server.active_connections(), 0);
    assert_eq!(server.handle_connection(conn("c")), ConnectionEvent::Accept(conn("c")));
}

#[test]
fn accept_then_finish_restores_the_state() {
    let mut server = Server::new(4);
    server.handle_connection(conn("x"));
    let before = server.active_connections();
    assert!(server.handle_connection(conn("y")).is_accept());
    server.handler_finished();
    assert_eq!(server.active_connections(), before);
}

#[test]
fn zero_limit_refuses_everything() {
    let mut server = Server::new(0);
    for i in 0..5 {
        let id = format!("peer{i}");
        assert_eq!(server.handle_connection(conn(&id)), ConnectionEvent::Reject(conn(&id)));
    }
    assert_eq!(server.active_connections(), 0);
}

#[test]
fn burst_of_connections_admits_the_first_max() {
    let mut server = Server::new(3);
    let accepted: Vec<bool> = (0..7)
        .map(|i| server.handle_connection(conn(&i.to_string())).is_accept())
        .collect();
    assert_eq!(accepted, vec![true, true, true, false, false, false, false]);
}

#[test]
fn event_names_the_connection() {
    let mut server = Server::new(1);
    let accepted = server.handle_connection(conn("127.0.0.1:4000"));
    assert_eq!(accepted.connection().id, "127.0.0.1:4000");
    let rejected = server.handle_connection(conn("127.0.0.1:4001"));
    assert_eq!(rejected.connection().id, "127.0.0.1:4001");
    assert!(!rejected.is_accept());
}
