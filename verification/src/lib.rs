//! An echo service: a server that accepts a bounded number of concurrent
//! connections and sends every byte it reads back to its sender, clients that
//! greet it, and a monitor that follows the server's connection events.
//!
//! This crate holds the decisions of those programs, each proved against its
//! contract; the program that moves bytes over sockets lives beside it.

pub mod client;
pub mod connection;
pub mod echo;
pub mod io_error;
pub mod monitor;
pub mod server;
