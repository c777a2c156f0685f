//! Runs one process under a terminal of its own and hands control of that process
//! over a port.
//!
//! What is decided is decided here: what a session answers and does (`session`, `launch`,
//! `server`), what a client asks and makes of the answers (`client`), what the command line
//! spells (`cli`, `viewer`, `environment`) and what goes over the wire (`protocol`, `wire`
//! and the `base64` modules). Sockets, terminals, processes and clocks live outside; what
//! they bring comes in as plain values. `operations` states what each operation does, `laws`
//! what holds over any course of events, and `views` that every value is told in full.

pub mod base64_bytes;
pub mod base64_bytes_or_nothing;
pub mod base64_text;
pub mod cli;
pub mod client;
pub mod environment;
pub mod launch;
pub mod laws;
pub mod operations;
pub mod protocol;
pub mod server;
pub mod session;
pub mod text;
pub mod viewer;
pub mod views;
pub mod wire;
