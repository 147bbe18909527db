//! Orchestration core of a solo machine's IBC command: validated identifiers,
//! public keys, the event vocabulary, the connection handshake as a state
//! machine, token transfers, event rendering and result reconciliation.

pub mod ident;
pub mod key;
pub mod event;
pub mod connect;
pub mod flow;
pub mod render;
pub mod command;
