//! A two-peer, turn-based battle synchronisation protocol: a wire codec, a
//! turn-ownership state machine and a deterministic damage resolver, so that
//! a host and a client can each compute the same outcome of every turn from
//! the action declarations they exchange.
pub mod element;
pub mod advantage;
pub mod resolve;
pub mod wire;
pub mod message;
pub mod monster;
pub mod session;
