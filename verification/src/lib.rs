//! Peer-to-peer message transport bridge for a blockchain node.
//!
//! The crate turns a raw, event-driven peer connectivity service into a
//! reliable, address-addressed messaging facility: it translates between
//! node-level addresses and transport-level peer identifiers, frames
//! application payloads into a small wire protocol with optional delivery
//! acknowledgment, tracks pending acknowledgments, and decides, for every
//! transport event, what the node must do with it.  The transport itself
//! (connection establishment, dialing, physical I/O) stays outside; the host
//! binary drives it and feeds its events through [`service::NetworkService`].

pub mod acks;
pub mod byteutil;
pub mod commands;
pub mod dispatch;
pub mod identity;
pub mod message;
pub mod service;
