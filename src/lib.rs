//! Authentication handshake between two peers of the network.
//!
//! Before two nodes exchange application data, each proves possession of the
//! private key bound to the identity it claims, and both sides make sure that
//! the connection does not loop back onto the node itself.
//!
//! The handshake is a state machine ([`handshake::HandshakeWorker`]): it is fed
//! events (a round's outcome, a signature, a verification verdict) and answers
//! with the next action to perform. Sending and receiving messages under a
//! timeout, and the hashing, signing and verifying of challenges, are done by
//! whoever drives the machine.
pub mod error;
pub mod handshake;
pub mod identity;
pub mod message;
pub mod nonce;
pub mod utime;
pub mod laws;
