//! Session and transport layer for sharing a screen over datagrams: the
//! binary message codec, the splitting of large messages into datagrams and
//! their reassembly, the host's admission state machine and the peer's
//! session decisions.

pub mod fragment;
pub mod host;
pub mod join;
pub mod network;
