//! The narrow capability interfaces the dispatch engine consumes from its
//! transport and input collaborators.
//!
//! Two datagram-socket-like collaborators (a network socket and a local
//! inter-process channel) share one receive-next-payload capability; the
//! concrete implementations live with the collaborators outside the
//! library.
use crate::error::StarboardError;
use vstd::prelude::*;

verus! {

/// A best-effort datagram source: the next queued payload if one is
/// there, nothing when none is, an error when the transport itself fails.
pub trait StarboardDatagram: Send + Sync {
    fn recv(&self) -> Result<Option<Vec<u8>>, StarboardError>;
}

/// A pollable source of discrete input notifications.
pub trait EventPoll {
    fn poll_input(&self) -> u8;
}

} // verus!
