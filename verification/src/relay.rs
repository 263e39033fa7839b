//! The originating side of the haptic relay: decode an inbound haptic
//! packet and decide how to drive the local actuator.
//!
//! The actuator collaborator is driven by first stopping any playing
//! effect, then playing the new strength for a fixed duration, so effects
//! never overlap or queue; the library decides the strength and duration,
//! the collaborator performs them.
use crate::packets::{spec_read_haptic, HapticPacket, Packet};
use vstd::prelude::*;

verus! {

/// How long one relayed effect plays, in milliseconds.
pub const RUMBLE_DURATION_MS: u32 = 1000;

/// The decode step of fetching the next inbound haptic packet: a failed
/// decode is "no packet this iteration", never an error.
pub fn get_haptic_packet(buf: &[u8]) -> (r: Option<HapticPacket>)
    ensures
        match r {
            Some(p) => spec_read_haptic(buf@) matches Some(q) && p@ == q.0,
            None => spec_read_haptic(buf@) is None,
        },
{
    match HapticPacket::decode(buf) {
        Some((p, _)) => Some(p),
        None => None,
    }
}

/// Decide the playback for one inbound haptic datagram: the strength bits
/// to hand the actuator with the fixed duration, or nothing when the
/// datagram does not decode.
pub fn haptic_playback(buf: &[u8]) -> (r: Option<(u32, u32)>)
    ensures
        match r {
            Some(p) => {
                &&& spec_read_haptic(buf@) matches Some(q) && p.0 == q.0.strength_bits
                &&& p.1 == RUMBLE_DURATION_MS
            },
            None => spec_read_haptic(buf@) is None,
        },
{
    match get_haptic_packet(buf) {
        Some(packet) => Some((packet.strength_bits, RUMBLE_DURATION_MS)),
        None => None,
    }
}

} // verus!
