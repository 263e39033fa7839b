//! The receiving side's dispatch decisions.
//!
//! The dispatch loop has two logical states: waiting for the next event
//! and handling exactly one.  The surrounding runtime waits on the two
//! event sources (the next inbound datagram, the next force-feedback event
//! from the virtual device) and hands whichever arrives first to
//! `dispatch`, which decides what that one event does: drive an emission
//! batch, relay a haptic packet back, or simply re-enter the wait.  A
//! decode failure is never fatal and never touches the cached device
//! state; the loop just waits again.
use crate::device::{spec_emission, DeviceState, EmitEvent};
use crate::packets::{
    spec_haptic_wire, spec_read_input, HapticModel, HapticPacket, InputPacket, Packet,
};
use crate::tables::EV_FORCEFEEDBACK;
use vstd::prelude::*;

verus! {

/// One wake-up of the dispatch loop: an inbound datagram's payload, or a
/// force-feedback event surfaced by the virtual-device collaborator
/// (reduced to its event type and the raw bits of its strength).
#[derive(Debug)]
pub enum DispatchEvent {
    Datagram(Vec<u8>),
    Haptic { event_type: u16, strength_bits: u32 },
}

/// What the loop's runtime must do before waiting again: emit one batch of
/// device events, send one encoded haptic packet to the peer, or nothing.
#[derive(Debug)]
pub enum DispatchAction {
    Emit(Vec<EmitEvent>),
    Send(Vec<u8>),
    Wait,
}

/// The decode step of fetching the next inbound state packet: a failed
/// decode is "no packet this iteration", never an error.
pub fn get_input_packet(buf: &[u8]) -> (r: Option<InputPacket>)
    ensures
        match r {
            Some(p) => spec_read_input(buf@) matches Some(q) && p@ == q.0,
            None => spec_read_input(buf@) is None,
        },
{
    match InputPacket::decode(buf) {
        Some((p, _)) => Some(p),
        None => None,
    }
}

/// Package a fetched virtual-device event as a haptic packet, exactly when
/// it is a force-feedback event; any other event type yields nothing.
pub fn get_haptic_packet(event_type: u16, strength_bits: u32, timestamp: String) -> (r: Option<
    HapticPacket,
>)
    ensures
        event_type == EV_FORCEFEEDBACK ==> (r matches Some(p) && p@ == (HapticModel {
            strength_bits,
            timestamp: timestamp@,
        })),
        event_type != EV_FORCEFEEDBACK ==> r is None,
{
    if event_type == EV_FORCEFEEDBACK {
        Some(HapticPacket { strength_bits, timestamp })
    } else {
        None
    }
}

/// Handle exactly one event, then return to waiting.
///
/// A datagram that decodes drives one emission batch and updates the
/// cached state to the packet's snapshot; one that does not decode leaves
/// the state untouched and asks for nothing but the next wait.  A
/// force-feedback event becomes an encoded haptic packet to send, stamped
/// with the caller's timestamp; any other device event is ignored.
pub fn dispatch(state: &mut DeviceState, event: DispatchEvent, timestamp: String) -> (action:
    DispatchAction)
    ensures
        match event {
            DispatchEvent::Datagram(buf) => match spec_read_input(buf@) {
                Some(q) => {
                    &&& action matches DispatchAction::Emit(events) && events@ == spec_emission(
                        old(state)@.key_states,
                        q.0,
                    )
                    &&& final(state)@.key_states == q.0.key_states
                    &&& final(state)@.abs_states == q.0.abs_states
                },
                None => action is Wait && *final(state) == *old(state),
            },
            DispatchEvent::Haptic { event_type, strength_bits } => {
                &&& *final(state) == *old(state)
                &&& if event_type == EV_FORCEFEEDBACK {
                    action matches DispatchAction::Send(bytes) && bytes@ == spec_haptic_wire(
                        HapticModel { strength_bits, timestamp: timestamp@ },
                    )
                } else {
                    action is Wait
                }
            },
        },
{
    match event {
        DispatchEvent::Datagram(buf) => match get_input_packet(buf.as_slice()) {
            Some(packet) => {
                let events = state.process_packet(&packet);
                DispatchAction::Emit(events)
            },
            None => DispatchAction::Wait,
        },
        DispatchEvent::Haptic { event_type, strength_bits } => {
            match get_haptic_packet(event_type, strength_bits, timestamp) {
                Some(packet) => DispatchAction::Send(packet.encode()),
                None => DispatchAction::Wait,
            }
        },
    }
}

} // verus!
