//! The receiving side's device state machine: it converts each freshly
//! decoded input packet into the minimal batch of device-emission events
//! and keeps the cached device state current.
//!
//! Buttons are edge-triggered: a key event is emitted only for bits that
//! differ from the cached bitmask, so unchanged buttons never re-emit.
//! Axes are level-triggered: every processed packet emits one set-axis
//! event per axis table entry, changed or not, because downstream
//! consumers need a steady-state value.  Each batch ends with exactly one
//! synchronization event, and the cached bitmask is overwritten, not
//! merged.
use crate::packets::{InputModel, InputPacket};
use crate::tables::{
    bin_key, out_axis, out_key, spec_bin_key, spec_out_axis, spec_out_key, AXIS_COUNT,
    BUTTON_COUNT, EV_ABSOLUTE, EV_KEY, EV_SYNCHRONIZATION, SYN_REPORT,
};
use vstd::prelude::*;

verus! {

/// One device-emission event, as the plain triple the virtual-device
/// collaborator consumes: event type, event code, value.
#[derive(Clone, Copy, Debug, PartialEq, Eq, Structural)]
pub struct EmitEvent {
    pub event_type: u16,
    pub code: u16,
    pub value: i32,
}

/// The key-change event for button-table entry `i`.
pub open spec fn spec_key_event(i: int, pressed: bool) -> EmitEvent {
    EmitEvent {
        event_type: EV_KEY,
        code: spec_out_key(i),
        value: if pressed {
            1i32
        } else {
            0i32
        },
    }
}

/// Key-change events for the button-table entries below `i`, in table
/// order: one event per entry whose bit differs between the cached and the
/// new bitmask, carrying the new pressed state.
pub open spec fn spec_key_events_upto(old_k: u16, new_k: u16, i: int) -> Seq<EmitEvent>
    decreases i,
{
    if i <= 0 {
        Seq::empty()
    } else {
        spec_key_events_upto(old_k, new_k, i - 1) + (
        if (old_k & spec_bin_key(i - 1)) != (new_k & spec_bin_key(i - 1)) {
            seq![spec_key_event(i - 1, (new_k & spec_bin_key(i - 1)) != 0)]
        } else {
            Seq::empty()
        })
    }
}

pub open spec fn spec_key_events(old_k: u16, new_k: u16) -> Seq<EmitEvent> {
    spec_key_events_upto(old_k, new_k, BUTTON_COUNT as int)
}

/// The set-axis events of one packet: one per axis-table entry, in table
/// order, each carrying the packet's value for that slot.
pub open spec fn spec_axis_events(abs: Seq<i32>) -> Seq<EmitEvent> {
    Seq::new(
        AXIS_COUNT as nat,
        |i: int| EmitEvent { event_type: EV_ABSOLUTE, code: spec_out_axis(i), value: abs[i] },
    )
}

/// The frame-synchronization event that ends every batch.
pub open spec fn spec_sync_event() -> EmitEvent {
    EmitEvent { event_type: EV_SYNCHRONIZATION, code: SYN_REPORT, value: 0i32 }
}

/// The full emission batch for one packet against a cached bitmask: the
/// edge-triggered key events, then the eight level-triggered axis events,
/// then one synchronization event.
pub open spec fn spec_emission(old_k: u16, m: InputModel) -> Seq<EmitEvent> {
    spec_key_events(old_k, m.key_states) + spec_axis_events(m.abs_states) + seq![spec_sync_event()]
}

proof fn lemma_key_events_upto_same(k: u16, i: int)
    ensures
        spec_key_events_upto(k, k, i) == Seq::<EmitEvent>::empty(),
    decreases i,
{
    if i <= 0 {
    } else {
        lemma_key_events_upto_same(k, i - 1);
        assert(spec_key_events_upto(k, k, i) =~= Seq::<EmitEvent>::empty());
    }
}

/// Edge-trigger property: two consecutive packets with identical bitmasks
/// produce no key-change events between them.
pub proof fn lemma_edge_trigger(k: u16)
    ensures
        spec_key_events(k, k) == Seq::<EmitEvent>::empty(),
{
    lemma_key_events_upto_same(k, BUTTON_COUNT as int);
}

/// Edge-trigger property, end to end: a packet whose bitmask equals the
/// cached one (as after any packet with the same `key_states`) emits no
/// key-change event at all, only the eight axis events and the
/// synchronization event.
pub proof fn lemma_edge_trigger_consecutive(k: u16, m: InputModel)
    requires
        m.key_states == k,
    ensures
        spec_emission(k, m) == spec_axis_events(m.abs_states) + seq![spec_sync_event()],
{
    lemma_edge_trigger(k);
    assert(spec_emission(k, m) =~= spec_axis_events(m.abs_states) + seq![spec_sync_event()]);
}

/// Axis level-trigger property: every processed packet emits exactly one
/// set-axis event per axis-table entry, in table order, regardless of
/// change.
pub proof fn lemma_axis_level_trigger(abs: Seq<i32>)
    ensures
        spec_axis_events(abs).len() == AXIS_COUNT,
        forall|i: int|
            0 <= i < AXIS_COUNT ==> spec_axis_events(abs)[i] == (EmitEvent {
                event_type: EV_ABSOLUTE,
                code: spec_out_axis(i),
                value: abs[i],
            }),
{
}

/// Model of the receiving side's cached device state.
pub struct DeviceModel {
    pub key_states: u16,
    pub abs_states: Seq<i32>,
}

/// The last-applied bitmask and axis values, owned by the dispatch loop
/// for the life of the process.
#[derive(Debug)]
pub struct DeviceState {
    pub key_states: u16,
    pub abs_states: [i32; 8],
}

impl View for DeviceState {
    type V = DeviceModel;

    open spec fn view(&self) -> DeviceModel {
        DeviceModel { key_states: self.key_states, abs_states: self.abs_states@ }
    }
}

impl DeviceState {
    /// The initial cached state: nothing held, every axis at rest.
    pub fn new() -> (r: Self)
        ensures
            r@.key_states == 0,
            r@.abs_states == Seq::new(8, |i: int| 0i32),
    {
        let r = DeviceState { key_states: 0, abs_states: [0, 0, 0, 0, 0, 0, 0, 0] };
        assert(r.abs_states@ =~= Seq::new(8, |i: int| 0i32));
        r
    }

    /// Convert one decoded packet into its emission batch and update the
    /// cached state to the packet's snapshot.
    pub fn process_packet(&mut self, packet: &InputPacket) -> (events: Vec<EmitEvent>)
        ensures
            events@ == spec_emission(old(self)@.key_states, packet@),
            final(self)@.key_states == packet@.key_states,
            final(self)@.abs_states == packet@.abs_states,
    {
        let ghost old_k = self.key_states;
        let mut events: Vec<EmitEvent> = Vec::new();
        let mut i: usize = 0;
        while i < BUTTON_COUNT
            invariant
                i <= BUTTON_COUNT,
                old_k == self.key_states,
                events@ == spec_key_events_upto(old_k, packet.key_states, i as int),
            decreases BUTTON_COUNT - i,
        {
            let key_bit = bin_key(i);
            let key_pressed: u16 = packet.key_states & key_bit;
            let key_pressed_cached: u16 = self.key_states & key_bit;
            if key_pressed != key_pressed_cached {
                let value: i32 = if key_pressed != 0 {
                    1
                } else {
                    0
                };
                events.push(EmitEvent { event_type: EV_KEY, code: out_key(i), value });
            }
            proof {
                assert(events@ =~= spec_key_events_upto(old_k, packet.key_states, i + 1));
            }
            i = i + 1;
        }
        self.key_states = packet.key_states;
        let ghost key_part = spec_key_events(old_k, packet@.key_states);
        let mut j: usize = 0;
        while j < AXIS_COUNT
            invariant
                j <= AXIS_COUNT,
                events@ == key_part + spec_axis_events(packet@.abs_states).take(j as int),
            decreases AXIS_COUNT - j,
        {
            events.push(
                EmitEvent { event_type: EV_ABSOLUTE, code: out_axis(j), value: packet.abs_states[j] },
            );
            proof {
                assert(events@ =~= key_part + spec_axis_events(packet@.abs_states).take(j + 1));
            }
            j = j + 1;
        }
        proof {
            assert(spec_axis_events(packet@.abs_states).take(AXIS_COUNT as int) =~= spec_axis_events(
                packet@.abs_states,
            ));
        }
        events.push(EmitEvent { event_type: EV_SYNCHRONIZATION, code: SYN_REPORT, value: 0 });
        self.abs_states = packet.abs_states;
        proof {
            assert(events@ =~= spec_emission(old_k, packet@));
        }
        events
    }
}

} // verus!
