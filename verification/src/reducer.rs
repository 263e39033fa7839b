//! The originating side's state reducer: it accumulates raw controller
//! events into a capture state and turns that state into one canonical
//! input packet per poll tick.
//!
//! Reduction assembles the button bitmask from the button table, reads the
//! six raw analog channels, synthesizes the two directional-pad channels
//! from the four held directions, and applies deadzone filtering to each
//! stick's pair of axes.  Deadzone radii are integers on the same scale as
//! the raw axis samples.
use crate::packets::InputPacket;
use crate::tables::{bin_key, spec_bin_key, BUTTON_COUNT, DPAD_RIGHTLEFT_SLOT, DPAD_UPDOWN_SLOT};
use vstd::prelude::*;

verus! {

// ---------------------------------------------------------------------------
// Deadzone filtering
// ---------------------------------------------------------------------------
/// A stick position `(x, y)` rests inside a deadzone of radius `r` when its
/// distance from the origin is at most `r`, that is when `x^2 + y^2 <= r^2`
/// (for a nonnegative radius; a negative radius admits nothing).
pub open spec fn in_deadzone(x: int, y: int, r: int) -> bool {
    r >= 0 && x * x + y * y <= r * r
}

/// Apply a deadzone of radius `r` to the axis pair at slots `ix`, `iy` of
/// `vs`: inside the radius both components are zeroed together; outside it
/// the whole sequence is untouched.
pub open spec fn spec_deadzone_pair(vs: Seq<i32>, ix: int, iy: int, r: int) -> Seq<i32> {
    if in_deadzone(vs[ix] as int, vs[iy] as int, r) {
        vs.update(ix, 0).update(iy, 0)
    } else {
        vs
    }
}

/// Deadzone symmetry: a pair within the radius has both components become
/// exactly zero, never just one; a pair outside it has both unchanged, and
/// slots other than the pair's are never touched.
pub proof fn lemma_deadzone_symmetry(vs: Seq<i32>, ix: int, iy: int, r: int)
    requires
        0 <= ix < vs.len(),
        0 <= iy < vs.len(),
        ix != iy,
    ensures
        in_deadzone(vs[ix] as int, vs[iy] as int, r) ==> {
            &&& spec_deadzone_pair(vs, ix, iy, r)[ix] == 0
            &&& spec_deadzone_pair(vs, ix, iy, r)[iy] == 0
        },
        !in_deadzone(vs[ix] as int, vs[iy] as int, r) ==> spec_deadzone_pair(vs, ix, iy, r) == vs,
        forall|j: int|
            0 <= j < vs.len() && j != ix && j != iy ==> spec_deadzone_pair(vs, ix, iy, r)[j]
                == vs[j],
{
}

/// Deadzone idempotence: filtering a pair twice yields the same result as
/// filtering it once.
pub proof fn lemma_deadzone_idempotent(vs: Seq<i32>, ix: int, iy: int, r: int)
    requires
        0 <= ix < vs.len(),
        0 <= iy < vs.len(),
        ix != iy,
    ensures
        spec_deadzone_pair(spec_deadzone_pair(vs, ix, iy, r), ix, iy, r) == spec_deadzone_pair(
            vs,
            ix,
            iy,
            r,
        ),
{
    let once = spec_deadzone_pair(vs, ix, iy, r);
    if in_deadzone(vs[ix] as int, vs[iy] as int, r) {
        assert(r * r >= 0) by (nonlinear_arith)
            requires
                r >= 0,
        ;
        assert(once[ix] == 0 && once[iy] == 0);
        assert(in_deadzone(once[ix] as int, once[iy] as int, r));
        assert(spec_deadzone_pair(once, ix, iy, r) =~= once);
    }
}

/// The whole deadzone filter of one tick: the left stick's radius applied
/// to slots 0 and 1, then the right stick's radius applied to slots 3 and
/// 4.
pub open spec fn spec_apply_deadzones(vs: Seq<i32>, ldeadzone: int, rdeadzone: int) -> Seq<i32> {
    spec_deadzone_pair(spec_deadzone_pair(vs, 0, 1, ldeadzone), 3, 4, rdeadzone)
}

/// Deadzone idempotence: applying the whole deadzone filter twice yields
/// the same result as applying it once.
pub proof fn lemma_deadzones_idempotent(vs: Seq<i32>, ldeadzone: int, rdeadzone: int)
    requires
        vs.len() == 8,
    ensures
        spec_apply_deadzones(spec_apply_deadzones(vs, ldeadzone, rdeadzone), ldeadzone, rdeadzone)
            == spec_apply_deadzones(vs, ldeadzone, rdeadzone),
{
    let p1 = spec_deadzone_pair(vs, 0, 1, ldeadzone);
    let once = spec_deadzone_pair(p1, 3, 4, rdeadzone);
    assert(once[0] == p1[0] && once[1] == p1[1]);
    let q1 = spec_deadzone_pair(once, 0, 1, ldeadzone);
    if in_deadzone(vs[0] as int, vs[1] as int, ldeadzone) {
        assert(ldeadzone * ldeadzone >= 0) by (nonlinear_arith)
            requires
                ldeadzone >= 0,
        ;
        assert(in_deadzone(once[0] as int, once[1] as int, ldeadzone));
        assert(q1 =~= once);
    } else {
        assert(p1 == vs);
        assert(q1 == once);
    }
    lemma_deadzone_idempotent(p1, 3, 4, rdeadzone);
}

/// Squares an axis sample without overflow.
fn square_i32(v: i32) -> (r: u64)
    ensures
        r == (v as int) * (v as int),
        r <= 0x4000_0000_0000_0000,
{
    proof {
        assert((v as int) * (v as int) <= 0x4000_0000_0000_0000int) by (nonlinear_arith)
            requires
                -0x8000_0000 <= v as int <= 0x7fff_ffff,
        ;
        assert((v as int) * (v as int) >= 0) by (nonlinear_arith);
    }
    let w: i64 = (v as i64) * (v as i64);
    w as u64
}

/// Apply a deadzone of radius `deadzone` to the axis pair at `ix`, `iy`.
fn apply_pair_deadzone(deadzone: i32, axis_values: &mut [i32; 8], ix: usize, iy: usize)
    requires
        ix < 8,
        iy < 8,
        ix != iy,
    ensures
        final(axis_values)@ == spec_deadzone_pair(
            old(axis_values)@,
            ix as int,
            iy as int,
            deadzone as int,
        ),
{
    let xx = square_i32(axis_values[ix]);
    let yy = square_i32(axis_values[iy]);
    let rr = square_i32(deadzone);
    if deadzone >= 0 && xx + yy <= rr {
        axis_values[ix] = 0;
        axis_values[iy] = 0;
        assert(axis_values@ =~= spec_deadzone_pair(
            old(axis_values)@,
            ix as int,
            iy as int,
            deadzone as int,
        ));
    }
}

/// Deadzone for the left stick: axis slots 0 and 1.
pub fn apply_ldeadzones(deadzone: i32, axis_values: &mut [i32; 8])
    ensures
        final(axis_values)@ == spec_deadzone_pair(old(axis_values)@, 0, 1, deadzone as int),
{
    apply_pair_deadzone(deadzone, axis_values, 0, 1);
}

/// Deadzone for the right stick: axis slots 3 and 4.
pub fn apply_rdeadzones(deadzone: i32, axis_values: &mut [i32; 8])
    ensures
        final(axis_values)@ == spec_deadzone_pair(old(axis_values)@, 3, 4, deadzone as int),
{
    apply_pair_deadzone(deadzone, axis_values, 3, 4);
}

// ---------------------------------------------------------------------------
// Directional-pad synthesis
// ---------------------------------------------------------------------------
/// Truth table of a synthesized directional-pad axis from one opposite pair
/// of held directions: both or neither held gives 0, only the first gives
/// +1, only the second gives -1.
pub open spec fn spec_dpad_axis(pressed_a: bool, pressed_b: bool) -> i32 {
    if pressed_a == pressed_b {
        0i32
    } else if pressed_a {
        1i32
    } else {
        -1i32
    }
}

pub fn dpad_axis(pressed_a: bool, pressed_b: bool) -> (r: i32)
    ensures
        r == spec_dpad_axis(pressed_a, pressed_b),
{
    if pressed_a == pressed_b {
        0
    } else if pressed_a {
        1
    } else {
        -1
    }
}

/// The directional-pad truth table, written out: no direction or both give
/// 0, the first alone gives +1, the second alone gives -1.
pub proof fn lemma_dpad_truth_table()
    ensures
        spec_dpad_axis(false, false) == 0,
        spec_dpad_axis(true, false) == 1,
        spec_dpad_axis(false, true) == -1,
        spec_dpad_axis(true, true) == 0,
{
}

// ---------------------------------------------------------------------------
// Capture state and events
// ---------------------------------------------------------------------------
/// A controller button as the reducer sees it: either a logical button at a
/// button-table index, or one of the four directional-pad directions, which
/// never enter the bitmask.
#[derive(Clone, Copy, Debug, PartialEq, Eq, Structural)]
pub enum PadButton {
    Logical(usize),
    DpadUp,
    DpadDown,
    DpadLeft,
    DpadRight,
}

/// A raw analog channel of the controller.
#[derive(Clone, Copy, Debug, PartialEq, Eq, Structural)]
pub enum StickAxis {
    LeftX,
    LeftY,
    TriggerLeft,
    RightX,
    RightY,
    TriggerRight,
}

/// A discrete notification from the input-capture collaborator, reduced to
/// plain values.
#[derive(Clone, Copy, Debug, PartialEq, Eq, Structural)]
pub enum CaptureEvent {
    ButtonDown(PadButton),
    ButtonUp(PadButton),
    AxisMotion(StickAxis, i16),
    Quit,
}

/// Axis slot a raw analog channel lands in.
pub open spec fn spec_axis_slot(axis: StickAxis) -> int {
    match axis {
        StickAxis::LeftX => 0,
        StickAxis::LeftY => 1,
        StickAxis::TriggerLeft => 2,
        StickAxis::RightX => 3,
        StickAxis::RightY => 4,
        StickAxis::TriggerRight => 5,
    }
}

/// Model of the originating side's accumulator between poll ticks.
pub struct CaptureModel {
    pub bitmask: u16,
    pub axis_values: Seq<i32>,
    pub dpad_up: bool,
    pub dpad_down: bool,
    pub dpad_left: bool,
    pub dpad_right: bool,
}

/// The originating side's accumulator: the bitmask and raw axis buffer the
/// next outgoing packet is built from, plus the held state of the four
/// directional-pad directions.
#[derive(Debug)]
pub struct ClientCaptureState {
    pub bitmask: u16,
    pub axis_values: [i32; 8],
    pub dpad_up: bool,
    pub dpad_down: bool,
    pub dpad_left: bool,
    pub dpad_right: bool,
}

impl View for ClientCaptureState {
    type V = CaptureModel;

    open spec fn view(&self) -> CaptureModel {
        CaptureModel {
            bitmask: self.bitmask,
            axis_values: self.axis_values@,
            dpad_up: self.dpad_up,
            dpad_down: self.dpad_down,
            dpad_left: self.dpad_left,
            dpad_right: self.dpad_right,
        }
    }
}

impl ClientCaptureState {
    /// A fresh accumulator: nothing held, every axis at rest.
    pub fn new() -> (r: Self)
        ensures
            r@.bitmask == 0,
            r@.axis_values == Seq::new(8, |i: int| 0i32),
            !r@.dpad_up && !r@.dpad_down && !r@.dpad_left && !r@.dpad_right,
    {
        let r = ClientCaptureState {
            bitmask: 0,
            axis_values: [0, 0, 0, 0, 0, 0, 0, 0],
            dpad_up: false,
            dpad_down: false,
            dpad_left: false,
            dpad_right: false,
        };
        assert(r.axis_values@ =~= Seq::new(8, |i: int| 0i32));
        r
    }
}

/// Record a button press in the bitmask.  A directional-pad press never
/// enters the bitmask; instead a nonzero code reports which synthesized
/// axis the press belongs to (+1/-1 for up/down, +2/-2 for right/left).  A
/// table index beyond the button table is ignored.
pub fn button_press(button: PadButton, bitmask: &mut u16) -> (r: i8)
    ensures
        match button {
            PadButton::Logical(i) => r == 0 && if i < BUTTON_COUNT {
                *final(bitmask) == *old(bitmask) | spec_bin_key(i as int)
            } else {
                *final(bitmask) == *old(bitmask)
            },
            PadButton::DpadUp => r == 1 && *final(bitmask) == *old(bitmask),
            PadButton::DpadDown => r == -1 && *final(bitmask) == *old(bitmask),
            PadButton::DpadRight => r == 2 && *final(bitmask) == *old(bitmask),
            PadButton::DpadLeft => r == -2 && *final(bitmask) == *old(bitmask),
        },
{
    match button {
        PadButton::DpadUp => 1,
        PadButton::DpadDown => -1,
        PadButton::DpadRight => 2,
        PadButton::DpadLeft => -2,
        PadButton::Logical(i) => {
            if i < BUTTON_COUNT {
                *bitmask = *bitmask | bin_key(i);
            }
            0
        },
    }
}

/// Record a button release in the bitmask.  Directional-pad releases and
/// out-of-table indices leave it unchanged.
pub fn button_release(button: PadButton, bitmask: &mut u16) -> (r: i8)
    ensures
        r == 0,
        match button {
            PadButton::Logical(i) => if i < BUTTON_COUNT {
                *final(bitmask) == *old(bitmask) & !spec_bin_key(i as int)
            } else {
                *final(bitmask) == *old(bitmask)
            },
            _ => *final(bitmask) == *old(bitmask),
        },
{
    match button {
        PadButton::Logical(i) => {
            if i < BUTTON_COUNT {
                *bitmask = *bitmask & !bin_key(i);
            }
            0
        },
        _ => 0,
    }
}

/// Record a raw axis sample in its slot of the axis buffer.
pub fn axis_motion(axis: StickAxis, value: i16, axis_values: &mut [i32; 8])
    ensures
        final(axis_values)@ == old(axis_values)@.update(spec_axis_slot(axis), value as i32),
{
    let i: usize = match axis {
        StickAxis::LeftX => 0,
        StickAxis::LeftY => 1,
        StickAxis::TriggerLeft => 2,
        StickAxis::RightX => 3,
        StickAxis::RightY => 4,
        StickAxis::TriggerRight => 5,
    };
    axis_values[i] = value as i32;
}

/// What one capture event does to the accumulator.
pub open spec fn spec_apply_event(m: CaptureModel, event: CaptureEvent) -> CaptureModel {
    match event {
        CaptureEvent::ButtonDown(PadButton::Logical(i)) => if i < BUTTON_COUNT {
            CaptureModel { bitmask: m.bitmask | spec_bin_key(i as int), ..m }
        } else {
            m
        },
        CaptureEvent::ButtonDown(PadButton::DpadUp) => CaptureModel { dpad_up: true, ..m },
        CaptureEvent::ButtonDown(PadButton::DpadDown) => CaptureModel { dpad_down: true, ..m },
        CaptureEvent::ButtonDown(PadButton::DpadLeft) => CaptureModel { dpad_left: true, ..m },
        CaptureEvent::ButtonDown(PadButton::DpadRight) => CaptureModel { dpad_right: true, ..m },
        CaptureEvent::ButtonUp(PadButton::Logical(i)) => if i < BUTTON_COUNT {
            CaptureModel { bitmask: m.bitmask & !spec_bin_key(i as int), ..m }
        } else {
            m
        },
        CaptureEvent::ButtonUp(PadButton::DpadUp) => CaptureModel { dpad_up: false, ..m },
        CaptureEvent::ButtonUp(PadButton::DpadDown) => CaptureModel { dpad_down: false, ..m },
        CaptureEvent::ButtonUp(PadButton::DpadLeft) => CaptureModel { dpad_left: false, ..m },
        CaptureEvent::ButtonUp(PadButton::DpadRight) => CaptureModel { dpad_right: false, ..m },
        CaptureEvent::AxisMotion(axis, value) => CaptureModel {
            axis_values: m.axis_values.update(spec_axis_slot(axis), value as i32),
            ..m
        },
        CaptureEvent::Quit => m,
    }
}

/// Fold one capture event into the accumulator: presses and releases of
/// logical buttons edit the bitmask, directional-pad transitions track the
/// held pair state, axis motion updates the raw buffer, and a quit request
/// changes nothing here (ending the loop is the caller's decision).
pub fn apply_event(state: &mut ClientCaptureState, event: CaptureEvent)
    ensures
        final(state)@ == spec_apply_event(old(state)@, event),
{
    match event {
        CaptureEvent::ButtonDown(button) => {
            match button {
                PadButton::DpadUp => {
                    state.dpad_up = true;
                },
                PadButton::DpadDown => {
                    state.dpad_down = true;
                },
                PadButton::DpadLeft => {
                    state.dpad_left = true;
                },
                PadButton::DpadRight => {
                    state.dpad_right = true;
                },
                PadButton::Logical(_) => {
                    button_press(button, &mut state.bitmask);
                },
            }
        },
        CaptureEvent::ButtonUp(button) => {
            match button {
                PadButton::DpadUp => {
                    state.dpad_up = false;
                },
                PadButton::DpadDown => {
                    state.dpad_down = false;
                },
                PadButton::DpadLeft => {
                    state.dpad_left = false;
                },
                PadButton::DpadRight => {
                    state.dpad_right = false;
                },
                PadButton::Logical(_) => {
                    button_release(button, &mut state.bitmask);
                },
            }
        },
        CaptureEvent::AxisMotion(axis, value) => {
            axis_motion(axis, value, &mut state.axis_values);
        },
        CaptureEvent::Quit => {},
    }
}

// ---------------------------------------------------------------------------
// Packet building
// ---------------------------------------------------------------------------
/// The axis block of the next outgoing packet: the raw buffer with the two
/// synthesized directional-pad slots filled in from the held pairs, then
/// each stick's deadzone applied to its pair.
pub open spec fn spec_reduced_axes(m: CaptureModel, ldeadzone: int, rdeadzone: int) -> Seq<i32> {
    let with_dpad = m.axis_values.update(
        DPAD_UPDOWN_SLOT as int,
        spec_dpad_axis(m.dpad_up, m.dpad_down),
    ).update(DPAD_RIGHTLEFT_SLOT as int, spec_dpad_axis(m.dpad_right, m.dpad_left));
    spec_apply_deadzones(with_dpad, ldeadzone, rdeadzone)
}

/// Build the canonical packet for one poll tick from the accumulator: the
/// bitmask as accumulated, the reduced axis block, and the caller's
/// timestamp.
pub fn build_packet(
    state: &ClientCaptureState,
    ldeadzone: i32,
    rdeadzone: i32,
    timestamp: String,
) -> (p: InputPacket)
    ensures
        p@.key_states == state@.bitmask,
        p@.abs_states == spec_reduced_axes(state@, ldeadzone as int, rdeadzone as int),
        p@.timestamp == timestamp@,
{
    let mut axis_values = state.axis_values;
    axis_values[DPAD_UPDOWN_SLOT] = dpad_axis(state.dpad_up, state.dpad_down);
    axis_values[DPAD_RIGHTLEFT_SLOT] = dpad_axis(state.dpad_right, state.dpad_left);
    apply_ldeadzones(ldeadzone, &mut axis_values);
    apply_rdeadzones(rdeadzone, &mut axis_values);
    InputPacket { key_states: state.bitmask, abs_states: axis_values, timestamp }
}

} // verus!
