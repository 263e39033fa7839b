//! The fixed, ordered button and axis tables shared by both endpoints.
//!
//! Position in the button table permanently ties a logical button to its
//! transport bit weight and to the output device's native key identity;
//! reordering a deployed table breaks wire compatibility.  The axis table
//! lists six raw analog channels (two sticks' X/Y and the two triggers)
//! followed by the two synthesized directional-pad channels.  The output
//! identities are the Linux input event codes the receiving side's virtual
//! device understands.
use vstd::prelude::*;

verus! {

/// Number of logical buttons carried in the bitmask.
pub const BUTTON_COUNT: usize = 14;

/// Number of axis slots in a packet: six raw channels plus two synthesized
/// directional-pad channels.
pub const AXIS_COUNT: usize = 8;

/// Index of the synthesized directional-pad slot fed by the up/down pair.
pub const DPAD_UPDOWN_SLOT: usize = 6;

/// Index of the synthesized directional-pad slot fed by the right/left pair.
pub const DPAD_RIGHTLEFT_SLOT: usize = 7;

// Output event-type identities (Linux input event types).
pub const EV_SYNCHRONIZATION: u16 = 0x00;

pub const EV_KEY: u16 = 0x01;

pub const EV_ABSOLUTE: u16 = 0x03;

pub const EV_FORCEFEEDBACK: u16 = 0x15;

/// Code of the frame-synchronization event that ends every emission batch.
pub const SYN_REPORT: u16 = 0;

/// Transport bit weight of logical button `i`.
pub open spec fn spec_bin_key(i: int) -> u16 {
    1u16 << (i as u16)
}

pub fn bin_key(i: usize) -> (r: u16)
    requires
        i < BUTTON_COUNT,
    ensures
        r == spec_bin_key(i as int),
{
    1u16 << (i as u16)
}

/// Only the button table's fourteen bits are defined in the bitmask; the
/// top two bits are reserved and must stay zero.
pub open spec fn bitmask_wf(k: u16) -> bool {
    k < 0x4000
}

/// Setting or clearing any button-table bit keeps the two reserved bits of
/// the bitmask clear.
pub proof fn lemma_reserved_bits_stay_clear(k: u16, i: int)
    requires
        0 <= i < BUTTON_COUNT,
        bitmask_wf(k),
    ensures
        bitmask_wf(k | spec_bin_key(i)),
        bitmask_wf(k & !spec_bin_key(i)),
{
    let j = i as u16;
    assert((k | (1u16 << j)) < 0x4000 && (k & !(1u16 << j)) < 0x4000) by (bit_vector)
        requires
            j < 14 && k < 0x4000,
    ;
}

/// Output key identity of logical button `i`: the virtual device's native
/// key code (north/south/east/west, stick clicks, shoulders, start/select,
/// then the four back paddles).
pub open spec fn spec_out_key(i: int) -> u16 {
    if i == 0 {
        0x133
    } else if i == 1 {
        0x130
    } else if i == 2 {
        0x131
    } else if i == 3 {
        0x134
    } else if i == 4 {
        0x13d
    } else if i == 5 {
        0x13e
    } else if i == 6 {
        0x136
    } else if i == 7 {
        0x137
    } else if i == 8 {
        0x13b
    } else if i == 9 {
        0x13a
    } else if i == 10 {
        0x2c0
    } else if i == 11 {
        0x2c1
    } else if i == 12 {
        0x2c2
    } else {
        0x2c3
    }
}

pub fn out_key(i: usize) -> (r: u16)
    requires
        i < BUTTON_COUNT,
    ensures
        r == spec_out_key(i as int),
{
    if i == 0 {
        0x133
    } else if i == 1 {
        0x130
    } else if i == 2 {
        0x131
    } else if i == 3 {
        0x134
    } else if i == 4 {
        0x13d
    } else if i == 5 {
        0x13e
    } else if i == 6 {
        0x136
    } else if i == 7 {
        0x137
    } else if i == 8 {
        0x13b
    } else if i == 9 {
        0x13a
    } else if i == 10 {
        0x2c0
    } else if i == 11 {
        0x2c1
    } else if i == 12 {
        0x2c2
    } else {
        0x2c3
    }
}

/// Output axis identity of axis slot `i`: the six raw channels map to the
/// device's X, Y, Z, RX, RY, RZ axes; the two synthesized slots map to the
/// directional-pad hat axes.
pub open spec fn spec_out_axis(i: int) -> u16 {
    if i < 6 {
        i as u16
    } else if i == 6 {
        0x10
    } else {
        0x11
    }
}

pub fn out_axis(i: usize) -> (r: u16)
    requires
        i < AXIS_COUNT,
    ensures
        r == spec_out_axis(i as int),
{
    if i < 6 {
        i as u16
    } else if i == 6 {
        0x10
    } else {
        0x11
    }
}

/// The full association list from logical button index to transport bit
/// weight, in table order.
pub fn get_key_associations() -> (r: Vec<u16>)
    ensures
        r@.len() == BUTTON_COUNT,
        forall|i: int| 0 <= i < BUTTON_COUNT ==> r@[i] == spec_bin_key(i),
{
    let mut v: Vec<u16> = Vec::new();
    let mut i: usize = 0;
    while i < BUTTON_COUNT
        invariant
            i <= BUTTON_COUNT,
            v@.len() == i,
            forall|j: int| 0 <= j < i ==> v@[j] == spec_bin_key(j),
        decreases BUTTON_COUNT - i,
    {
        v.push(bin_key(i));
        i = i + 1;
    }
    v
}

} // verus!
