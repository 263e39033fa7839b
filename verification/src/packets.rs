//! The two wire value types exchanged between the endpoints, plus the empty
//! placeholder packet, with their shared fixed binary schema.
//!
//! Every packet type carries a mathematical model (its view), a wire
//! specification over that model, and verified `encode`/`decode` functions.
//! Decoding tolerates trailing bytes, so a datagram read into an oversized
//! buffer still decodes; a truncated or structurally invalid prefix is a
//! decode failure, never a panic.
use crate::codec::{
    lemma_i32_run_wire_push, lemma_read_i32_run, lemma_read_string, lemma_read_varint_u16,
    read_string, read_varint_i32, read_varint_u16, spec_i32_run_wire, spec_read_i32_run,
    spec_read_string, spec_read_varint_u16, spec_string_wire, spec_varint_u16, write_string,
    write_varint_i32, write_varint_u16,
};
use crate::error::StarboardError;
use vstd::prelude::*;

verus! {

/// Mathematical model of an input-state packet.
pub struct InputModel {
    pub key_states: u16,
    pub abs_states: Seq<i32>,
    pub timestamp: Seq<char>,
}

/// Mathematical model of a haptic packet.
pub struct HapticModel {
    pub strength_bits: u32,
    pub timestamp: Seq<char>,
}

/// One tick's controller state: a 16-bit button bitmask, eight signed axis
/// values (six raw analog channels followed by the two synthesized
/// directional-pad channels), and an observability timestamp.
#[derive(Debug)]
pub struct InputPacket {
    pub key_states: u16,
    pub abs_states: [i32; 8],
    pub timestamp: String,
}

/// A force-feedback strength relayed back to the originating side.  The
/// strength is carried as the raw bits of the 32-bit float magnitude; the
/// library never computes on the magnitude itself.
#[derive(Debug)]
pub struct HapticPacket {
    pub strength_bits: u32,
    pub timestamp: String,
}

/// The empty placeholder packet: no payload, an empty wire form.
#[derive(Debug, PartialEq, Eq, Structural)]
pub struct OutputPacket {}

impl View for InputPacket {
    type V = InputModel;

    open spec fn view(&self) -> InputModel {
        InputModel {
            key_states: self.key_states,
            abs_states: self.abs_states@,
            timestamp: self.timestamp@,
        }
    }
}

impl View for HapticPacket {
    type V = HapticModel;

    open spec fn view(&self) -> HapticModel {
        HapticModel { strength_bits: self.strength_bits, timestamp: self.timestamp@ }
    }
}

impl View for OutputPacket {
    type V = ();

    open spec fn view(&self) -> () {
        ()
    }
}

/// A wire value type: a mathematical model with a wire form over it, a
/// reader for that wire form, and verified encode/decode.
pub trait Packet: View + Sized {
    spec fn wf_model(m: Self::V) -> bool;

    spec fn spec_wire(m: Self::V) -> Seq<u8>;

    spec fn spec_read(s: Seq<u8>) -> Option<(Self::V, int)>;

    /// Round trip: reading the wire form of any well-formed value, followed
    /// by arbitrary trailing bytes, yields that value and consumes exactly
    /// the wire form.
    proof fn lemma_wire_read(m: Self::V, rest: Seq<u8>)
        requires
            Self::wf_model(m),
        ensures
            Self::spec_read(Self::spec_wire(m) + rest) == Some(
                (m, Self::spec_wire(m).len() as int),
            ),
    ;

    fn encode(&self) -> (r: Vec<u8>)
        ensures
            r@ == Self::spec_wire(self@),
            Self::wf_model(self@),
    ;

    fn decode(bytes: &[u8]) -> (r: Option<(Self, usize)>)
        ensures
            match r {
                Some(p) => {
                    &&& Self::spec_read(bytes@) matches Some(q) && p.0@ == q.0 && p.1 as int
                        == q.1
                    &&& Self::wf_model(p.0@)
                },
                None => Self::spec_read(bytes@) is None,
            },
    ;
}

// ---------------------------------------------------------------------------
// InputPacket wire form
// ---------------------------------------------------------------------------
pub open spec fn spec_input_wire(m: InputModel) -> Seq<u8> {
    spec_varint_u16(m.key_states) + spec_i32_run_wire(m.abs_states) + spec_string_wire(
        m.timestamp,
    )
}

pub open spec fn spec_read_input(s: Seq<u8>) -> Option<(InputModel, int)> {
    match spec_read_varint_u16(s) {
        Some((k, u1)) => match spec_read_i32_run(s.skip(u1), 8) {
            Some((vs, u2)) => match spec_read_string(s.skip(u1 + u2)) {
                Some((t, u3)) => Some(
                    (InputModel { key_states: k, abs_states: vs, timestamp: t }, u1 + u2 + u3),
                ),
                None => None,
            },
            None => None,
        },
        None => None,
    }
}

pub open spec fn input_wf(m: InputModel) -> bool {
    &&& m.abs_states.len() == 8
    &&& vstd::utf8::encode_utf8(m.timestamp).len() <= u64::MAX
}

impl Packet for InputPacket {
    open spec fn wf_model(m: InputModel) -> bool {
        input_wf(m)
    }

    open spec fn spec_wire(m: InputModel) -> Seq<u8> {
        spec_input_wire(m)
    }

    open spec fn spec_read(s: Seq<u8>) -> Option<(InputModel, int)> {
        spec_read_input(s)
    }

    proof fn lemma_wire_read(m: InputModel, rest: Seq<u8>) {
        let w1 = spec_varint_u16(m.key_states);
        let w2 = spec_i32_run_wire(m.abs_states);
        let w3 = spec_string_wire(m.timestamp);
        let s = spec_input_wire(m) + rest;
        assert(s =~= w1 + (w2 + (w3 + rest)));
        lemma_read_varint_u16(m.key_states, w2 + (w3 + rest));
        let u1 = w1.len() as int;
        assert(s.skip(u1) =~= w2 + (w3 + rest));
        lemma_read_i32_run(m.abs_states, w3 + rest);
        let u2 = w2.len() as int;
        assert(s.skip(u1 + u2) =~= w3 + rest);
        lemma_read_string(m.timestamp, rest);
    }

    fn encode(&self) -> (r: Vec<u8>) {
        let mut out: Vec<u8> = Vec::new();
        write_varint_u16(&mut out, self.key_states);
        let mut i: usize = 0;
        while i < 8
            invariant
                i <= 8,
                out@ == spec_varint_u16(self.key_states) + spec_i32_run_wire(
                    self.abs_states@.take(i as int),
                ),
            decreases 8 - i,
        {
            write_varint_i32(&mut out, self.abs_states[i]);
            proof {
                lemma_i32_run_wire_push(self.abs_states@.take(i as int), self.abs_states@[i as int]);
                assert(self.abs_states@.take(i + 1) =~= self.abs_states@.take(i as int).push(
                    self.abs_states@[i as int],
                ));
                assert(out@ =~= spec_varint_u16(self.key_states) + spec_i32_run_wire(
                    self.abs_states@.take(i + 1),
                ));
            }
            i = i + 1;
        }
        assert(self.abs_states@.take(8) =~= self.abs_states@);
        write_string(&mut out, self.timestamp.as_str());
        assert(out@ =~= spec_input_wire(self@));
        out
    }

    fn decode(bytes: &[u8]) -> (r: Option<(Self, usize)>) {
        proof {
            assert(bytes@.skip(0) =~= bytes@);
        }
        let (key_states, p1) = match read_varint_u16(bytes, 0) {
            Some(p) => p,
            None => {
                return None;
            },
        };
        let mut vals: Vec<i32> = Vec::new();
        let mut pos = p1;
        let mut i: usize = 0;
        while i < 8
            invariant
                i <= 8,
                p1 <= pos <= bytes@.len(),
                vals@.len() == i,
                spec_read_varint_u16(bytes@) == Some((key_states, p1 as int)),
                match spec_read_i32_run(bytes@.skip(pos as int), (8 - i) as nat) {
                    Some(q) => spec_read_i32_run(bytes@.skip(p1 as int), 8) == Some(
                        (vals@ + q.0, pos - p1 + q.1),
                    ),
                    None => spec_read_i32_run(bytes@.skip(p1 as int), 8) is None,
                },
            decreases 8 - i,
        {
            proof {
                assert(vals@ + Seq::<i32>::empty() =~= vals@);
            }
            let (v, np) = match read_varint_i32(bytes, pos) {
                Some(p) => p,
                None => {
                    return None;
                },
            };
            proof {
                assert(bytes@.skip(pos as int).skip(np - pos) =~= bytes@.skip(np as int));
                let r2 = spec_read_i32_run(bytes@.skip(np as int), (8 - (i + 1)) as nat);
                if r2 is Some {
                    let vs2 = r2->Some_0.0;
                    assert(vals@.push(v) + vs2 =~= vals@ + (seq![v] + vs2));
                }
            }
            vals.push(v);
            pos = np;
            i = i + 1;
        }
        proof {
            assert(vals@ + Seq::<i32>::empty() =~= vals@);
        }
        let (timestamp, p3) = match read_string(bytes, pos) {
            Some(p) => p,
            None => {
                return None;
            },
        };
        let abs_states: [i32; 8] = [vals[0], vals[1], vals[2], vals[3], vals[4], vals[5], vals[6], vals[7]];
        assert(abs_states@ =~= vals@);
        let packet = InputPacket { key_states, abs_states, timestamp };
        proof {
            assert(spec_read_i32_run(bytes@.skip(p1 as int), 8) == Some(
                (vals@, pos - p1 as int),
            ));
            assert(spec_read_input(bytes@) == Some((packet@, p3 as int)));
        }
        Some((packet, p3))
    }
}

// ---------------------------------------------------------------------------
// HapticPacket wire form: the four little-endian bytes of the strength,
// then the timestamp string.
// ---------------------------------------------------------------------------
pub open spec fn spec_haptic_wire(m: HapticModel) -> Seq<u8> {
    vstd::bytes::spec_u32_to_le_bytes(m.strength_bits) + spec_string_wire(m.timestamp)
}

pub open spec fn spec_read_haptic(s: Seq<u8>) -> Option<(HapticModel, int)> {
    if s.len() >= 4 {
        match spec_read_string(s.skip(4)) {
            Some((t, u)) => Some(
                (
                    HapticModel {
                        strength_bits: vstd::bytes::spec_u32_from_le_bytes(s.subrange(0, 4)),
                        timestamp: t,
                    },
                    4 + u,
                ),
            ),
            None => None,
        }
    } else {
        None
    }
}

pub open spec fn haptic_wf(m: HapticModel) -> bool {
    vstd::utf8::encode_utf8(m.timestamp).len() <= u64::MAX
}

impl Packet for HapticPacket {
    open spec fn wf_model(m: HapticModel) -> bool {
        haptic_wf(m)
    }

    open spec fn spec_wire(m: HapticModel) -> Seq<u8> {
        spec_haptic_wire(m)
    }

    open spec fn spec_read(s: Seq<u8>) -> Option<(HapticModel, int)> {
        spec_read_haptic(s)
    }

    proof fn lemma_wire_read(m: HapticModel, rest: Seq<u8>) {
        vstd::bytes::lemma_auto_spec_u32_to_from_le_bytes();
        let w1 = vstd::bytes::spec_u32_to_le_bytes(m.strength_bits);
        let w2 = spec_string_wire(m.timestamp);
        let s = spec_haptic_wire(m) + rest;
        assert(s.subrange(0, 4) =~= w1);
        assert(s.skip(4) =~= w2 + rest);
        lemma_read_string(m.timestamp, rest);
    }

    fn encode(&self) -> (r: Vec<u8>) {
        let mut out = vstd::bytes::u32_to_le_bytes(self.strength_bits);
        write_string(&mut out, self.timestamp.as_str());
        assert(out@ =~= spec_haptic_wire(self@));
        out
    }

    fn decode(bytes: &[u8]) -> (r: Option<(Self, usize)>) {
        if bytes.len() < 4 {
            return None;
        }
        let head = vstd::slice::slice_subrange(bytes, 0, 4);
        let strength_bits = vstd::bytes::u32_from_le_bytes(head);
        let (timestamp, p2) = match read_string(bytes, 4) {
            Some(p) => p,
            None => {
                return None;
            },
        };
        let packet = HapticPacket { strength_bits, timestamp };
        proof {
            assert(spec_read_haptic(bytes@) == Some((packet@, p2 as int)));
        }
        Some((packet, p2))
    }
}

impl Packet for OutputPacket {
    open spec fn wf_model(m: ()) -> bool {
        true
    }

    open spec fn spec_wire(m: ()) -> Seq<u8> {
        Seq::empty()
    }

    open spec fn spec_read(s: Seq<u8>) -> Option<((), int)> {
        Some(((), 0))
    }

    proof fn lemma_wire_read(m: (), rest: Seq<u8>) {
    }

    fn encode(&self) -> (r: Vec<u8>) {
        let out: Vec<u8> = Vec::new();
        assert(out@ =~= Seq::<u8>::empty());
        out
    }

    fn decode(bytes: &[u8]) -> (r: Option<(Self, usize)>) {
        Some((OutputPacket {  }, 0))
    }
}

impl InputPacket {
    pub fn new(key_states: u16, abs_states: [i32; 8], timestamp: String) -> (r: Self)
        ensures
            r@.key_states == key_states,
            r@.abs_states == abs_states@,
            r@.timestamp == timestamp@,
    {
        Self { key_states, abs_states, timestamp }
    }

    /// The bitmask unpacked into one held/released flag per button-table
    /// entry, in table order.
    pub fn key_states_as_arr(self) -> (r: Vec<bool>)
        ensures
            r@.len() == crate::tables::BUTTON_COUNT,
            forall|i: int|
                0 <= i < crate::tables::BUTTON_COUNT ==> r@[i] == ((self.key_states
                    & crate::tables::spec_bin_key(i)) > 0),
    {
        let mut arr: Vec<bool> = Vec::new();
        let mut i: usize = 0;
        while i < crate::tables::BUTTON_COUNT
            invariant
                i <= crate::tables::BUTTON_COUNT,
                arr@.len() == i,
                forall|j: int|
                    0 <= j < i ==> arr@[j] == ((self.key_states & crate::tables::spec_bin_key(j))
                        > 0),
            decreases crate::tables::BUTTON_COUNT - i,
        {
            arr.push(self.key_states & crate::tables::bin_key(i) > 0);
            i = i + 1;
        }
        arr
    }
}

impl Default for InputPacket {
    /// The all-zero packet: no button held, every axis at rest, an empty
    /// timestamp.
    fn default() -> (r: Self)
        ensures
            r@.key_states == 0,
            r@.abs_states == Seq::new(8, |i: int| 0i32),
            r@.timestamp == Seq::<char>::empty(),
    {
        let r = InputPacket {
            key_states: 0,
            abs_states: [0, 0, 0, 0, 0, 0, 0, 0],
            timestamp: String::new(),
        };
        assert(r.abs_states@ =~= Seq::new(8, |i: int| 0i32));
        r
    }
}

impl PartialEq for InputPacket {
    fn eq(&self, other: &Self) -> (r: bool) {
        let keys_eq = self.key_states == other.key_states;
        let axes_eq = self.abs_states[0] == other.abs_states[0] && self.abs_states[1]
            == other.abs_states[1] && self.abs_states[2] == other.abs_states[2]
            && self.abs_states[3] == other.abs_states[3] && self.abs_states[4]
            == other.abs_states[4] && self.abs_states[5] == other.abs_states[5]
            && self.abs_states[6] == other.abs_states[6] && self.abs_states[7]
            == other.abs_states[7];
        let times_eq = self.timestamp == other.timestamp;
        proof {
            if keys_eq && axes_eq && times_eq {
                assert(self.abs_states@ =~= other.abs_states@);
            }
        }
        keys_eq && axes_eq && times_eq
    }
}

impl vstd::std_specs::cmp::PartialEqSpecImpl for InputPacket {
    open spec fn obeys_eq_spec() -> bool {
        true
    }

    open spec fn eq_spec(&self, other: &Self) -> bool {
        self@ == other@
    }
}

impl HapticPacket {
    /// A haptic packet carrying a strength's raw float bits and a
    /// timestamp.
    pub fn new(strength_bits: u32, timestamp: String) -> (r: Self)
        ensures
            r@.strength_bits == strength_bits,
            r@.timestamp == timestamp@,
    {
        Self { strength_bits, timestamp }
    }
}

// ---------------------------------------------------------------------------
// The codec entry points both endpoints call.
// ---------------------------------------------------------------------------
/// Round trip: decoding the encoding of any well-formed packet value yields
/// exactly that value, with any trailing bytes left alone.  Stated over the
/// packet models that `encode` and `decode` are specified against.
pub proof fn lemma_round_trip<T: Packet>(m: T::V, rest: Seq<u8>)
    requires
        T::wf_model(m),
    ensures
        T::spec_read(T::spec_wire(m) + rest) == Some((m, T::spec_wire(m).len() as int)),
{
    T::lemma_wire_read(m, rest);
}

/// Encode a packet into its wire bytes.  Encoding never fails; the fallible
/// signature mirrors the codec boundary both endpoints share.
pub fn serialize<T: Packet>(packet: T) -> (r: Result<Vec<u8>, StarboardError>)
    ensures
        r matches Ok(b) && b@ == T::spec_wire(packet@),
        T::wf_model(packet@),
{
    Ok(packet.encode())
}

/// Decode a packet from raw datagram bytes; trailing bytes are ignored.
/// Fails exactly when the wire reader rejects the prefix.
pub fn deserialize<T: Packet>(packet_raw: Vec<u8>) -> (r: Result<T, StarboardError>)
    ensures
        match r {
            Ok(p) => T::spec_read(packet_raw@) matches Some(q) && p@ == q.0 && T::wf_model(p@),
            Err(_) => T::spec_read(packet_raw@) is None,
        },
{
    match T::decode(packet_raw.as_slice()) {
        Some((p, _)) => Ok(p),
        None => Err(StarboardError::new(1, "unable to decode packet")),
    }
}

} // verus!
