//! Variable-width integer layer of the wire format.
//!
//! Both endpoints agree on one fixed binary configuration: little-endian
//! byte order and variable-width integers.  A value up to 250 is a single
//! byte; larger values are a marker byte (251 for a 16-bit payload, 252 for
//! 32 bits, 253 for 64 bits) followed by the value in little-endian order.
//! Signed values are first mapped to unsigned ones by the usual zigzag
//! scheme.  Readers accept any marker wide enough for the type being read,
//! so a non-canonical encoding of a small value still decodes.
use vstd::bytes::*;
use vstd::prelude::*;

verus! {

pub const SINGLE_BYTE_MAX: u8 = 250;

pub const U16_MARKER: u8 = 251;

pub const U32_MARKER: u8 = 252;

pub const U64_MARKER: u8 = 253;

// ---------------------------------------------------------------------------
// Specification: encoding
// ---------------------------------------------------------------------------
pub open spec fn spec_varint_u16(x: u16) -> Seq<u8> {
    if x <= SINGLE_BYTE_MAX {
        seq![x as u8]
    } else {
        seq![U16_MARKER] + spec_u16_to_le_bytes(x)
    }
}

pub open spec fn spec_varint_u32(x: u32) -> Seq<u8> {
    if x <= SINGLE_BYTE_MAX {
        seq![x as u8]
    } else if x <= u16::MAX {
        seq![U16_MARKER] + spec_u16_to_le_bytes(x as u16)
    } else {
        seq![U32_MARKER] + spec_u32_to_le_bytes(x)
    }
}

pub open spec fn spec_varint_u64(x: u64) -> Seq<u8> {
    if x <= SINGLE_BYTE_MAX {
        seq![x as u8]
    } else if x <= u16::MAX {
        seq![U16_MARKER] + spec_u16_to_le_bytes(x as u16)
    } else if x <= u32::MAX {
        seq![U32_MARKER] + spec_u32_to_le_bytes(x as u32)
    } else {
        seq![U64_MARKER] + spec_u64_to_le_bytes(x)
    }
}

/// Zigzag map from signed to unsigned: 0, -1, 1, -2, ... become 0, 1, 2, 3, ...
pub open spec fn spec_zigzag(v: i32) -> u32 {
    if v >= 0 {
        (2 * (v as int)) as u32
    } else {
        (-2 * (v as int) - 1) as u32
    }
}

pub open spec fn spec_unzigzag(n: u32) -> i32 {
    if n % 2 == 0 {
        ((n as int) / 2) as i32
    } else {
        (-((n as int) / 2) - 1) as i32
    }
}

pub open spec fn spec_varint_i32(v: i32) -> Seq<u8> {
    spec_varint_u32(spec_zigzag(v))
}

// ---------------------------------------------------------------------------
// Specification: decoding.  Each reader yields the value and the number of
// bytes consumed from the front of the sequence, or nothing on a truncated
// or malformed prefix.
// ---------------------------------------------------------------------------
pub open spec fn spec_read_varint_u16(s: Seq<u8>) -> Option<(u16, int)> {
    if s.len() < 1 {
        None
    } else if s[0] <= SINGLE_BYTE_MAX {
        Some((s[0] as u16, 1))
    } else if s[0] == U16_MARKER {
        if s.len() >= 3 {
            Some((spec_u16_from_le_bytes(s.subrange(1, 3)), 3))
        } else {
            None
        }
    } else {
        None
    }
}

pub open spec fn spec_read_varint_u32(s: Seq<u8>) -> Option<(u32, int)> {
    if s.len() < 1 {
        None
    } else if s[0] <= SINGLE_BYTE_MAX {
        Some((s[0] as u32, 1))
    } else if s[0] == U16_MARKER {
        if s.len() >= 3 {
            Some((spec_u16_from_le_bytes(s.subrange(1, 3)) as u32, 3))
        } else {
            None
        }
    } else if s[0] == U32_MARKER {
        if s.len() >= 5 {
            Some((spec_u32_from_le_bytes(s.subrange(1, 5)), 5))
        } else {
            None
        }
    } else {
        None
    }
}

pub open spec fn spec_read_varint_u64(s: Seq<u8>) -> Option<(u64, int)> {
    if s.len() < 1 {
        None
    } else if s[0] <= SINGLE_BYTE_MAX {
        Some((s[0] as u64, 1))
    } else if s[0] == U16_MARKER {
        if s.len() >= 3 {
            Some((spec_u16_from_le_bytes(s.subrange(1, 3)) as u64, 3))
        } else {
            None
        }
    } else if s[0] == U32_MARKER {
        if s.len() >= 5 {
            Some((spec_u32_from_le_bytes(s.subrange(1, 5)) as u64, 5))
        } else {
            None
        }
    } else if s[0] == U64_MARKER {
        if s.len() >= 9 {
            Some((spec_u64_from_le_bytes(s.subrange(1, 9)), 9))
        } else {
            None
        }
    } else {
        None
    }
}

pub open spec fn spec_read_varint_i32(s: Seq<u8>) -> Option<(i32, int)> {
    match spec_read_varint_u32(s) {
        Some((n, used)) => Some((spec_unzigzag(n), used)),
        None => None,
    }
}

// ---------------------------------------------------------------------------
// Round-trip lemmas: reading an encoding, followed by anything, yields the
// encoded value and consumes exactly the encoding.
// ---------------------------------------------------------------------------
pub proof fn lemma_read_varint_u16(x: u16, rest: Seq<u8>)
    ensures
        spec_read_varint_u16(spec_varint_u16(x) + rest) == Some(
            (x, spec_varint_u16(x).len() as int),
        ),
{
    lemma_auto_spec_u16_to_from_le_bytes();
    let s = spec_varint_u16(x) + rest;
    if x <= SINGLE_BYTE_MAX {
        assert(s[0] == x as u8);
    } else {
        assert(s[0] == U16_MARKER);
        assert(s.subrange(1, 3) =~= spec_u16_to_le_bytes(x));
    }
}

pub proof fn lemma_read_varint_u32(x: u32, rest: Seq<u8>)
    ensures
        spec_read_varint_u32(spec_varint_u32(x) + rest) == Some(
            (x, spec_varint_u32(x).len() as int),
        ),
{
    lemma_auto_spec_u16_to_from_le_bytes();
    lemma_auto_spec_u32_to_from_le_bytes();
    let s = spec_varint_u32(x) + rest;
    if x <= SINGLE_BYTE_MAX {
        assert(s[0] == x as u8);
    } else if x <= u16::MAX {
        assert(s[0] == U16_MARKER);
        assert(s.subrange(1, 3) =~= spec_u16_to_le_bytes(x as u16));
    } else {
        assert(s[0] == U32_MARKER);
        assert(s.subrange(1, 5) =~= spec_u32_to_le_bytes(x));
    }
}

pub proof fn lemma_read_varint_u64(x: u64, rest: Seq<u8>)
    ensures
        spec_read_varint_u64(spec_varint_u64(x) + rest) == Some(
            (x, spec_varint_u64(x).len() as int),
        ),
{
    lemma_auto_spec_u16_to_from_le_bytes();
    lemma_auto_spec_u32_to_from_le_bytes();
    lemma_auto_spec_u64_to_from_le_bytes();
    let s = spec_varint_u64(x) + rest;
    if x <= SINGLE_BYTE_MAX {
        assert(s[0] == x as u8);
    } else if x <= u16::MAX {
        assert(s[0] == U16_MARKER);
        assert(s.subrange(1, 3) =~= spec_u16_to_le_bytes(x as u16));
    } else if x <= u32::MAX {
        assert(s[0] == U32_MARKER);
        assert(s.subrange(1, 5) =~= spec_u32_to_le_bytes(x as u32));
    } else {
        assert(s[0] == U64_MARKER);
        assert(s.subrange(1, 9) =~= spec_u64_to_le_bytes(x));
    }
}

pub proof fn lemma_unzigzag_zigzag(v: i32)
    ensures
        spec_unzigzag(spec_zigzag(v)) == v,
{
}

pub proof fn lemma_read_varint_i32(v: i32, rest: Seq<u8>)
    ensures
        spec_read_varint_i32(spec_varint_i32(v) + rest) == Some(
            (v, spec_varint_i32(v).len() as int),
        ),
{
    lemma_read_varint_u32(spec_zigzag(v), rest);
    lemma_unzigzag_zigzag(v);
}

// ---------------------------------------------------------------------------
// Executable encoders
// ---------------------------------------------------------------------------
pub fn write_varint_u16(out: &mut Vec<u8>, x: u16)
    ensures
        final(out)@ == old(out)@ + spec_varint_u16(x),
{
    if x <= SINGLE_BYTE_MAX as u16 {
        out.push(x as u8);
        assert(out@ =~= old(out)@ + spec_varint_u16(x));
    } else {
        out.push(U16_MARKER);
        let mut tail = u16_to_le_bytes(x);
        out.append(&mut tail);
        assert(out@ =~= old(out)@ + spec_varint_u16(x));
    }
}

pub fn write_varint_u32(out: &mut Vec<u8>, x: u32)
    ensures
        final(out)@ == old(out)@ + spec_varint_u32(x),
{
    if x <= SINGLE_BYTE_MAX as u32 {
        out.push(x as u8);
        assert(out@ =~= old(out)@ + spec_varint_u32(x));
    } else if x <= u16::MAX as u32 {
        out.push(U16_MARKER);
        let mut tail = u16_to_le_bytes(x as u16);
        out.append(&mut tail);
        assert(out@ =~= old(out)@ + spec_varint_u32(x));
    } else {
        out.push(U32_MARKER);
        let mut tail = u32_to_le_bytes(x);
        out.append(&mut tail);
        assert(out@ =~= old(out)@ + spec_varint_u32(x));
    }
}

pub fn write_varint_u64(out: &mut Vec<u8>, x: u64)
    ensures
        final(out)@ == old(out)@ + spec_varint_u64(x),
{
    if x <= SINGLE_BYTE_MAX as u64 {
        out.push(x as u8);
        assert(out@ =~= old(out)@ + spec_varint_u64(x));
    } else if x <= u16::MAX as u64 {
        out.push(U16_MARKER);
        let mut tail = u16_to_le_bytes(x as u16);
        out.append(&mut tail);
        assert(out@ =~= old(out)@ + spec_varint_u64(x));
    } else if x <= u32::MAX as u64 {
        out.push(U32_MARKER);
        let mut tail = u32_to_le_bytes(x as u32);
        out.append(&mut tail);
        assert(out@ =~= old(out)@ + spec_varint_u64(x));
    } else {
        out.push(U64_MARKER);
        let mut tail = u64_to_le_bytes(x);
        out.append(&mut tail);
        assert(out@ =~= old(out)@ + spec_varint_u64(x));
    }
}

pub fn zigzag(v: i32) -> (n: u32)
    ensures
        n == spec_zigzag(v),
{
    if v >= 0 {
        (v as u32) * 2
    } else {
        (-(v + 1) as u32) * 2 + 1
    }
}

pub fn unzigzag(n: u32) -> (v: i32)
    ensures
        v == spec_unzigzag(n),
{
    let half = n / 2;
    if n % 2 == 0 {
        half as i32
    } else {
        -(half as i32) - 1
    }
}

pub fn write_varint_i32(out: &mut Vec<u8>, v: i32)
    ensures
        final(out)@ == old(out)@ + spec_varint_i32(v),
{
    let n = zigzag(v);
    write_varint_u32(out, n);
}

// ---------------------------------------------------------------------------
// Executable decoders.  Each reads at position `pos` of `bytes` and returns
// the value with the position after it, exactly as the specification reader
// does on the remaining suffix.
// ---------------------------------------------------------------------------
pub fn read_varint_u16(bytes: &[u8], pos: usize) -> (r: Option<(u16, usize)>)
    requires
        pos <= bytes@.len(),
    ensures
        match r {
            Some(p) => {
                &&& spec_read_varint_u16(bytes@.skip(pos as int)) == Some(
                    (p.0, p.1 - pos as int),
                )
                &&& pos < p.1 <= bytes@.len()
            },
            None => spec_read_varint_u16(bytes@.skip(pos as int)) is None,
        },
{
    let n = bytes.len();
    if pos >= n {
        return None;
    }
    let b = bytes[pos];
    if b <= SINGLE_BYTE_MAX {
        Some((b as u16, pos + 1))
    } else if b == U16_MARKER {
        if n - pos >= 3 {
            let sub = vstd::slice::slice_subrange(bytes, pos + 1, pos + 3);
            let v = u16_from_le_bytes(sub);
            assert(bytes@.subrange(pos + 1, pos + 3) =~= bytes@.skip(pos as int).subrange(1, 3));
            Some((v, pos + 3))
        } else {
            None
        }
    } else {
        None
    }
}

pub fn read_varint_u32(bytes: &[u8], pos: usize) -> (r: Option<(u32, usize)>)
    requires
        pos <= bytes@.len(),
    ensures
        match r {
            Some(p) => {
                &&& spec_read_varint_u32(bytes@.skip(pos as int)) == Some(
                    (p.0, p.1 - pos as int),
                )
                &&& pos < p.1 <= bytes@.len()
            },
            None => spec_read_varint_u32(bytes@.skip(pos as int)) is None,
        },
{
    let n = bytes.len();
    if pos >= n {
        return None;
    }
    let b = bytes[pos];
    if b <= SINGLE_BYTE_MAX {
        Some((b as u32, pos + 1))
    } else if b == U16_MARKER {
        if n - pos >= 3 {
            let sub = vstd::slice::slice_subrange(bytes, pos + 1, pos + 3);
            let v = u16_from_le_bytes(sub);
            assert(bytes@.subrange(pos + 1, pos + 3) =~= bytes@.skip(pos as int).subrange(1, 3));
            Some((v as u32, pos + 3))
        } else {
            None
        }
    } else if b == U32_MARKER {
        if n - pos >= 5 {
            let sub = vstd::slice::slice_subrange(bytes, pos + 1, pos + 5);
            let v = u32_from_le_bytes(sub);
            assert(bytes@.subrange(pos + 1, pos + 5) =~= bytes@.skip(pos as int).subrange(1, 5));
            Some((v, pos + 5))
        } else {
            None
        }
    } else {
        None
    }
}

pub fn read_varint_u64(bytes: &[u8], pos: usize) -> (r: Option<(u64, usize)>)
    requires
        pos <= bytes@.len(),
    ensures
        match r {
            Some(p) => {
                &&& spec_read_varint_u64(bytes@.skip(pos as int)) == Some(
                    (p.0, p.1 - pos as int),
                )
                &&& pos < p.1 <= bytes@.len()
            },
            None => spec_read_varint_u64(bytes@.skip(pos as int)) is None,
        },
{
    let n = bytes.len();
    if pos >= n {
        return None;
    }
    let b = bytes[pos];
    if b <= SINGLE_BYTE_MAX {
        Some((b as u64, pos + 1))
    } else if b == U16_MARKER {
        if n - pos >= 3 {
            let sub = vstd::slice::slice_subrange(bytes, pos + 1, pos + 3);
            let v = u16_from_le_bytes(sub);
            assert(bytes@.subrange(pos + 1, pos + 3) =~= bytes@.skip(pos as int).subrange(1, 3));
            Some((v as u64, pos + 3))
        } else {
            None
        }
    } else if b == U32_MARKER {
        if n - pos >= 5 {
            let sub = vstd::slice::slice_subrange(bytes, pos + 1, pos + 5);
            let v = u32_from_le_bytes(sub);
            assert(bytes@.subrange(pos + 1, pos + 5) =~= bytes@.skip(pos as int).subrange(1, 5));
            Some((v as u64, pos + 5))
        } else {
            None
        }
    } else if b == U64_MARKER {
        if n - pos >= 9 {
            let sub = vstd::slice::slice_subrange(bytes, pos + 1, pos + 9);
            let v = u64_from_le_bytes(sub);
            assert(bytes@.subrange(pos + 1, pos + 9) =~= bytes@.skip(pos as int).subrange(1, 9));
            Some((v, pos + 9))
        } else {
            None
        }
    } else {
        None
    }
}

// ---------------------------------------------------------------------------
// Runs of signed values: the wire form of a fixed-length block of 32-bit
// values is simply each value's encoding in order, with no length prefix.
// ---------------------------------------------------------------------------
pub open spec fn spec_i32_run_wire(vs: Seq<i32>) -> Seq<u8>
    decreases vs.len(),
{
    if vs.len() == 0 {
        Seq::empty()
    } else {
        spec_varint_i32(vs[0]) + spec_i32_run_wire(vs.drop_first())
    }
}

pub open spec fn spec_read_i32_run(s: Seq<u8>, count: nat) -> Option<(Seq<i32>, int)>
    decreases count,
{
    if count == 0 {
        Some((Seq::empty(), 0))
    } else {
        match spec_read_varint_i32(s) {
            Some((v, used)) => match spec_read_i32_run(s.skip(used), (count - 1) as nat) {
                Some((vs, used2)) => Some((seq![v] + vs, used + used2)),
                None => None,
            },
            None => None,
        }
    }
}

pub proof fn lemma_i32_run_wire_push(vs: Seq<i32>, v: i32)
    ensures
        spec_i32_run_wire(vs.push(v)) == spec_i32_run_wire(vs) + spec_varint_i32(v),
    decreases vs.len(),
{
    if vs.len() == 0 {
        assert(vs.push(v)[0] == v);
        assert(vs.push(v).drop_first() =~= Seq::<i32>::empty());
        assert(spec_i32_run_wire(vs.push(v)) == spec_varint_i32(v) + spec_i32_run_wire(
            Seq::<i32>::empty(),
        ));
        assert(spec_i32_run_wire(vs.push(v)) =~= spec_i32_run_wire(vs) + spec_varint_i32(v));
    } else {
        assert(vs.push(v)[0] == vs[0]);
        assert(vs.push(v).drop_first() =~= vs.drop_first().push(v));
        lemma_i32_run_wire_push(vs.drop_first(), v);
        assert(spec_i32_run_wire(vs.push(v)) =~= spec_i32_run_wire(vs) + spec_varint_i32(v));
    }
}

pub proof fn lemma_read_i32_run(vs: Seq<i32>, rest: Seq<u8>)
    ensures
        spec_read_i32_run(spec_i32_run_wire(vs) + rest, vs.len()) == Some(
            (vs, spec_i32_run_wire(vs).len() as int),
        ),
    decreases vs.len(),
{
    if vs.len() == 0 {
        assert(spec_i32_run_wire(vs) + rest =~= rest);
    } else {
        let v = vs[0];
        let tail = vs.drop_first();
        let s = spec_i32_run_wire(vs) + rest;
        assert(s =~= spec_varint_i32(v) + (spec_i32_run_wire(tail) + rest));
        lemma_read_varint_i32(v, spec_i32_run_wire(tail) + rest);
        let used = spec_varint_i32(v).len() as int;
        assert(s.skip(used) =~= spec_i32_run_wire(tail) + rest);
        lemma_read_i32_run(tail, rest);
        assert(seq![v] + tail =~= vs);
    }
}

// ---------------------------------------------------------------------------
// Strings: a string's wire form is the length of its UTF-8 bytes followed by
// those bytes.
// ---------------------------------------------------------------------------
pub open spec fn spec_string_wire(t: Seq<char>) -> Seq<u8> {
    spec_varint_u64(vstd::utf8::encode_utf8(t).len() as u64) + vstd::utf8::encode_utf8(t)
}

pub open spec fn spec_read_string(s: Seq<u8>) -> Option<(Seq<char>, int)> {
    match spec_read_varint_u64(s) {
        Some((len, used)) => if used + len <= s.len() {
            let bs = s.subrange(used, used + len);
            if vstd::utf8::valid_utf8(bs) {
                Some((vstd::utf8::decode_utf8(bs), used + len))
            } else {
                None
            }
        } else {
            None
        },
        None => None,
    }
}

pub proof fn lemma_read_string(t: Seq<char>, rest: Seq<u8>)
    requires
        vstd::utf8::encode_utf8(t).len() <= u64::MAX,
    ensures
        spec_read_string(spec_string_wire(t) + rest) == Some(
            (t, spec_string_wire(t).len() as int),
        ),
{
    let bs = vstd::utf8::encode_utf8(t);
    let prefix = spec_varint_u64(bs.len() as u64);
    let s = spec_string_wire(t) + rest;
    assert(s =~= prefix + (bs + rest));
    lemma_read_varint_u64(bs.len() as u64, bs + rest);
    let used = prefix.len() as int;
    assert(s.subrange(used, used + bs.len()) =~= bs);
    vstd::utf8::encode_utf8_valid_utf8(t);
    vstd::utf8::encode_utf8_decode_utf8(t);
}

/// Relies on core::str::from_utf8, which succeeds exactly on valid UTF-8 and
/// yields the characters those bytes encode, and on str::to_string, which
/// copies the characters into an owned string.
#[verifier::external_body]
fn bytes_to_string(v: &[u8]) -> (r: Option<String>)
    ensures
        r is Some <==> vstd::utf8::valid_utf8(v@),
        r matches Some(s) ==> vstd::utf8::encode_utf8(s@) == v@,
{
    match core::str::from_utf8(v) {
        Ok(s) => Some(s.to_string()),
        Err(_) => None,
    }
}

pub fn write_string(out: &mut Vec<u8>, t: &str)
    ensures
        final(out)@ == old(out)@ + spec_string_wire(t@),
        vstd::utf8::encode_utf8(t@).len() <= u64::MAX,
{
    let mut bs = t.as_bytes_vec();
    let n = bs.len();
    assert(bs@.len() <= u64::MAX);
    write_varint_u64(out, n as u64);
    out.append(&mut bs);
    assert(out@ =~= old(out)@ + spec_string_wire(t@));
}

pub fn read_string(bytes: &[u8], pos: usize) -> (r: Option<(String, usize)>)
    requires
        pos <= bytes@.len(),
    ensures
        match r {
            Some(p) => {
                &&& spec_read_string(bytes@.skip(pos as int)) matches Some(q) && p.0@ == q.0
                    && p.1 - pos == q.1
                &&& pos <= p.1 <= bytes@.len()
                &&& vstd::utf8::encode_utf8(p.0@).len() <= u64::MAX
            },
            None => spec_read_string(bytes@.skip(pos as int)) is None,
        },
{
    match read_varint_u64(bytes, pos) {
        Some((len, p2)) => {
            let rem = bytes.len() - p2;
            if len <= rem as u64 {
                let len_us = len as usize;
                let sub = vstd::slice::slice_subrange(bytes, p2, p2 + len_us);
                assert(bytes@.subrange(p2 as int, p2 + len_us) =~= bytes@.skip(
                    pos as int,
                ).subrange(p2 - pos, p2 - pos + len as int));
                match bytes_to_string(sub) {
                    Some(s) => {
                        proof {
                            vstd::utf8::encode_utf8_decode_utf8(s@);
                            assert(vstd::utf8::encode_utf8(s@).len() <= u64::MAX);
                        }
                        Some((s, p2 + len_us))
                    },
                    None => None,
                }
            } else {
                None
            }
        },
        None => None,
    }
}

pub fn read_varint_i32(bytes: &[u8], pos: usize) -> (r: Option<(i32, usize)>)
    requires
        pos <= bytes@.len(),
    ensures
        match r {
            Some(p) => {
                &&& spec_read_varint_i32(bytes@.skip(pos as int)) == Some(
                    (p.0, p.1 - pos as int),
                )
                &&& pos < p.1 <= bytes@.len()
            },
            None => spec_read_varint_i32(bytes@.skip(pos as int)) is None,
        },
{
    match read_varint_u32(bytes, pos) {
        Some((n, newpos)) => Some((unzigzag(n), newpos)),
        None => None,
    }
}

} // verus!
