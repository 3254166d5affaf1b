//! Wire codec for the opaque build-event payload.
//!
//! A tool-reported event travels as a typed-and-tagged byte blob. This module
//! materialises the portion of such a blob that the publish layer hands to
//! handlers — an identifier, a completion flag and the opaque body — in
//! protobuf wire form: each field is a tag byte followed by a base-128
//! varint (length-prefixed bytes for the two byte fields, a bare varint for
//! the flag). Encoding and decoding are specified as pure functions on byte
//! sequences and proved inverse to one another.

use vstd::prelude::*;
use vstd::arithmetic::div_mod::{
    lemma_div_is_ordered, lemma_div_multiples_vanish, lemma_fundamental_div_mod,
};
use vstd::arithmetic::mul::lemma_mul_inequality;
use crate::model::{EventPayload, PublishError};

verus! {

/// Tag byte of the identifier field: field number 1, length-delimited.
pub const ID_TAG: u8 = 10;

/// Tag byte of the completion flag: field number 2, varint.
pub const LAST_MESSAGE_TAG: u8 = 16;

/// Tag byte of the opaque body: field number 3, length-delimited.
pub const PAYLOAD_TAG: u8 = 26;

/// The decoded form of an event payload blob: what the build-event schema
/// carries that this layer materialises. Everything inside `payload` stays
/// opaque and is routed to the handler uninterpreted.
#[derive(Clone, Debug, PartialEq, Eq)]
pub struct BuildEventPayload {
    /// Identifies the event within its build, as an opaque sub-message.
    pub id: Vec<u8>,
    /// Whether this event closes its stream.
    pub last_message: bool,
    /// The uninterpreted body of the event.
    pub payload: Vec<u8>,
}

/// Mathematical shadow of `BuildEventPayload`.
pub struct BuildEventPayloadV {
    pub id: Seq<u8>,
    pub last_message: bool,
    pub payload: Seq<u8>,
}

impl BuildEventPayloadV {
    /// Both byte fields fit behind a 64-bit length prefix. Every executable
    /// payload satisfies this.
    pub open spec fn wf(self) -> bool {
        self.id.len() <= u64::MAX && self.payload.len() <= u64::MAX
    }
}

impl View for BuildEventPayload {
    type V = BuildEventPayloadV;

    open spec fn view(&self) -> BuildEventPayloadV {
        BuildEventPayloadV {
            id: self.id@,
            last_message: self.last_message,
            payload: self.payload@,
        }
    }
}

/// Base-128 varint encoding, least significant group first; every byte but
/// the last carries a continuation bit.
pub open spec fn spec_encode_varint(n: u64) -> Seq<u8>
    decreases n,
{
    if n < 128 {
        seq![n as u8]
    } else {
        seq![(n % 128 + 128) as u8] + spec_encode_varint(n / 128)
    }
}

/// Reads one varint off the front of `s`: the decoded value and the unread
/// remainder, or nothing when `s` ends inside the varint or the value
/// overflows 64 bits.
pub open spec fn spec_decode_varint(s: Seq<u8>) -> Option<(u64, Seq<u8>)>
    decreases s.len(),
{
    if s.len() == 0 {
        None
    } else if s[0] < 128 {
        Some((s[0] as u64, s.subrange(1, s.len() as int)))
    } else {
        match spec_decode_varint(s.subrange(1, s.len() as int)) {
            None => None,
            Some((m, rest)) => {
                let v = (s[0] - 128) + 128 * m;
                if v <= u64::MAX {
                    Some((v as u64, rest))
                } else {
                    None
                }
            },
        }
    }
}

/// Reading back an encoded varint yields the value it was made from and
/// leaves whatever follows it untouched.
pub proof fn lemma_varint_round_trip(n: u64, rest: Seq<u8>)
    ensures
        spec_decode_varint(spec_encode_varint(n) + rest) == Some((n, rest)),
    decreases n,
{
    let s = spec_encode_varint(n) + rest;
    if n < 128 {
        assert(s =~= seq![n as u8] + rest);
        assert(s[0] == n as u8);
        assert(s.subrange(1, s.len() as int) =~= rest);
    } else {
        let b = (n % 128 + 128) as u8;
        assert(0 <= n % 128 < 128);
        assert(s[0] == b);
        assert(b >= 128);
        assert(s.subrange(1, s.len() as int) =~= spec_encode_varint(n / 128) + rest);
        assert(n / 128 < n) by {
            lemma_fundamental_div_mod(n as int, 128);
        }
        lemma_varint_round_trip(n / 128, rest);
        assert((b - 128) + 128 * (n / 128) == n) by {
            lemma_fundamental_div_mod(n as int, 128);
        }
    }
}

/// The executable guard `m <= (u64::MAX - lo) / 128` admits exactly the
/// continuations whose combined value still fits in 64 bits.
proof fn lemma_varint_guard(lo: u64, m: u64)
    requires
        lo < 128,
    ensures
        m <= (u64::MAX - lo) / 128 <==> lo + 128 * m <= u64::MAX,
{
    let x = (u64::MAX - lo) as int;
    if 128 * m <= x {
        lemma_div_is_ordered(128 * (m as int), x, 128);
        lemma_div_multiples_vanish(m as int, 128);
    }
    if m <= x / 128 {
        lemma_mul_inequality(m as int, x / 128, 128);
        lemma_fundamental_div_mod(x, 128);
    }
}

/// Appends the varint encoding of `n` to `out`.
pub fn encode_varint(n: u64, out: &mut Vec<u8>)
    ensures
        final(out)@ == old(out)@ + spec_encode_varint(n),
{
    let mut k = n;
    while k >= 128
        invariant
            old(out)@ + spec_encode_varint(n) == out@ + spec_encode_varint(k),
        decreases k,
    {
        let b = (k % 128 + 128) as u8;
        proof {
            assert(spec_encode_varint(k) == seq![b] + spec_encode_varint(k / 128));
            assert(out@ + spec_encode_varint(k) =~= (out@ + seq![b]) + spec_encode_varint(
                k / 128,
            ));
            assert(k / 128 < k) by {
                lemma_fundamental_div_mod(k as int, 128);
            }
        }
        out.push(b);
        k = k / 128;
    }
    proof {
        assert(out@ + spec_encode_varint(k) =~= (out@ + seq![k as u8]));
    }
    out.push(k as u8);
}

/// Reads one varint out of `b` starting at `pos`, returning the value and
/// the position just past it; mirrors `spec_decode_varint` on the unread
/// suffix.
pub fn decode_varint(b: &[u8], pos: usize) -> (r: Option<(u64, usize)>)
    requires
        pos <= b@.len(),
    ensures
        match r {
            Some(v) => pos < v.1 <= b@.len() && spec_decode_varint(
                b@.subrange(pos as int, b@.len() as int),
            ) == Some((v.0, b@.subrange(v.1 as int, b@.len() as int))),
            None => spec_decode_varint(b@.subrange(pos as int, b@.len() as int)) is None,
        },
    decreases b@.len() - pos,
{
    let ghost s = b@.subrange(pos as int, b@.len() as int);
    if pos >= b.len() {
        return None;
    }
    let byte = b[pos];
    proof {
        assert(s[0] == byte);
    }
    if byte < 128 {
        proof {
            assert(s.subrange(1, s.len() as int) =~= b@.subrange(
                pos as int + 1,
                b@.len() as int,
            ));
        }
        Some((byte as u64, pos + 1))
    } else {
        proof {
            assert(s.subrange(1, s.len() as int) =~= b@.subrange(
                pos as int + 1,
                b@.len() as int,
            ));
        }
        match decode_varint(b, pos + 1) {
            None => None,
            Some((m, p2)) => {
                let lo = (byte - 128) as u64;
                proof {
                    lemma_varint_guard(lo, m);
                }
                if m <= (u64::MAX - lo) / 128 {
                    Some((lo + 128 * m, p2))
                } else {
                    None
                }
            },
        }
    }
}

/// A tag byte followed by a length-prefixed byte field.
pub open spec fn spec_encode_bytes_field(tag: u8, data: Seq<u8>) -> Seq<u8> {
    seq![tag] + spec_encode_varint(data.len() as u64) + data
}

/// A tag byte followed by a bare varint field.
pub open spec fn spec_encode_varint_field(tag: u8, n: u64) -> Seq<u8> {
    seq![tag] + spec_encode_varint(n)
}

/// Reads one length-prefixed byte field off the front of `s`: its contents
/// and the unread remainder. Fails when the tag differs, the length varint
/// is malformed, or `s` ends early.
pub open spec fn spec_decode_bytes_field(tag: u8, s: Seq<u8>) -> Option<(Seq<u8>, Seq<u8>)> {
    if s.len() == 0 || s[0] != tag {
        None
    } else {
        match spec_decode_varint(s.subrange(1, s.len() as int)) {
            None => None,
            Some((n, rest)) => if n <= rest.len() {
                Some((rest.subrange(0, n as int), rest.subrange(n as int, rest.len() as int)))
            } else {
                None
            },
        }
    }
}

/// Reads one bare varint field off the front of `s`.
pub open spec fn spec_decode_varint_field(tag: u8, s: Seq<u8>) -> Option<(u64, Seq<u8>)> {
    if s.len() == 0 || s[0] != tag {
        None
    } else {
        spec_decode_varint(s.subrange(1, s.len() as int))
    }
}

/// The full wire form of a payload: its three fields in schema order.
pub open spec fn spec_encode_payload(p: BuildEventPayloadV) -> Seq<u8> {
    spec_encode_bytes_field(ID_TAG, p.id) + spec_encode_varint_field(
        LAST_MESSAGE_TAG,
        if p.last_message {
            1u64
        } else {
            0u64
        },
    ) + spec_encode_bytes_field(PAYLOAD_TAG, p.payload)
}

/// Parses a whole payload blob: three fields in schema order with nothing
/// left over, or nothing when the blob is malformed. Any nonzero flag value
/// reads as true.
pub open spec fn spec_decode_payload(s: Seq<u8>) -> Option<BuildEventPayloadV> {
    match spec_decode_bytes_field(ID_TAG, s) {
        None => None,
        Some((id, s1)) => match spec_decode_varint_field(LAST_MESSAGE_TAG, s1) {
            None => None,
            Some((flag, s2)) => match spec_decode_bytes_field(PAYLOAD_TAG, s2) {
                None => None,
                Some((payload, s3)) => if s3.len() == 0 {
                    Some(BuildEventPayloadV { id, last_message: flag != 0, payload })
                } else {
                    None
                },
            },
        },
    }
}

/// Reading back an encoded byte field yields the bytes it was made from.
proof fn lemma_bytes_field_round_trip(tag: u8, data: Seq<u8>, rest: Seq<u8>)
    requires
        data.len() <= u64::MAX,
    ensures
        spec_decode_bytes_field(tag, spec_encode_bytes_field(tag, data) + rest) == Some(
            (data, rest),
        ),
{
    let s = spec_encode_bytes_field(tag, data) + rest;
    assert(s[0] == tag);
    assert(s.subrange(1, s.len() as int) =~= spec_encode_varint(data.len() as u64) + (data
        + rest));
    lemma_varint_round_trip(data.len() as u64, data + rest);
    assert((data + rest).subrange(0, data.len() as int) =~= data);
    assert((data + rest).subrange(data.len() as int, (data + rest).len() as int) =~= rest);
}

/// Reading back an encoded varint field yields the value it was made from.
proof fn lemma_varint_field_round_trip(tag: u8, n: u64, rest: Seq<u8>)
    ensures
        spec_decode_varint_field(tag, spec_encode_varint_field(tag, n) + rest) == Some((n, rest)),
{
    let s = spec_encode_varint_field(tag, n) + rest;
    assert(s[0] == tag);
    assert(s.subrange(1, s.len() as int) =~= spec_encode_varint(n) + rest);
    lemma_varint_round_trip(n, rest);
}

/// Round trip of the payload codec: decoding a blob that was encoded from a
/// known build-event value reproduces that value field-for-field.
pub proof fn lemma_payload_round_trip(p: BuildEventPayloadV)
    requires
        p.wf(),
    ensures
        spec_decode_payload(spec_encode_payload(p)) == Some(p),
{
    let flag: u64 = if p.last_message {
        1u64
    } else {
        0u64
    };
    let f1 = spec_encode_bytes_field(ID_TAG, p.id);
    let f2 = spec_encode_varint_field(LAST_MESSAGE_TAG, flag);
    let f3 = spec_encode_bytes_field(PAYLOAD_TAG, p.payload);
    let s = spec_encode_payload(p);
    assert(s =~= f1 + (f2 + f3));
    lemma_bytes_field_round_trip(ID_TAG, p.id, f2 + f3);
    lemma_varint_field_round_trip(LAST_MESSAGE_TAG, flag, f3);
    lemma_bytes_field_round_trip(PAYLOAD_TAG, p.payload, Seq::<u8>::empty());
    assert(f3 =~= f3 + Seq::<u8>::empty());
    assert((flag != 0) == p.last_message);
}

/// Copies `b[i..j]` into a fresh vector.
fn copy_range(b: &[u8], i: usize, j: usize) -> (r: Vec<u8>)
    requires
        i <= j <= b@.len(),
    ensures
        r@ == b@.subrange(i as int, j as int),
{
    let mut out: Vec<u8> = Vec::new();
    let mut k = i;
    while k < j
        invariant
            i <= k <= j <= b@.len(),
            out@ == b@.subrange(i as int, k as int),
        decreases j - k,
    {
        out.push(b[k]);
        proof {
            assert(out@ =~= b@.subrange(i as int, k as int + 1));
        }
        k = k + 1;
    }
    out
}

/// Appends every byte of `data` to `out`.
fn append_bytes(out: &mut Vec<u8>, data: &Vec<u8>)
    ensures
        final(out)@ == old(out)@ + data@,
{
    let mut k: usize = 0;
    while k < data.len()
        invariant
            k <= data@.len(),
            out@ == old(out)@ + data@.subrange(0, k as int),
        decreases data@.len() - k,
    {
        out.push(data[k]);
        proof {
            assert(old(out)@ + data@.subrange(0, k as int + 1) =~= (old(out)@ + data@.subrange(
                0,
                k as int,
            )) + seq![data@[k as int]]);
        }
        k = k + 1;
    }
    proof {
        assert(data@.subrange(0, data@.len() as int) =~= data@);
    }
}

/// Encodes a payload into its wire form.
pub fn encode_build_event(p: &BuildEventPayload) -> (r: Vec<u8>)
    ensures
        r@ == spec_encode_payload(p@),
{
    let mut out: Vec<u8> = Vec::new();
    out.push(ID_TAG);
    encode_varint(p.id.len() as u64, &mut out);
    append_bytes(&mut out, &p.id);
    let ghost c1 = out@;
    proof {
        assert(c1 =~= spec_encode_bytes_field(ID_TAG, p.id@));
    }
    out.push(LAST_MESSAGE_TAG);
    let flag: u64 = if p.last_message {
        1
    } else {
        0
    };
    encode_varint(flag, &mut out);
    let ghost c2 = out@;
    proof {
        assert(c2 =~= c1 + spec_encode_varint_field(LAST_MESSAGE_TAG, flag));
    }
    out.push(PAYLOAD_TAG);
    encode_varint(p.payload.len() as u64, &mut out);
    append_bytes(&mut out, &p.payload);
    proof {
        assert(out@ =~= c2 + spec_encode_bytes_field(PAYLOAD_TAG, p.payload@));
        assert(out@ =~= spec_encode_payload(p@));
    }
    out
}

/// Reads one length-prefixed byte field at `pos`, returning its contents and
/// the position just past it.
fn read_bytes_field(tag: u8, b: &[u8], pos: usize) -> (r: Option<(Vec<u8>, usize)>)
    requires
        pos <= b@.len(),
    ensures
        match r {
            Some(v) => pos < v.1 <= b@.len() && spec_decode_bytes_field(
                tag,
                b@.subrange(pos as int, b@.len() as int),
            ) == Some((v.0@, b@.subrange(v.1 as int, b@.len() as int))),
            None => spec_decode_bytes_field(
                tag,
                b@.subrange(pos as int, b@.len() as int),
            ) is None,
        },
{
    let ghost s = b@.subrange(pos as int, b@.len() as int);
    if pos >= b.len() || b[pos] != tag {
        return None;
    }
    proof {
        assert(s[0] == tag);
        assert(s.subrange(1, s.len() as int) =~= b@.subrange(pos as int + 1, b@.len() as int));
    }
    match decode_varint(b, pos + 1) {
        None => None,
        Some((n, p2)) => {
            let ghost rest = b@.subrange(p2 as int, b@.len() as int);
            let avail = b.len() - p2;
            if n <= avail as u64 {
                let len = n as usize;
                let data = copy_range(b, p2, p2 + len);
                proof {
                    assert(data@ =~= rest.subrange(0, n as int));
                    assert(b@.subrange(p2 as int + len as int, b@.len() as int) =~= rest.subrange(
                        n as int,
                        rest.len() as int,
                    ));
                }
                Some((data, p2 + len))
            } else {
                None
            }
        },
    }
}

/// Reads one bare varint field at `pos`.
fn read_varint_field(tag: u8, b: &[u8], pos: usize) -> (r: Option<(u64, usize)>)
    requires
        pos <= b@.len(),
    ensures
        match r {
            Some(v) => pos < v.1 <= b@.len() && spec_decode_varint_field(
                tag,
                b@.subrange(pos as int, b@.len() as int),
            ) == Some((v.0, b@.subrange(v.1 as int, b@.len() as int))),
            None => spec_decode_varint_field(
                tag,
                b@.subrange(pos as int, b@.len() as int),
            ) is None,
        },
{
    let ghost s = b@.subrange(pos as int, b@.len() as int);
    if pos >= b.len() || b[pos] != tag {
        return None;
    }
    proof {
        assert(s[0] == tag);
        assert(s.subrange(1, s.len() as int) =~= b@.subrange(pos as int + 1, b@.len() as int));
    }
    decode_varint(b, pos + 1)
}

/// Decodes a whole payload blob, or reports that it is malformed.
pub fn decode_build_event(b: &[u8]) -> (r: Option<BuildEventPayload>)
    ensures
        match r {
            Some(p) => spec_decode_payload(b@) == Some(p@),
            None => spec_decode_payload(b@) is None,
        },
{
    proof {
        assert(b@.subrange(0, b@.len() as int) =~= b@);
    }
    match read_bytes_field(ID_TAG, b, 0) {
        None => None,
        Some((id, p1)) => match read_varint_field(LAST_MESSAGE_TAG, b, p1) {
            None => None,
            Some((flag, p2)) => match read_bytes_field(PAYLOAD_TAG, b, p2) {
                None => None,
                Some((payload, p3)) => {
                    if p3 == b.len() {
                        proof {
                            assert(b@.subrange(p3 as int, b@.len() as int).len() == 0);
                        }
                        Some(BuildEventPayload { id, last_message: flag != 0, payload })
                    } else {
                        None
                    }
                },
            },
        },
    }
}

/// Decodes the typed-and-tagged blob of a tool-reported event against the
/// materialised build-event form. A blob that does not parse is a
/// recoverable, reportable decode failure, never a silent drop.
pub fn parse_payload(e: EventPayload) -> (r: Result<BuildEventPayload, PublishError>)
    ensures
        match r {
            Ok(p) => spec_decode_payload(e.value@) == Some(p@),
            Err(err) => spec_decode_payload(e.value@) is None && err == PublishError::Decode,
        },
{
    match decode_build_event(e.value.as_slice()) {
        Some(p) => Ok(p),
        None => Err(PublishError::Decode),
    }
}

} // verus!
