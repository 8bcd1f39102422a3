//! The binary schema of a reading: a protobuf message with three fields,
//! `device_id` (tag 1, string), `value` (tag 2, 32-bit float) and
//! `timestamp` (tag 3, uint64). Field framing is done by prost's encoding
//! primitives; the message layout and its decoding rules are stated and
//! proved here.
use crate::reading::{default_model, Reading, ReadingModel};
use vstd::prelude::*;
use vstd::utf8::{decode_utf8, encode_utf8, valid_utf8};

verus! {

/// Tag of the `device_id` field.
pub const DEVICE_ID_TAG: u32 = 1;

/// Tag of the `value` field.
pub const VALUE_TAG: u32 = 2;

/// Tag of the `timestamp` field.
pub const TIMESTAMP_TAG: u32 = 3;

/// Wire type of a varint field.
pub const WIRE_VARINT: u8 = 0;

/// Wire type of an eight-byte field.
pub const WIRE_FIXED64: u8 = 1;

/// Wire type of a length-delimited field.
pub const WIRE_LEN: u8 = 2;

/// Wire type that opens a group.
pub const WIRE_START_GROUP: u8 = 3;

/// Wire type of a four-byte field.
pub const WIRE_FIXED32: u8 = 5;

// ---------------------------------------------------------------------
// The byte-level model
// ---------------------------------------------------------------------
/// LEB128: seven bits per byte, least significant group first, the high bit
/// set on every byte but the last.
pub open spec fn varint_bytes(v: nat) -> Seq<u8>
    decreases v,
{
    if v < 128 {
        seq![v as u8]
    } else {
        seq![(v % 128 + 128) as u8] + varint_bytes(v / 128)
    }
}

/// Reads a varint of at most `budget` bytes from the front of `b`: its value
/// and the number of bytes it takes. On the last byte of the budget only 0
/// and 1 are allowed, which keeps a ten-byte varint within 64 bits.
pub open spec fn varint_within(b: Seq<u8>, budget: nat) -> Option<(nat, nat)>
    decreases budget,
{
    if budget == 0 || b.len() == 0 {
        None
    } else if b[0] < 128 {
        if budget == 1 && b[0] > 1 {
            None
        } else {
            Some((b[0] as nat, 1nat))
        }
    } else {
        match varint_within(b.drop_first(), (budget - 1) as nat) {
            Some((v, n)) => Some((((b[0] - 128) + 128 * v) as nat, n + 1)),
            None => None,
        }
    }
}

/// A varint at the front of `b`, of ten bytes at most.
pub open spec fn parse_varint(b: Seq<u8>) -> Option<(nat, nat)> {
    varint_within(b, 10)
}

/// The four bytes of `v`, least significant first.
pub open spec fn le_bytes(v: u32) -> Seq<u8> {
    seq![(v % 0x100) as u8, (v / 0x100 % 0x100) as u8, (v / 0x10000 % 0x100) as u8, (v / 0x1000000) as u8]
}

/// The number that four little-endian bytes stand for.
pub open spec fn le_value(b: Seq<u8>) -> nat {
    b[0] as nat + 0x100 * b[1] as nat + 0x10000 * b[2] as nat + 0x1000000 * b[3] as nat
}

/// A field key: the tag shifted past the three bits of the wire type.
pub open spec fn key_bytes(tag: nat, wire: nat) -> Seq<u8> {
    varint_bytes(tag * 8 + wire)
}

pub open spec fn string_field_bytes(tag: nat, s: Seq<char>) -> Seq<u8> {
    key_bytes(tag, 2) + varint_bytes(encode_utf8(s).len()) + encode_utf8(s)
}

pub open spec fn fixed32_field_bytes(tag: nat, v: u32) -> Seq<u8> {
    key_bytes(tag, 5) + le_bytes(v)
}

pub open spec fn uint64_field_bytes(tag: nat, v: u64) -> Seq<u8> {
    key_bytes(tag, 0) + varint_bytes(v as nat)
}

/// The bytes a reading is sent as: its three fields in tag order.
pub open spec fn encoding_of(r: ReadingModel) -> Seq<u8> {
    string_field_bytes(1, r.device_id) + fixed32_field_bytes(2, r.value_bits) + uint64_field_bytes(
        3,
        r.timestamp,
    )
}

// ---------------------------------------------------------------------
// Decoding rules
// ---------------------------------------------------------------------
/// A field key at the front of `b`: tag, wire type and length. The key must
/// fit in 32 bits, name a wire type up to 5 and a tag of at least 1.
pub open spec fn parse_key(b: Seq<u8>) -> Option<(nat, nat, nat)> {
    match parse_varint(b) {
        Some((k, n)) => {
            if k <= u32::MAX && k % 8 <= 5 && k / 8 >= 1 {
                Some((k / 8, k % 8, n))
            } else {
                None
            }
        },
        None => None,
    }
}

/// A string field's body after its key: a length, then that many bytes of
/// UTF-8. Gives the characters and the bytes taken.
pub open spec fn string_body(wire: nat, b: Seq<u8>) -> Option<(Seq<char>, nat)> {
    if wire != 2 {
        None
    } else {
        match parse_varint(b) {
            Some((len, n)) => {
                if n + len > b.len() {
                    None
                } else if !valid_utf8(b.subrange(n as int, (n + len) as int)) {
                    None
                } else {
                    Some((decode_utf8(b.subrange(n as int, (n + len) as int)), n + len))
                }
            },
            None => None,
        }
    }
}

/// A four-byte field's body after its key.
pub open spec fn fixed32_body(wire: nat, b: Seq<u8>) -> Option<(nat, nat)> {
    if wire != 5 || b.len() < 4 {
        None
    } else {
        Some((le_value(b), 4nat))
    }
}

/// A varint field's body after its key.
pub open spec fn uint64_body(wire: nat, b: Seq<u8>) -> Option<(nat, nat)> {
    if wire != 0 {
        None
    } else {
        parse_varint(b)
    }
}

/// How many bytes the body of a field of another tag takes. Groups are not
/// part of this schema and are refused.
pub open spec fn skipped_body(wire: nat, b: Seq<u8>) -> Option<nat> {
    if wire == 0 {
        match parse_varint(b) {
            Some((v, n)) => Some(n),
            None => None,
        }
    } else if wire == 1 {
        if b.len() >= 8 {
            Some(8nat)
        } else {
            None
        }
    } else if wire == 2 {
        match parse_varint(b) {
            Some((len, n)) => if n + len <= b.len() {
                Some(n + len)
            } else {
                None
            },
            None => None,
        }
    } else if wire == 5 {
        if b.len() >= 4 {
            Some(4nat)
        } else {
            None
        }
    } else {
        None
    }
}

/// One field's body: the reading with that field applied (the last
/// occurrence of a field wins) and the bytes taken.
pub open spec fn field_step(tag: nat, wire: nat, b: Seq<u8>, acc: ReadingModel) -> Option<
    (ReadingModel, nat),
> {
    if tag == 1 {
        match string_body(wire, b) {
            Some((s, m)) => Some((ReadingModel { device_id: s, ..acc }, m)),
            None => None,
        }
    } else if tag == 2 {
        match fixed32_body(wire, b) {
            Some((v, m)) => Some((ReadingModel { value_bits: v as u32, ..acc }, m)),
            None => None,
        }
    } else if tag == 3 {
        match uint64_body(wire, b) {
            Some((v, m)) => Some((ReadingModel { timestamp: v as u64, ..acc }, m)),
            None => None,
        }
    } else {
        match skipped_body(wire, b) {
            Some(m) => Some((acc, m)),
            None => None,
        }
    }
}

/// Applies the fields of `b`, one after the other, to `acc`.
pub open spec fn decode_fields(b: Seq<u8>, acc: ReadingModel) -> Option<ReadingModel>
    decreases b.len(),
{
    if b.len() == 0 {
        Some(acc)
    } else {
        match parse_key(b) {
            Some((tag, wire, n)) => {
                let rest = b.subrange(n as int, b.len() as int);
                match field_step(tag, wire, rest, acc) {
                    Some((next, m)) => {
                        if 1 <= n && n + m <= b.len() {
                            decode_fields(rest.subrange(m as int, rest.len() as int), next)
                        } else {
                            None
                        }
                    },
                    None => None,
                }
            },
            None => None,
        }
    }
}

/// The reading a payload decodes to, if it is well formed.
pub open spec fn decoding_of(b: Seq<u8>) -> Option<ReadingModel> {
    decode_fields(b, default_model())
}

/// `tail` is what is left of `b` once its first `n` bytes are taken.
pub open spec fn leaves(b: Seq<u8>, n: nat, tail: Seq<u8>) -> bool {
    n <= b.len() && tail == b.subrange(n as int, b.len() as int)
}

// ---------------------------------------------------------------------
// prost's field primitives
// ---------------------------------------------------------------------
#[verifier::external_type_specification]
#[verifier::external_body]
pub struct ExDecodeError(prost::DecodeError);

/// Relies on prost::encoding::string::encode: the key with wire type 2, the
/// byte length as a varint, then the string's UTF-8 bytes.
#[verifier::external_body]
fn put_string_field(tag: u32, value: &String, buf: &mut Vec<u8>)
    requires
        1 <= tag < 0x2000_0000,
    ensures
        final(buf)@ == old(buf)@ + string_field_bytes(tag as nat, value@),
{
    prost::encoding::string::encode(tag, value, buf)
}

/// Relies on prost::encoding::fixed32::encode: the key with wire type 5,
/// then the four bytes of the value, least significant first.
#[verifier::external_body]
fn put_fixed32_field(tag: u32, value: u32, buf: &mut Vec<u8>)
    requires
        1 <= tag < 0x2000_0000,
    ensures
        final(buf)@ == old(buf)@ + fixed32_field_bytes(tag as nat, value),
{
    prost::encoding::fixed32::encode(tag, &value, buf)
}

/// Relies on prost::encoding::uint64::encode: the key with wire type 0,
/// then the value as a varint.
#[verifier::external_body]
fn put_uint64_field(tag: u32, value: u64, buf: &mut Vec<u8>)
    requires
        1 <= tag < 0x2000_0000,
    ensures
        final(buf)@ == old(buf)@ + uint64_field_bytes(tag as nat, value),
{
    prost::encoding::uint64::encode(tag, &value, buf)
}

/// Relies on prost::encoding::decode_key: reads a field key, refusing one
/// over 32 bits, with a wire type over 5 or with tag 0.
#[verifier::external_body]
fn read_key<'a>(b: &'a [u8]) -> (r: Result<(u32, u8, &'a [u8]), prost::DecodeError>)
    ensures
        match r {
            Ok((tag, wire, tail)) => parse_key(b@) == Some(
                (tag as nat, wire as nat, (b@.len() - tail@.len()) as nat),
            ) && leaves(b@, (b@.len() - tail@.len()) as nat, tail@),
            Err(_) => parse_key(b@) is None,
        },
{
    let mut s = b;
    let (tag, wire) = prost::encoding::decode_key(&mut s)?;
    Ok((tag, wire as u8, s))
}

/// Relies on prost::encoding::string::merge: checks the wire type, reads the
/// length and that many bytes, and keeps them if they are UTF-8.
#[verifier::external_body]
fn read_string_body<'a>(wire: u8, b: &'a [u8]) -> (r: Result<(String, &'a [u8]), prost::DecodeError>)
    requires
        wire <= 5,
    ensures
        match r {
            Ok((s, tail)) => string_body(wire as nat, b@) == Some(
                (s@, (b@.len() - tail@.len()) as nat),
            ) && leaves(b@, (b@.len() - tail@.len()) as nat, tail@),
            Err(_) => string_body(wire as nat, b@) is None,
        },
{
    let mut s = b;
    let mut value = String::new();
    let wire_type = prost::encoding::WireType::try_from(u64::from(wire))?;
    prost::encoding::string::merge(wire_type, &mut value, &mut s, Default::default())?;
    Ok((value, s))
}

/// Relies on prost::encoding::fixed32::merge: checks the wire type and reads
/// four bytes, least significant first.
#[verifier::external_body]
fn read_fixed32_body<'a>(wire: u8, b: &'a [u8]) -> (r: Result<(u32, &'a [u8]), prost::DecodeError>)
    requires
        wire <= 5,
    ensures
        match r {
            Ok((v, tail)) => fixed32_body(wire as nat, b@) == Some(
                (v as nat, (b@.len() - tail@.len()) as nat),
            ) && leaves(b@, (b@.len() - tail@.len()) as nat, tail@),
            Err(_) => fixed32_body(wire as nat, b@) is None,
        },
{
    let mut s = b;
    let mut value = 0u32;
    let wire_type = prost::encoding::WireType::try_from(u64::from(wire))?;
    prost::encoding::fixed32::merge(wire_type, &mut value, &mut s, Default::default())?;
    Ok((value, s))
}

/// Relies on prost::encoding::uint64::merge: checks the wire type and reads a
/// varint.
#[verifier::external_body]
fn read_uint64_body<'a>(wire: u8, b: &'a [u8]) -> (r: Result<(u64, &'a [u8]), prost::DecodeError>)
    requires
        wire <= 5,
    ensures
        match r {
            Ok((v, tail)) => uint64_body(wire as nat, b@) == Some(
                (v as nat, (b@.len() - tail@.len()) as nat),
            ) && leaves(b@, (b@.len() - tail@.len()) as nat, tail@),
            Err(_) => uint64_body(wire as nat, b@) is None,
        },
{
    let mut s = b;
    let mut value = 0u64;
    let wire_type = prost::encoding::WireType::try_from(u64::from(wire))?;
    prost::encoding::uint64::merge(wire_type, &mut value, &mut s, Default::default())?;
    Ok((value, s))
}

/// Relies on prost::encoding::skip_field: passes over the body of a field
/// that is not a group.
#[verifier::external_body]
fn skip_body<'a>(tag: u32, wire: u8, b: &'a [u8]) -> (r: Result<&'a [u8], prost::DecodeError>)
    requires
        wire <= 5,
        wire != WIRE_START_GROUP,
    ensures
        match r {
            Ok(tail) => skipped_body(wire as nat, b@) == Some((b@.len() - tail@.len()) as nat)
                && leaves(b@, (b@.len() - tail@.len()) as nat, tail@),
            Err(_) => skipped_body(wire as nat, b@) is None,
        },
{
    let mut s = b;
    let wire_type = prost::encoding::WireType::try_from(u64::from(wire))?;
    prost::encoding::skip_field(wire_type, tag, &mut s, Default::default())?;
    Ok(s)
}

// ---------------------------------------------------------------------
// Encoding and decoding a reading
// ---------------------------------------------------------------------
/// A payload that does not decode as a reading.
#[derive(Debug, Clone, Copy, PartialEq, Eq, Structural)]
pub enum PayloadError {
    /// The payload breaks the schema: a truncated or overlong varint, a bad
    /// key, a field of the wrong wire type, a group, a length past the end or
    /// a device id that is not UTF-8.
    Malformed,
}

/// The bytes of `r` under the schema.
pub fn encode_reading(r: &Reading) -> (out: Vec<u8>)
    ensures
        out@ == encoding_of(r@),
{
    let mut out: Vec<u8> = Vec::new();
    put_string_field(DEVICE_ID_TAG, &r.device_id, &mut out);
    put_fixed32_field(VALUE_TAG, r.value_bits, &mut out);
    put_uint64_field(TIMESTAMP_TAG, r.timestamp, &mut out);
    proof {
        assert(out@ =~= encoding_of(r@));
    }
    out
}

/// A varint, when there is one, takes at least one byte and no more than
/// there are.
pub proof fn lemma_varint_takes_bytes(b: Seq<u8>, budget: nat)
    ensures
        varint_within(b, budget) matches Some((v, n)) ==> 1 <= n <= b.len(),
    decreases budget,
{
    if budget > 0 && b.len() > 0 && b[0] >= 128 {
        lemma_varint_takes_bytes(b.drop_first(), (budget - 1) as nat);
    }
}

/// The reading that `payload` holds under the schema, or `Malformed` exactly
/// when the payload breaks it.
pub fn decode_reading(payload: &[u8]) -> (r: Result<Reading, PayloadError>)
    ensures
        match r {
            Ok(x) => decoding_of(payload@) == Some(x@),
            Err(e) => decoding_of(payload@) is None && e == PayloadError::Malformed,
        },
{
    let mut rest: &[u8] = payload;
    let mut acc = Reading::empty();
    while rest.len() > 0
        invariant
            decode_fields(rest@, acc@) == decoding_of(payload@),
        decreases rest@.len(),
    {
        let (tag, wire, body) = match read_key(rest) {
            Ok(k) => k,
            Err(_) => return Err(PayloadError::Malformed),
        };
        proof {
            lemma_varint_takes_bytes(rest@, 10);
        }
        let tail: &[u8];
        if tag == DEVICE_ID_TAG {
            match read_string_body(wire, body) {
                Ok((s, t)) => {
                    acc.device_id = s;
                    tail = t;
                },
                Err(_) => return Err(PayloadError::Malformed),
            }
        } else if tag == VALUE_TAG {
            match read_fixed32_body(wire, body) {
                Ok((v, t)) => {
                    acc.value_bits = v;
                    tail = t;
                },
                Err(_) => return Err(PayloadError::Malformed),
            }
        } else if tag == TIMESTAMP_TAG {
            match read_uint64_body(wire, body) {
                Ok((v, t)) => {
                    acc.timestamp = v;
                    tail = t;
                },
                Err(_) => return Err(PayloadError::Malformed),
            }
        } else if wire == WIRE_START_GROUP {
            return Err(PayloadError::Malformed);
        } else {
            match skip_body(tag, wire, body) {
                Ok(t) => {
                    tail = t;
                },
                Err(_) => return Err(PayloadError::Malformed),
            }
        }
        rest = tail;
    }
    Ok(acc)
}

// ---------------------------------------------------------------------
// Round trip
// ---------------------------------------------------------------------
/// The values below which a varint of `budget` bytes can be read back.
pub open spec fn varint_cap(budget: nat) -> nat
    decreases budget,
{
    if budget <= 1 {
        2
    } else {
        128 * varint_cap((budget - 1) as nat)
    }
}

pub proof fn lemma_varint_cap_ten()
    ensures
        varint_cap(10) == 0x1_0000_0000_0000_0000nat,
{
    reveal_with_fuel(varint_cap, 10);
}

/// A varint written for `v` reads back as `v`, whatever follows it.
pub proof fn lemma_varint_round_trip(v: nat, tail: Seq<u8>, budget: nat)
    requires
        1 <= budget,
        v < varint_cap(budget),
    ensures
        varint_within(varint_bytes(v) + tail, budget) == Some((v, varint_bytes(v).len())),
    decreases v,
{
    let b = varint_bytes(v) + tail;
    if v < 128 {
        assert(b[0] == v as u8);
    } else {
        assert(budget >= 2);
        let rest = varint_bytes(v / 128);
        assert(b.drop_first() =~= rest + tail);
        assert(v / 128 < varint_cap((budget - 1) as nat)) by (nonlinear_arith)
            requires
                v < 128 * varint_cap((budget - 1) as nat),
        ;
        lemma_varint_round_trip(v / 128, tail, (budget - 1) as nat);
        assert(b[0] == (v % 128 + 128) as u8);
        assert(v % 128 + 128 * (v / 128) == v) by (nonlinear_arith);
    }
}

/// A u64 written as a varint is read back by `parse_varint`.
pub proof fn lemma_parse_varint_round_trip(v: nat, tail: Seq<u8>)
    requires
        v <= u64::MAX,
    ensures
        parse_varint(varint_bytes(v) + tail) == Some((v, varint_bytes(v).len())),
{
    lemma_varint_cap_ten();
    lemma_varint_round_trip(v, tail, 10);
}

pub proof fn lemma_le_round_trip(v: u32, tail: Seq<u8>)
    ensures
        le_value(le_bytes(v) + tail) == v,
{
    let b = le_bytes(v) + tail;
    assert(b[0] == (v % 0x100) as u8 && b[1] == (v / 0x100 % 0x100) as u8);
    assert(b[2] == (v / 0x10000 % 0x100) as u8 && b[3] == (v / 0x1000000) as u8);
    assert((v % 0x100) + 0x100 * (v / 0x100 % 0x100) + 0x10000 * (v / 0x10000 % 0x100) + 0x1000000 * (
    v / 0x1000000) == v) by (bit_vector);
}

/// Reads the key of a field of tag 1 to 3 back.
proof fn lemma_key_round_trip(tag: nat, wire: nat, tail: Seq<u8>)
    requires
        1 <= tag <= 3,
        wire <= 5,
    ensures
        parse_key(key_bytes(tag, wire) + tail) == Some((tag, wire, 1nat)),
{
    lemma_parse_varint_round_trip(tag * 8 + wire, tail);
}

proof fn lemma_string_field(s: Seq<char>, tail: Seq<u8>, acc: ReadingModel)
    requires
        encode_utf8(s).len() <= u64::MAX,
    ensures
        decode_fields(string_field_bytes(1, s) + tail, acc) == decode_fields(
            tail,
            ReadingModel { device_id: s, ..acc },
        ),
{
    let u = encode_utf8(s);
    let lv = varint_bytes(u.len());
    let b = string_field_bytes(1, s) + tail;
    lemma_key_round_trip(1, 2, lv + u + tail);
    assert(b =~= key_bytes(1, 2) + (lv + u + tail));
    let rest = b.subrange(1, b.len() as int);
    assert(rest =~= lv + (u + tail));
    lemma_parse_varint_round_trip(u.len(), u + tail);
    assert(rest.subrange(lv.len() as int, (lv.len() + u.len()) as int) =~= u);
    vstd::utf8::encode_utf8_valid_utf8(s);
    vstd::utf8::encode_utf8_decode_utf8(s);
    assert(rest.subrange((lv.len() + u.len()) as int, rest.len() as int) =~= tail);
}

proof fn lemma_fixed32_field(v: u32, tail: Seq<u8>, acc: ReadingModel)
    ensures
        decode_fields(fixed32_field_bytes(2, v) + tail, acc) == decode_fields(
            tail,
            ReadingModel { value_bits: v, ..acc },
        ),
{
    let b = fixed32_field_bytes(2, v) + tail;
    lemma_key_round_trip(2, 5, le_bytes(v) + tail);
    assert(b =~= key_bytes(2, 5) + (le_bytes(v) + tail));
    let rest = b.subrange(1, b.len() as int);
    assert(rest =~= le_bytes(v) + tail);
    lemma_le_round_trip(v, tail);
    assert(rest.subrange(4, rest.len() as int) =~= tail);
}

proof fn lemma_uint64_field(v: u64, tail: Seq<u8>, acc: ReadingModel)
    ensures
        decode_fields(uint64_field_bytes(3, v) + tail, acc) == decode_fields(
            tail,
            ReadingModel { timestamp: v, ..acc },
        ),
{
    let b = uint64_field_bytes(3, v) + tail;
    let vb = varint_bytes(v as nat);
    lemma_key_round_trip(3, 0, vb + tail);
    assert(b =~= key_bytes(3, 0) + (vb + tail));
    let rest = b.subrange(1, b.len() as int);
    assert(rest =~= vb + tail);
    lemma_parse_varint_round_trip(v as nat, tail);
    assert(rest.subrange(vb.len() as int, rest.len() as int) =~= tail);
}

/// Decoding the encoding of a reading gives back every field bit for bit:
/// the device id, the float's bit pattern (NaN and infinities included) and
/// the time stamp, for every value of each.
pub proof fn lemma_round_trip(r: ReadingModel)
    requires
        encode_utf8(r.device_id).len() <= u64::MAX,
    ensures
        decoding_of(encoding_of(r)) == Some(r),
{
    let f1 = string_field_bytes(1, r.device_id);
    let f2 = fixed32_field_bytes(2, r.value_bits);
    let f3 = uint64_field_bytes(3, r.timestamp);
    let empty = Seq::<u8>::empty();
    assert(encoding_of(r) =~= f1 + (f2 + (f3 + empty)));
    lemma_string_field(r.device_id, f2 + (f3 + empty), default_model());
    let a1 = ReadingModel { device_id: r.device_id, ..default_model() };
    lemma_fixed32_field(r.value_bits, f3 + empty, a1);
    let a2 = ReadingModel { value_bits: r.value_bits, ..a1 };
    lemma_uint64_field(r.timestamp, empty, a2);
    let a3 = ReadingModel { timestamp: r.timestamp, ..a2 };
    assert(a3 == r);
}

} // verus!
