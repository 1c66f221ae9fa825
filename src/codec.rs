use vstd::bytes::*;
use vstd::prelude::*;
use vstd::slice::slice_to_vec;
use vstd::string::StrSliceExecFns;
use vstd::utf8::*;

use crate::error::BotError;
use crate::zoned::{known_zone, zone_is_known, DateTimeZoned};

verus! {

/// The largest payload a frame may carry: 16 MiB.
pub const MAX_FRAME_LEN: u32 = 16 * 1024 * 1024;

/// The envelope written on the bus: a per-publisher id, a payload and the time of publication.
#[derive(Debug)]
pub struct Event<T> {
    pub id: u32,
    pub message: T,
    pub ts: DateTimeZoned,
}

impl<T> Event<T> {
    /// An event with the given id, payload and publication time. The caller reads the clock.
    pub fn new(id: u32, message: T, ts: DateTimeZoned) -> (r: Event<T>)
        ensures
            r.id == id,
            r.message == message,
            r.ts == ts,
    {
        Event { id, message, ts }
    }

    /// The event's id.
    pub fn id(&self) -> (r: u32)
        ensures
            r == self.id,
    {
        self.id
    }
}

/// The bytes of an envelope: id, timestamp, zone name and payload, each integer little-endian and
/// each byte string preceded by its `u32` length.
pub open spec fn event_wire(id: u32, timestamp: i64, zone: Seq<u8>, message: Seq<u8>) -> Seq<u8> {
    spec_u32_to_le_bytes(id) + spec_u64_to_le_bytes(timestamp as u64) + spec_u32_to_le_bytes(
        zone.len() as u32,
    ) + zone + spec_u32_to_le_bytes(message.len() as u32) + message
}

/// The encoding of an event whose payload is already serialized.
pub open spec fn event_bytes(e: Event<Vec<u8>>) -> Seq<u8> {
    event_wire(e.id, e.ts.timestamp, encode_utf8(e.ts.zone@), e.message@)
}

/// The fields of an encoded envelope, when `b` has exactly its layout.
pub open spec fn split_wire(b: Seq<u8>) -> Option<(u32, i64, Seq<u8>, Seq<u8>)> {
    if b.len() < 16 {
        None
    } else {
        let zl = spec_u32_from_le_bytes(b.subrange(12, 16)) as int;
        if b.len() < 20 + zl {
            None
        } else {
            let ml = spec_u32_from_le_bytes(b.subrange(16 + zl, 20 + zl)) as int;
            if b.len() != 20 + zl + ml {
                None
            } else {
                Some(
                    (
                        spec_u32_from_le_bytes(b.subrange(0, 4)),
                        spec_u64_from_le_bytes(b.subrange(4, 12)) as i64,
                        b.subrange(16, 16 + zl),
                        b.subrange(20 + zl, 20 + zl + ml),
                    ),
                )
            }
        }
    }
}

/// A frame on the wire: the payload's length as a little-endian `u32`, then the payload.
pub open spec fn frame_bytes(payload: Seq<u8>) -> Seq<u8> {
    spec_u32_to_le_bytes(payload.len() as u32) + payload
}

/// Relies on std's `str::from_utf8`: it accepts exactly the valid UTF-8 byte sequences and
/// yields the characters they encode.
#[verifier::external_body]
fn utf8_to_string(b: &[u8]) -> (r: Option<String>)
    ensures
        r is Some <==> valid_utf8(b@),
        r matches Some(s) ==> s@ == decode_utf8(b@),
{
    match std::str::from_utf8(b) {
        Ok(s) => Some(s.to_string()),
        Err(_) => None,
    }
}

proof fn lemma_wire_len(id: u32, timestamp: i64, zone: Seq<u8>, message: Seq<u8>)
    ensures
        event_wire(id, timestamp, zone, message).len() == 20 + zone.len() + message.len(),
{
    lemma_auto_spec_u32_to_from_le_bytes();
    lemma_auto_spec_u64_to_from_le_bytes();
}

/// Decoding the encoding of an envelope gives back its fields, when the lengths fit in `u32`.
pub proof fn lemma_split_wire(id: u32, timestamp: i64, zone: Seq<u8>, message: Seq<u8>)
    requires
        zone.len() <= u32::MAX,
        message.len() <= u32::MAX,
    ensures
        split_wire(event_wire(id, timestamp, zone, message)) == Some((id, timestamp, zone, message)),
{
    lemma_auto_spec_u32_to_from_le_bytes();
    lemma_auto_spec_u64_to_from_le_bytes();
    let b = event_wire(id, timestamp, zone, message);
    let zl = zone.len() as int;
    let ml = message.len() as int;
    let a = spec_u32_to_le_bytes(id);
    let t = spec_u64_to_le_bytes(timestamp as u64);
    let z = spec_u32_to_le_bytes(zone.len() as u32);
    let m = spec_u32_to_le_bytes(message.len() as u32);
    assert(b.subrange(0, 4) =~= a);
    assert(b.subrange(4, 12) =~= t);
    assert(b.subrange(12, 16) =~= z);
    assert(b.subrange(16, 16 + zl) =~= zone);
    assert(b.subrange(16 + zl, 20 + zl) =~= m);
    assert(b.subrange(20 + zl, 20 + zl + ml) =~= message);
    assert(((timestamp as u64) as i64) == timestamp) by (bit_vector);
}

/// Bytes that split into envelope fields are exactly the encoding of those fields.
pub proof fn lemma_wire_split(b: Seq<u8>)
    requires
        split_wire(b) is Some,
    ensures
        ({
            let (id, timestamp, zone, message) = split_wire(b)->0;
            event_wire(id, timestamp, zone, message) == b
        }),
{
    lemma_auto_spec_u32_to_from_le_bytes();
    lemma_auto_spec_u64_to_from_le_bytes();
    let (id, timestamp, zone, message) = split_wire(b)->0;
    let zl = spec_u32_from_le_bytes(b.subrange(12, 16)) as int;
    let ml = spec_u32_from_le_bytes(b.subrange(16 + zl, 20 + zl)) as int;
    let u = spec_u64_from_le_bytes(b.subrange(4, 12));
    assert(((u as i64) as u64) == u) by (bit_vector);
    assert(zone.len() == zl);
    assert(message.len() == ml);
    assert(event_wire(id, timestamp, zone, message) =~= b.subrange(0, 4) + b.subrange(4, 12)
        + b.subrange(12, 16) + b.subrange(16, 16 + zl) + b.subrange(16 + zl, 20 + zl)
        + b.subrange(20 + zl, 20 + zl + ml));
    assert(b =~= b.subrange(0, 4) + b.subrange(4, 12) + b.subrange(12, 16) + b.subrange(
        16,
        16 + zl,
    ) + b.subrange(16 + zl, 20 + zl) + b.subrange(20 + zl, 20 + zl + ml));
}

/// Round trip: the encoding of a well-formed event splits back into its id, timestamp and
/// payload, and its zone bytes are valid UTF-8 that decode to the same, known, zone name.
pub proof fn lemma_event_round_trip(e: Event<Vec<u8>>)
    requires
        e.ts.wf(),
        event_bytes(e).len() <= MAX_FRAME_LEN,
    ensures
        split_wire(event_bytes(e)) == Some(
            (e.id, e.ts.timestamp, encode_utf8(e.ts.zone@), e.message@),
        ),
        valid_utf8(encode_utf8(e.ts.zone@)),
        decode_utf8(encode_utf8(e.ts.zone@)) == e.ts.zone@,
        known_zone(decode_utf8(encode_utf8(e.ts.zone@))),
{
    let zone = encode_utf8(e.ts.zone@);
    lemma_wire_len(e.id, e.ts.timestamp, zone, e.message@);
    lemma_split_wire(e.id, e.ts.timestamp, zone, e.message@);
    encode_utf8_valid_utf8(e.ts.zone@);
    encode_utf8_decode_utf8(e.ts.zone@);
}

/// Serializes an envelope whose payload is already serialized.
pub fn encode_event(e: &Event<Vec<u8>>) -> (r: Result<Vec<u8>, BotError>)
    ensures
        r is Ok <==> event_bytes(*e).len() <= MAX_FRAME_LEN,
        r matches Ok(b) ==> b@ == event_bytes(*e),
        r matches Err(err) ==> err is TransportOversize,
{
    let zone = e.ts.zone.as_str().as_bytes_vec();
    proof {
        lemma_wire_len(e.id, e.ts.timestamp, zone@, e.message@);
    }
    let zl = zone.len();
    let ml = e.message.len();
    if zl > MAX_FRAME_LEN as usize || ml > MAX_FRAME_LEN as usize || 20 + zl + ml
        > MAX_FRAME_LEN as usize {
        return Err(
            BotError::TransportOversize { len: (zl as u64).saturating_add(ml as u64).saturating_add(20) },
        );
    }
    let mut out = u32_to_le_bytes(e.id);
    let mut t = u64_to_le_bytes(#[verifier::truncate] (e.ts.timestamp as u64));
    out.append(&mut t);
    let mut zlen = u32_to_le_bytes(zl as u32);
    out.append(&mut zlen);
    let mut z = zone;
    out.append(&mut z);
    let mut mlen = u32_to_le_bytes(ml as u32);
    out.append(&mut mlen);
    let mut m = slice_to_vec(e.message.as_slice());
    out.append(&mut m);
    Ok(out)
}

/// Deserializes an envelope, validating its zone name.
pub fn decode_event(b: &[u8]) -> (r: Result<Event<Vec<u8>>, BotError>)
    ensures
        split_wire(b@) is None ==> r == Err::<Event<Vec<u8>>, BotError>(BotError::TransportDecode),
        split_wire(b@) matches Some((id, timestamp, zone, message)) ==> {
            &&& !valid_utf8(zone) ==> r == Err::<Event<Vec<u8>>, BotError>(
                BotError::TransportDecode,
            )
            &&& valid_utf8(zone) && !known_zone(decode_utf8(zone)) ==> r == Err::<
                Event<Vec<u8>>,
                BotError,
            >(BotError::ZoneUnknown)
            &&& valid_utf8(zone) && known_zone(decode_utf8(zone)) ==> (r matches Ok(e) && e.id
                == id && e.ts.timestamp == timestamp && e.ts.zone@ == decode_utf8(zone)
                && e.message@ == message)
        },
        r matches Ok(e) ==> event_bytes(e) == b@ && e.ts.wf(),
{
    proof {
        lemma_auto_spec_u32_to_from_le_bytes();
        lemma_auto_spec_u64_to_from_le_bytes();
    }
    let n = b.len();
    if n < 16 {
        return Err(BotError::TransportDecode);
    }
    let zl = u32_from_le_bytes(&b[12..16]) as usize;
    if n < 20 || n - 20 < zl {
        return Err(BotError::TransportDecode);
    }
    let ml = u32_from_le_bytes(&b[16 + zl..20 + zl]) as usize;
    if n - 20 - zl != ml {
        return Err(BotError::TransportDecode);
    }
    let id = u32_from_le_bytes(&b[0..4]);
    let timestamp = #[verifier::truncate] (u64_from_le_bytes(&b[4..12]) as i64);
    let zone = match utf8_to_string(&b[16..16 + zl]) {
        Some(z) => z,
        None => return Err(BotError::TransportDecode),
    };
    if !zone_is_known(zone.as_str()) {
        return Err(BotError::ZoneUnknown);
    }
    let message = slice_to_vec(&b[20 + zl..n]);
    proof {
        lemma_wire_split(b@);
        decode_utf8_encode_utf8(b@.subrange(16, 16 + zl as int));
    }
    Ok(Event { id, message, ts: DateTimeZoned { timestamp, zone } })
}

} // verus!
