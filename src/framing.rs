use vstd::bytes::*;
use vstd::prelude::*;

use crate::codec::{decode_event, encode_event, event_bytes, frame_bytes, split_wire, Event, MAX_FRAME_LEN};
use crate::error::BotError;
use crate::zoned::known_zone;
use vstd::utf8::{decode_utf8, valid_utf8};

verus! {

/// A frame carries its payload's length in its first four bytes, then the payload itself: reading
/// the frame of a well-formed event gives the event's own encoding back.
pub proof fn lemma_frame_round_trip(e: Event<Vec<u8>>)
    requires
        e.ts.wf(),
        event_bytes(e).len() <= MAX_FRAME_LEN,
    ensures
        ({
            let f = frame_bytes(event_bytes(e));
            &&& f.len() == 4 + event_bytes(e).len()
            &&& spec_u32_from_le_bytes(f.subrange(0, 4)) == event_bytes(e).len()
            &&& f.subrange(4, f.len() as int) == event_bytes(e)
        }),
{
    lemma_auto_spec_u32_to_from_le_bytes();
    let p = event_bytes(e);
    let f = frame_bytes(p);
    assert(f.subrange(0, 4) =~= spec_u32_to_le_bytes(p.len() as u32));
    assert(f.subrange(4, f.len() as int) =~= p);
}

/// The payload length announced by a frame header, or `TransportOversize` when it exceeds the
/// frame limit. Called before the payload buffer is allocated.
pub fn frame_length(header: &[u8]) -> (r: Result<usize, BotError>)
    requires
        header@.len() == 4,
    ensures
        spec_u32_from_le_bytes(header@) <= MAX_FRAME_LEN ==> r == Ok::<usize, BotError>(
            spec_u32_from_le_bytes(header@) as usize,
        ),
        spec_u32_from_le_bytes(header@) > MAX_FRAME_LEN ==> r == Err::<usize, BotError>(
            BotError::TransportOversize { len: spec_u32_from_le_bytes(header@) as u64 },
        ),
{
    let len = u32_from_le_bytes(header);
    if len > MAX_FRAME_LEN {
        Err(BotError::TransportOversize { len: len as u64 })
    } else {
        Ok(len as usize)
    }
}

/// The frame that carries an event: its encoded length, then its encoding.
pub fn encode_frame(e: &Event<Vec<u8>>) -> (r: Result<Vec<u8>, BotError>)
    ensures
        r is Ok <==> event_bytes(*e).len() <= MAX_FRAME_LEN,
        r matches Ok(b) ==> b@ == frame_bytes(event_bytes(*e)),
        r matches Err(err) ==> err is TransportOversize,
{
    let payload = encode_event(e)?;
    let mut out = u32_to_le_bytes(payload.len() as u32);
    let mut p = payload;
    out.append(&mut p);
    Ok(out)
}

/// Reads the first frame of `b`: the event and the number of bytes it took.
/// Nothing at all is a clean close; a partial header or payload is an I/O failure.
pub fn decode_frame(b: &[u8]) -> (r: Result<(Event<Vec<u8>>, usize), BotError>)
    ensures
        b@.len() == 0 ==> r == Err::<(Event<Vec<u8>>, usize), BotError>(BotError::TransportClosed),
        0 < b@.len() < 4 ==> r == Err::<(Event<Vec<u8>>, usize), BotError>(BotError::TransportIo),
        b@.len() >= 4 ==> ({
            let len = spec_u32_from_le_bytes(b@.subrange(0, 4));
            &&& len > MAX_FRAME_LEN ==> r == Err::<(Event<Vec<u8>>, usize), BotError>(
                BotError::TransportOversize { len: len as u64 },
            )
            &&& len <= MAX_FRAME_LEN && b@.len() < 4 + len ==> r == Err::<
                (Event<Vec<u8>>, usize),
                BotError,
            >(BotError::TransportIo)
            &&& len <= MAX_FRAME_LEN && b@.len() >= 4 + len ==> {
                &&& r matches Ok((_, used)) ==> used == 4 + len
                &&& split_wire(b@.subrange(4, 4 + len)) is None ==> r == Err::<
                    (Event<Vec<u8>>, usize),
                    BotError,
                >(BotError::TransportDecode)
                &&& split_wire(b@.subrange(4, 4 + len)) matches Some((_, _, zone, _)) ==> {
                    &&& !valid_utf8(zone) ==> r == Err::<(Event<Vec<u8>>, usize), BotError>(
                        BotError::TransportDecode,
                    )
                    &&& valid_utf8(zone) && !known_zone(decode_utf8(zone)) ==> r == Err::<
                        (Event<Vec<u8>>, usize),
                        BotError,
                    >(BotError::ZoneUnknown)
                    &&& valid_utf8(zone) && known_zone(decode_utf8(zone)) ==> r is Ok
                }
            }
        }),
        r matches Ok((e, used)) ==> 4 <= used <= b@.len() && event_bytes(e) == b@.subrange(
            4,
            used as int,
        ) && e.ts.wf(),
{
    if b.len() == 0 {
        return Err(BotError::TransportClosed);
    }
    if b.len() < 4 {
        return Err(BotError::TransportIo);
    }
    let len = frame_length(&b[0..4])?;
    if b.len() - 4 < len {
        return Err(BotError::TransportIo);
    }
    let e = decode_event(&b[4..4 + len])?;
    Ok((e, 4 + len))
}

} // verus!
