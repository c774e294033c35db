//! Input device protocol: operation labels and the event record.

use vstd::prelude::*;
use crate::wire::{lemma_u32_le_round_trip, read_u32_le, spec_le_u32, spec_u32_le};

verus! {

pub const READ_EVENT: usize = 1;

/// Bytes of an encoded event: kind and code as little-endian 16-bit
/// words, then the value as a little-endian 32-bit word.
pub const INPUT_EVENT_SIZE: usize = 8;

/// One input event.
#[derive(Debug, Clone, Copy, PartialEq, Eq, Structural)]
pub struct InputEvent {
    pub kind: u16,
    pub code: u16,
    pub value: i32,
}

/// The little-endian 16-bit word of `b` at `off`.
pub open spec fn spec_le_u16(b: Seq<u8>, off: int) -> u16 {
    (b[off] as u16) | ((b[off + 1] as u16) << 8u16)
}

/// The event encoded in the first bytes of `b`.
pub open spec fn spec_event_from_bytes(b: Seq<u8>) -> InputEvent {
    InputEvent { kind: spec_le_u16(b, 0), code: spec_le_u16(b, 2), value: spec_le_u32(b, 4) as i32 }
}

/// Decodes an event from bytes that hold a whole one.
pub fn event_from_bytes(b: &[u8]) -> (e: InputEvent)
    requires
        b@.len() >= INPUT_EVENT_SIZE,
    ensures
        e == spec_event_from_bytes(b@),
{
    InputEvent {
        kind: (b[0] as u16) | ((b[1] as u16) << 8u16),
        code: (b[2] as u16) | ((b[3] as u16) << 8u16),
        value: read_u32_le(b, 4) as i32,
    }
}

/// The bytes a device sends for the event `e`: kind and code as
/// little-endian 16-bit words, then the value as a little-endian 32-bit
/// word.
pub open spec fn spec_event_bytes(e: InputEvent) -> Seq<u8> {
    seq![(e.kind & 0xff) as u8, (e.kind >> 8u16) as u8, (e.code & 0xff) as u8, (e.code >> 8u16) as u8]
        + spec_u32_le(e.value as u32)
}

/// Decoding the bytes a device sends for an event gives the event back,
/// whole: every kind, every code (including those above 255) and every
/// value; and the code is read from bytes 2 and 3, low byte first.
pub proof fn lemma_event_round_trip(e: InputEvent, b: Seq<u8>)
    requires
        b.len() >= INPUT_EVENT_SIZE,
    ensures
        spec_event_from_bytes(spec_event_bytes(e)) == e,
        spec_event_from_bytes(b).code == ((b[2] as u16) | ((b[3] as u16) << 8u16)),
        spec_event_from_bytes(b).kind == ((b[0] as u16) | ((b[1] as u16) << 8u16)),
{
    let bytes = spec_event_bytes(e);
    let k = e.kind;
    let c = e.code;
    assert((((k & 0xff) as u8) as u16) | ((((k >> 8u16) as u8) as u16) << 8u16) == k) by (bit_vector);
    assert((((c & 0xff) as u8) as u16) | ((((c >> 8u16) as u8) as u16) << 8u16) == c) by (bit_vector);
    lemma_u32_le_round_trip(e.value as u32, seq![(k & 0xff) as u8, (k >> 8u16) as u8, (c & 0xff) as u8, (c >> 8u16) as u8], Seq::empty());
    assert(bytes =~= seq![(k & 0xff) as u8, (k >> 8u16) as u8, (c & 0xff) as u8, (c >> 8u16) as u8] + spec_u32_le(e.value as u32) + Seq::<u8>::empty());
    let v = e.value;
    assert(((v as u32) as i32) == v) by (bit_vector);
}

} // verus!
