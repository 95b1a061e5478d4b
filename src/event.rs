//! The kernel's input-event record: its fields, its byte layout, and the
//! predicates that classify it.
//!
//! The layout is that of a 64-bit little-endian Linux kernel: two 64-bit
//! timestamp words, then the 16-bit type, the 16-bit code and the 32-bit
//! value, 24 bytes in all, without padding.
use vstd::prelude::*;
use vstd::bytes::*;
use vstd::slice::slice_subrange;

verus! {

/// Event class of key events.
pub const EV_KEY: u16 = 1;

/// `value` of a key release.
pub const KEY_RELEASE: i32 = 0;

/// `value` of a key press.
pub const KEY_PRESS: i32 = 1;

/// Key code of the left shift key.
pub const KEY_LEFTSHIFT: u16 = 42;

/// Key code of the right shift key.
pub const KEY_RIGHTSHIFT: u16 = 54;

/// Size in bytes of one encoded record.
pub const EVENT_SIZE: usize = 24;

/// One input event as the kernel reports it.
#[derive(Debug, Clone, Copy, PartialEq, Eq, Structural)]
pub struct InputEvent {
    /// Timestamp, whole seconds.
    pub tv_sec: i64,
    /// Timestamp, microseconds within the second.
    pub tv_usec: i64,
    /// Event class; key events are `EV_KEY`.
    pub type_: u16,
    /// Key identifier.
    pub code: u16,
    /// Release (0), press (1), autorepeat (2) or another value.
    pub value: i32,
}

/// Why a buffer could not be decoded into a record.
#[derive(Debug, Clone, Copy, PartialEq, Eq, Structural)]
pub enum DecodeError {
    /// The buffer does not hold exactly one record.
    ShortRead,
}

/// The two's complement reading of a 64-bit word.
pub open spec fn signed64(u: u64) -> int {
    if u < 0x8000_0000_0000_0000 {
        u as int
    } else {
        u as int - 0x1_0000_0000_0000_0000
    }
}

/// The 64-bit word whose two's complement reading is `i`.
pub open spec fn unsigned64(i: int) -> u64 {
    if i >= 0 {
        i as u64
    } else {
        (i + 0x1_0000_0000_0000_0000) as u64
    }
}

/// The two's complement reading of a 32-bit word.
pub open spec fn signed32(u: u32) -> int {
    if u < 0x8000_0000 {
        u as int
    } else {
        u as int - 0x1_0000_0000
    }
}

/// The 32-bit word whose two's complement reading is `i`.
pub open spec fn unsigned32(i: int) -> u32 {
    if i >= 0 {
        i as u32
    } else {
        (i + 0x1_0000_0000) as u32
    }
}

/// The record that a buffer of `EVENT_SIZE` bytes holds.
pub open spec fn record_of(b: Seq<u8>) -> InputEvent {
    InputEvent {
        tv_sec: signed64(spec_u64_from_le_bytes(b.subrange(0, 8))) as i64,
        tv_usec: signed64(spec_u64_from_le_bytes(b.subrange(8, 16))) as i64,
        type_: spec_u16_from_le_bytes(b.subrange(16, 18)),
        code: spec_u16_from_le_bytes(b.subrange(18, 20)),
        value: signed32(spec_u32_from_le_bytes(b.subrange(20, 24))) as i32,
    }
}

/// The bytes that encode record `e`.
pub open spec fn bytes_of(e: InputEvent) -> Seq<u8> {
    spec_u64_to_le_bytes(unsigned64(e.tv_sec as int)) + spec_u64_to_le_bytes(
        unsigned64(e.tv_usec as int),
    ) + spec_u16_to_le_bytes(e.type_) + spec_u16_to_le_bytes(e.code) + spec_u32_to_le_bytes(
        unsigned32(e.value as int),
    )
}

fn to_signed64(u: u64) -> (r: i64)
    ensures
        r as int == signed64(u),
{
    if u < 0x8000_0000_0000_0000 {
        u as i64
    } else {
        (u - 0x8000_0000_0000_0000) as i64 + i64::MIN
    }
}

fn to_unsigned64(i: i64) -> (r: u64)
    ensures
        r == unsigned64(i as int),
{
    if i >= 0 {
        i as u64
    } else {
        (i - i64::MIN) as u64 + 0x8000_0000_0000_0000
    }
}

fn to_signed32(u: u32) -> (r: i32)
    ensures
        r as int == signed32(u),
{
    if u < 0x8000_0000 {
        u as i32
    } else {
        (u - 0x8000_0000) as i32 + i32::MIN
    }
}

fn to_unsigned32(i: i32) -> (r: u32)
    ensures
        r == unsigned32(i as int),
{
    if i >= 0 {
        i as u32
    } else {
        (i - i32::MIN) as u32 + 0x8000_0000
    }
}

/// Decodes one record from `buf`, which must hold exactly `EVENT_SIZE` bytes.
pub fn decode(buf: &[u8]) -> (r: Result<InputEvent, DecodeError>)
    ensures
        buf@.len() != EVENT_SIZE ==> r == Err::<InputEvent, DecodeError>(DecodeError::ShortRead),
        buf@.len() == EVENT_SIZE ==> r == Ok::<InputEvent, DecodeError>(record_of(buf@)),
{
    if buf.len() != EVENT_SIZE {
        return Err(DecodeError::ShortRead);
    }
    let sec = u64_from_le_bytes(slice_subrange(buf, 0, 8));
    let usec = u64_from_le_bytes(slice_subrange(buf, 8, 16));
    let type_ = u16_from_le_bytes(slice_subrange(buf, 16, 18));
    let code = u16_from_le_bytes(slice_subrange(buf, 18, 20));
    let value = u32_from_le_bytes(slice_subrange(buf, 20, 24));
    Ok(
        InputEvent {
            tv_sec: to_signed64(sec),
            tv_usec: to_signed64(usec),
            type_,
            code,
            value: to_signed32(value),
        },
    )
}

/// Encodes record `e` in the kernel's layout.
pub fn encode(e: &InputEvent) -> (r: Vec<u8>)
    ensures
        r@ == bytes_of(*e),
        r@.len() == EVENT_SIZE,
{
    proof {
        lemma_auto_spec_u64_to_from_le_bytes();
        lemma_auto_spec_u32_to_from_le_bytes();
        lemma_auto_spec_u16_to_from_le_bytes();
    }
    let mut out = u64_to_le_bytes(to_unsigned64(e.tv_sec));
    let mut usec = u64_to_le_bytes(to_unsigned64(e.tv_usec));
    let mut type_ = u16_to_le_bytes(e.type_);
    let mut code = u16_to_le_bytes(e.code);
    let mut value = u32_to_le_bytes(to_unsigned32(e.value));
    out.append(&mut usec);
    out.append(&mut type_);
    out.append(&mut code);
    out.append(&mut value);
    out
}

/// Decoding what `encode` wrote gives the record back.
pub proof fn lemma_decode_encode(e: InputEvent)
    ensures
        bytes_of(e).len() == EVENT_SIZE,
        record_of(bytes_of(e)) == e,
{
    lemma_auto_spec_u64_to_from_le_bytes();
    lemma_auto_spec_u32_to_from_le_bytes();
    lemma_auto_spec_u16_to_from_le_bytes();
    let a = spec_u64_to_le_bytes(unsigned64(e.tv_sec as int));
    let b = spec_u64_to_le_bytes(unsigned64(e.tv_usec as int));
    let c = spec_u16_to_le_bytes(e.type_);
    let d = spec_u16_to_le_bytes(e.code);
    let f = spec_u32_to_le_bytes(unsigned32(e.value as int));
    let s = bytes_of(e);
    assert(s.subrange(0, 8) =~= a);
    assert(s.subrange(8, 16) =~= b);
    assert(s.subrange(16, 18) =~= c);
    assert(s.subrange(18, 20) =~= d);
    assert(s.subrange(20, 24) =~= f);
}

/// Encoding a decoded buffer gives the buffer back: no two buffers decode
/// to the same record.
pub proof fn lemma_encode_decode(b: Seq<u8>)
    requires
        b.len() == EVENT_SIZE,
    ensures
        bytes_of(record_of(b)) == b,
{
    lemma_auto_spec_u64_to_from_le_bytes();
    lemma_auto_spec_u32_to_from_le_bytes();
    lemma_auto_spec_u16_to_from_le_bytes();
    let r = record_of(b);
    assert(spec_u64_to_le_bytes(spec_u64_from_le_bytes(b.subrange(0, 8))) == b.subrange(0, 8));
    assert(spec_u64_to_le_bytes(spec_u64_from_le_bytes(b.subrange(8, 16))) == b.subrange(8, 16));
    assert(spec_u16_to_le_bytes(spec_u16_from_le_bytes(b.subrange(16, 18))) == b.subrange(16, 18));
    assert(spec_u16_to_le_bytes(spec_u16_from_le_bytes(b.subrange(18, 20))) == b.subrange(18, 20));
    assert(spec_u32_to_le_bytes(spec_u32_from_le_bytes(b.subrange(20, 24))) == b.subrange(20, 24));
    assert(bytes_of(r) =~= b);
}

/// Whether `code` is one of the two shift keys.
pub fn is_shift(code: u16) -> (r: bool)
    ensures
        r == (code == KEY_LEFTSHIFT || code == KEY_RIGHTSHIFT),
{
    code == KEY_LEFTSHIFT || code == KEY_RIGHTSHIFT
}

/// Whether an event of class `type_` is a key event.
pub fn is_key_event(type_: u16) -> (r: bool)
    ensures
        r == (type_ == EV_KEY),
{
    type_ == EV_KEY
}

/// Whether a key event with `value` is a press.
pub fn is_key_press(value: i32) -> (r: bool)
    ensures
        r == (value == KEY_PRESS),
{
    value == KEY_PRESS
}

/// Whether a key event with `value` is a release.
pub fn is_key_release(value: i32) -> (r: bool)
    ensures
        r == (value == KEY_RELEASE),
{
    value == KEY_RELEASE
}

} // verus!
