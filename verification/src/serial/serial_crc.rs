//! CRC8 / CRC16 checks of the DJI referee serial protocol.
//!
//! CRC8 guards the five-byte frame header, CRC16 the whole frame. Both are the
//! reflected table-driven checks of the referee protocol (CRC8 polynomial
//! 0x31 reflected as 0x8C, initial value 0xFF; CRC16 polynomial 0x1021
//! reflected as 0x8408, initial value 0xFFFF), written here bit by bit.
//! A check value is stored after the data it covers, CRC16 little-endian.

use vstd::prelude::*;

verus! {

/// Initial value of the header check.
pub const CRC8_INIT: u8 = 0xFF;

/// Initial value of the frame check.
pub const CRC16_INIT: u16 = 0xFFFF;

/// One reflected shift of the CRC8 register.
pub open spec fn crc8_shift(crc: u8) -> u8 {
    if crc & 1 == 1 {
        (crc >> 1u8) ^ 0x8Cu8
    } else {
        crc >> 1u8
    }
}

/// The CRC8 register after feeding one byte.
pub open spec fn crc8_byte(crc: u8, byte: u8) -> u8 {
    let c0 = crc ^ byte;
    crc8_shift(crc8_shift(crc8_shift(crc8_shift(crc8_shift(crc8_shift(crc8_shift(crc8_shift(c0))))))))
}

/// The CRC8 of a byte sequence, from the protocol's initial value.
pub open spec fn crc8_of(data: Seq<u8>) -> u8
    decreases data.len(),
{
    if data.len() == 0 {
        CRC8_INIT
    } else {
        crc8_byte(crc8_of(data.drop_last()), data.last())
    }
}

/// One reflected shift of the CRC16 register.
pub open spec fn crc16_shift(crc: u16) -> u16 {
    if crc & 1 == 1 {
        (crc >> 1u16) ^ 0x8408u16
    } else {
        crc >> 1u16
    }
}

/// The CRC16 register after feeding one byte.
pub open spec fn crc16_byte(crc: u16, byte: u8) -> u16 {
    let c0 = crc ^ (byte as u16);
    crc16_shift(crc16_shift(crc16_shift(crc16_shift(crc16_shift(crc16_shift(crc16_shift(crc16_shift(c0))))))))
}

/// The CRC16 of a byte sequence, from the protocol's initial value.
pub open spec fn crc16_of(data: Seq<u8>) -> u16
    decreases data.len(),
{
    if data.len() == 0 {
        CRC16_INIT
    } else {
        crc16_byte(crc16_of(data.drop_last()), data.last())
    }
}

/// Low byte of a 16-bit value.
pub open spec fn lo(v: u16) -> u8 {
    (v % 256) as u8
}

/// High byte of a 16-bit value.
pub open spec fn hi(v: u16) -> u8 {
    (v / 256) as u8
}

/// A block whose last byte is the CRC8 of the bytes before it.
pub open spec fn crc8_ok(block: Seq<u8>) -> bool {
    block.len() >= 1 && block.last() == crc8_of(block.drop_last())
}

/// A block whose last two bytes are the little-endian CRC16 of the bytes before them.
pub open spec fn crc16_ok(block: Seq<u8>) -> bool {
    block.len() >= 2 && {
        let c = crc16_of(block.subrange(0, block.len() - 2));
        block[block.len() - 2] == lo(c) && block[block.len() - 1] == hi(c)
    }
}

fn crc8_shift_exec(crc: u8) -> (r: u8)
    ensures
        r == crc8_shift(crc),
{
    if crc & 1 == 1 {
        (crc >> 1u8) ^ 0x8Cu8
    } else {
        crc >> 1u8
    }
}

fn crc8_byte_exec(crc: u8, byte: u8) -> (r: u8)
    ensures
        r == crc8_byte(crc, byte),
{
    let c = crc ^ byte;
    let c = crc8_shift_exec(c);
    let c = crc8_shift_exec(c);
    let c = crc8_shift_exec(c);
    let c = crc8_shift_exec(c);
    let c = crc8_shift_exec(c);
    let c = crc8_shift_exec(c);
    let c = crc8_shift_exec(c);
    crc8_shift_exec(c)
}

fn crc16_shift_exec(crc: u16) -> (r: u16)
    ensures
        r == crc16_shift(crc),
{
    if crc & 1 == 1 {
        (crc >> 1u16) ^ 0x8408u16
    } else {
        crc >> 1u16
    }
}

fn crc16_byte_exec(crc: u16, byte: u8) -> (r: u16)
    ensures
        r == crc16_byte(crc, byte),
{
    let c = crc ^ (byte as u16);
    let c = crc16_shift_exec(c);
    let c = crc16_shift_exec(c);
    let c = crc16_shift_exec(c);
    let c = crc16_shift_exec(c);
    let c = crc16_shift_exec(c);
    let c = crc16_shift_exec(c);
    let c = crc16_shift_exec(c);
    crc16_shift_exec(c)
}

/// CRC8 of the first `len` bytes of `data`.
pub fn crc8_prefix(data: &[u8], len: usize) -> (r: u8)
    requires
        len <= data@.len(),
    ensures
        r == crc8_of(data@.subrange(0, len as int)),
{
    let mut crc = CRC8_INIT;
    let mut i: usize = 0;
    while i < len
        invariant
            i <= len <= data@.len(),
            crc == crc8_of(data@.subrange(0, i as int)),
        decreases len - i,
    {
        assert(data@.subrange(0, i + 1).drop_last() =~= data@.subrange(0, i as int));
        crc = crc8_byte_exec(crc, data[i]);
        i = i + 1;
    }
    crc
}

/// CRC16 of the first `len` bytes of `data`.
pub fn crc16_prefix(data: &[u8], len: usize) -> (r: u16)
    requires
        len <= data@.len(),
    ensures
        r == crc16_of(data@.subrange(0, len as int)),
{
    let mut crc = CRC16_INIT;
    let mut i: usize = 0;
    while i < len
        invariant
            i <= len <= data@.len(),
            crc == crc16_of(data@.subrange(0, i as int)),
        decreases len - i,
    {
        assert(data@.subrange(0, i + 1).drop_last() =~= data@.subrange(0, i as int));
        crc = crc16_byte_exec(crc, data[i]);
        i = i + 1;
    }
    crc
}

/// The CRC8 of all of `data`.
pub fn get_crc8(data: &[u8]) -> (r: u8)
    ensures
        r == crc8_of(data@),
{
    assert(data@.subrange(0, data@.len() as int) =~= data@);
    crc8_prefix(data, data.len())
}

/// The CRC16 of all of `data`.
pub fn get_crc16(data: &[u8]) -> (r: u16)
    ensures
        r == crc16_of(data@),
{
    assert(data@.subrange(0, data@.len() as int) =~= data@);
    crc16_prefix(data, data.len())
}

/// Whether the last byte of `block` is the CRC8 of the bytes before it.
pub fn verify_crc8(block: &[u8]) -> (ok: bool)
    ensures
        ok == crc8_ok(block@),
{
    if block.len() < 1 {
        return false;
    }
    let n = block.len() - 1;
    let c = crc8_prefix(block, n);
    assert(block@.subrange(0, n as int) =~= block@.drop_last());
    c == block[n]
}

/// Whether the last two bytes of `block` are its little-endian CRC16.
pub fn verify_crc16(block: &[u8]) -> (ok: bool)
    ensures
        ok == crc16_ok(block@),
{
    if block.len() < 2 {
        return false;
    }
    let n = block.len() - 2;
    let c = crc16_prefix(block, n);
    block[n] == (c % 256) as u8 && block[n + 1] == (c / 256) as u8
}

/// Writes the CRC8 of all but the last byte into the last byte and returns it;
/// `None`, with `block` unchanged, when there is no byte to write into.
pub fn append_crc8(block: &mut Vec<u8>) -> (r: Option<u8>)
    ensures
        old(block)@.len() < 1 ==> r is None && final(block)@ == old(block)@,
        old(block)@.len() >= 1 ==> {
            &&& r == Some(crc8_of(old(block)@.drop_last()))
            &&& final(block)@ == old(block)@.drop_last().push(crc8_of(old(block)@.drop_last()))
        },
{
    if block.len() < 1 {
        return None;
    }
    let n = block.len() - 1;
    let c = crc8_prefix(block.as_slice(), n);
    assert(block@.subrange(0, n as int) =~= block@.drop_last());
    block.set(n, c);
    assert(block@ =~= old(block)@.drop_last().push(c));
    Some(c)
}

/// Writes the little-endian CRC16 of all but the last two bytes into the last
/// two bytes and returns it; `None`, with `block` unchanged, when fewer than
/// two bytes are there.
pub fn append_crc16(block: &mut Vec<u8>) -> (r: Option<u16>)
    ensures
        old(block)@.len() < 2 ==> r is None && final(block)@ == old(block)@,
        old(block)@.len() >= 2 ==> {
            let body = old(block)@.subrange(0, old(block)@.len() - 2);
            &&& r == Some(crc16_of(body))
            &&& final(block)@ == body.push(lo(crc16_of(body))).push(hi(crc16_of(body)))
        },
{
    if block.len() < 2 {
        return None;
    }
    let n = block.len() - 2;
    let c = crc16_prefix(block.as_slice(), n);
    let ghost body = old(block)@.subrange(0, n as int);
    block.set(n, (c % 256) as u8);
    block.set(n + 1, (c / 256) as u8);
    assert(block@ =~= body.push(lo(c)).push(hi(c)));
    Some(c)
}

/// A block closed by `append_crc8` passes `verify_crc8`.
pub proof fn lemma_append_crc8_verifies(body: Seq<u8>)
    ensures
        crc8_ok(body.push(crc8_of(body))),
{
    assert(body.push(crc8_of(body)).drop_last() =~= body);
}

/// A block closed by `append_crc16` passes `verify_crc16`.
pub proof fn lemma_append_crc16_verifies(body: Seq<u8>)
    ensures
        crc16_ok(body.push(lo(crc16_of(body))).push(hi(crc16_of(body)))),
{
    let b = body.push(lo(crc16_of(body))).push(hi(crc16_of(body)));
    assert(b.subrange(0, b.len() - 2) =~= body);
}

}
