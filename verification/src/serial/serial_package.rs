//! Building complete DJI serial frames.
//!
//! A frame is `SOF | data_len (u16 LE) | seq | CRC8 | cmd_id (u16 LE) | data | CRC16 (LE)`:
//! the CRC8 covers the first four header bytes, the CRC16 everything before it.

use vstd::prelude::*;
use crate::serial::serial_crc::{append_crc16, append_crc8, crc16_of, crc8_of, hi, lo};
use crate::shared_data::{SerialFrameHeader, FRAME_HEADER_SOF};
use crate::wire::{le_bytes, lemma_le2, write_bytes, write_le};

verus! {

/// A complete frame: header, command, payload and frame check.
#[derive(Debug, Clone, Default)]
pub struct SerialFrame {
    pub frame_header: SerialFrameHeader,
    pub cmd_id: u16,
    pub data: Vec<u8>,
    pub crc16: u16,
}

impl SerialFrame {
    /// The bytes of the frame on the wire.
    pub open spec fn spec_bytes(self) -> Seq<u8> {
        self.frame_header.spec_encode() + le_bytes(self.cmd_id as nat, 2) + self.data@ + le_bytes(
            self.crc16 as nat,
            2,
        )
    }

    /// Serializes the frame as it goes on the wire.
    pub fn to_bytes(&self) -> (r: Vec<u8>)
        ensures
            r@ == self.spec_bytes(),
    {
        let mut out = self.frame_header.to_bytes();
        write_le(&mut out, self.cmd_id as u64, 2);
        write_bytes(&mut out, self.data.as_slice());
        write_le(&mut out, self.crc16 as u64, 2);
        assert(out@ =~= self.spec_bytes());
        out
    }
}

/// The header of a frame carrying `len` payload bytes, before its CRC8.
pub open spec fn raw_header(len: nat, seq: u8) -> SerialFrameHeader {
    SerialFrameHeader { sof: FRAME_HEADER_SOF, data_len: len as u16, seq, crc8: 0 }
}

/// The four header bytes that the CRC8 covers.
pub open spec fn header_head(len: nat, seq: u8) -> Seq<u8> {
    raw_header(len, seq).spec_encode().subrange(0, 4)
}

/// The closed header of a frame carrying `len` payload bytes.
pub open spec fn frame_header_for(len: nat, seq: u8) -> SerialFrameHeader {
    SerialFrameHeader { crc8: crc8_of(header_head(len, seq)), ..raw_header(len, seq) }
}

/// Everything of a frame that the CRC16 covers.
pub open spec fn frame_body(cmd_id: u16, data: Seq<u8>, seq: u8) -> Seq<u8> {
    frame_header_for(data.len(), seq).spec_encode() + le_bytes(cmd_id as nat, 2) + data
}

/// The wire bytes of the frame that carries `data` under `cmd_id` with sequence number `seq`.
pub open spec fn frame_bytes(cmd_id: u16, data: Seq<u8>, seq: u8) -> Seq<u8> {
    let body = frame_body(cmd_id, data, seq);
    body + le_bytes(crc16_of(body) as nat, 2)
}

/// Builds a complete frame around `data`, numbered `seq`, with its header CRC8
/// and frame CRC16. The header's length field is `data.len()` cut to 16 bits.
pub fn serial_package(cmd_id: u16, data: Vec<u8>, seq: u8) -> (r: SerialFrame)
    ensures
        r.frame_header == frame_header_for(data@.len(), seq),
        r.cmd_id == cmd_id,
        r.data@ == data@,
        r.crc16 == crc16_of(frame_body(cmd_id, data@, seq)),
        r.spec_bytes() == frame_bytes(cmd_id, data@, seq),
{
    let mut frame_header = SerialFrameHeader {
        sof: FRAME_HEADER_SOF,
        data_len: #[verifier::truncate] (data.len() as u16),
        seq: seq,
        crc8: 0,
    };
    let mut header_bytes = frame_header.to_bytes();
    proof {
        frame_header.lemma_roundtrip();
        assert(header_bytes@.drop_last() =~= header_head(data@.len(), seq));
    }
    let crc8 = append_crc8(&mut header_bytes);
    frame_header.crc8 = match crc8 {
        Some(c) => c,
        None => 0,
    };
    let mut package = SerialFrame { frame_header, cmd_id, data, crc16: 0 };
    let mut package_bytes = package.to_bytes();
    let ghost body = frame_body(cmd_id, package.data@, seq);
    proof {
        frame_header.lemma_roundtrip();
        assert(package_bytes@.subrange(0, package_bytes@.len() - 2) =~= body);
    }
    let crc16 = append_crc16(&mut package_bytes);
    package.crc16 = match crc16 {
        Some(c) => c,
        None => 0,
    };
    proof {
        let c = crc16_of(body);
        lemma_le2(c);
        assert(package.spec_bytes() =~= frame_bytes(cmd_id, package.data@, seq));
    }
    package
}

/// Numbers the frames that one sender emits, wrapping after 255.
#[derive(Debug, Clone, Copy, Default)]
pub struct FrameSequencer {
    pub next: u8,
}

impl FrameSequencer {
    /// Packages `data` under `cmd_id` with the next sequence number.
    pub fn package(&mut self, cmd_id: u16, data: Vec<u8>) -> (r: SerialFrame)
        ensures
            r.spec_bytes() == frame_bytes(cmd_id, data@, old(self).next),
            r.frame_header == frame_header_for(data@.len(), old(self).next),
            r.crc16 == crc16_of(frame_body(cmd_id, data@, old(self).next)),
            r.cmd_id == cmd_id,
            r.data@ == data@,
            final(self).next == (if old(self).next == 255 { 0 } else { (old(self).next + 1) as u8 }),
    {
        let seq = self.next;
        self.next = if seq == 255 { 0 } else { seq + 1 };
        serial_package(cmd_id, data, seq)
    }
}

}
