//! The shared runtime state and the records of the DJI referee protocol.
//!
//! Each record knows its wire form: `from_bytes` reads the first bytes of a
//! payload (extra bytes are ignored), `to_bytes` writes it, refusing a bit
//! field whose value is too wide. Words are little-endian and bit fields are
//! packed from the least significant bit up.

use vstd::prelude::*;
use crate::robot_interaction_id::{device_number, DeviceId};
use crate::wire::{
    write_bytes,
    le_bytes, le_value, lemma_field, lemma_i16_bits, lemma_le_roundtrip, lemma_le_value_bound, pow256, read_le, write_le,
    bits_at, lemma_le_word, lemma_word_bits,
};
use crate::robot_fields::{as_signed, lemma_as_signed};
use vstd::arithmetic::power2::{lemma2_to64, lemma2_to64_rest};

verus! {

// ─── DJI protocol constants ───

pub const FRAME_HEADER_SOF: u8 = 0xA5;
pub const FRAME_HEADER_LENGTH: usize = 5;
pub const CMD_ID_LENGTH: usize = 2;
pub const CRC8_LENGTH: usize = 1;
pub const CRC16_LENGTH: usize = 2;
pub const GAME_STATE_CMD_ID: u16 = 0x0001;
pub const GAME_RESULT_CMD_ID: u16 = 0x0002;
pub const SITE_EVENT_CMD_ID: u16 = 0x0101;
pub const DART_LAUNCH_CMD_ID: u16 = 0x0105;
pub const RADAR_MARK_PROCESS_CMD_ID: u16 = 0x020C;
pub const RADAR_AUTONOMOUS_DECISION_SYNC_CMD_ID: u16 = 0x020E;
pub const ROBOT_INTERACTION_CMD_ID: u16 = 0x0301;
pub const RADAR_AUTONOMOUS_DECISION_DATA_CMD_ID: u16 = 0x0121;
pub const RADAR_LOCAL_COMPUTATION_CMD_ID: u16 = 0x0122;
pub const RADAR_INTERACTION_SUBCONTEXT_CMD_ID: u16 = 0x0200;
pub const MINIMAP_RECEIVE_RADAR_CMD_ID: u16 = 0x0305;
pub const SDR_ENEMY_ROBOT_POSITION_CMD_ID: u16 = 0x0A01;
pub const SDR_ENEMY_ROBOT_BLOOD_CMD_ID: u16 = 0x0A02;
pub const SDR_ENEMY_ROBOT_REMAINING_AMMO_CMD_ID: u16 = 0x0A03;
pub const SDR_ENEMY_ROBOT_OVERALL_STATE_CMD_ID: u16 = 0x0A04;
pub const SDR_ENEMY_ROBOT_GAIN_CMD_ID: u16 = 0x0A05;
pub const SDR_JAMMING_KEY_CMD_ID: u16 = 0x0A06;

pub const GAME_STATE_DATA_LEN: usize = 11;
pub const GAME_RESULT_DATA_LEN: usize = 1;
pub const SITE_EVENT_DATA_LEN: usize = 4;
pub const DART_LAUNCH_DATA_LEN: usize = 3;
pub const RADAR_MARK_PROCESS_DATA_LEN: usize = 2;
pub const RADAR_AUTONOMOUS_DECISION_SYNC_DATA_LEN: usize = 1;
pub const ROBOT_INTERACTION_DATA_LEN: usize = 118;
pub const MINIMAP_RECEIVE_RADAR_DATA_LEN: usize = 48;
pub const SDR_ENEMY_ROBOT_POSITION_DATA_LEN: usize = 24;
pub const SDR_ENEMY_ROBOT_BLOOD_DATA_LEN: usize = 12;
pub const SDR_ENEMY_ROBOT_REMAINING_AMMO_DATA_LEN: usize = 10;
pub const SDR_ENEMY_ROBOT_OVERALL_STATE_DATA_LEN: usize = 8;
pub const SDR_ENEMY_ROBOT_GAIN_DATA_LEN: usize = 41;
pub const SDR_JAMMING_KEY_DATA_LEN: usize = 6;

/// Frame header: start byte, payload length, sequence number and header CRC8.
#[derive(Debug, Clone, Copy, Default, PartialEq, Eq)]
pub struct SerialFrameHeader {
    pub sof: u8,
    pub data_len: u16,
    pub seq: u8,
    pub crc8: u8,
}

impl SerialFrameHeader {
    /// Every bit field holds a value that its width can carry.
    pub open spec fn fits(self) -> bool {
        true
    }

    /// The 5 bytes that encode this record.
    pub open spec fn spec_encode(self) -> Seq<u8> {
        le_bytes(self.sof as nat, 1)
            + le_bytes(self.data_len as nat, 2)
            + le_bytes(self.seq as nat, 1)
            + le_bytes(self.crc8 as nat, 1)
    }

    /// The record that the first bytes of `b` encode.
    pub open spec fn spec_decode(b: Seq<u8>) -> SerialFrameHeader {
        let w0 = le_value(b.subrange(0, 1));
        let w1 = le_value(b.subrange(1, 3));
        let w2 = le_value(b.subrange(3, 4));
        let w3 = le_value(b.subrange(4, 5));
        SerialFrameHeader {
            sof: w0 as u8,
            data_len: w1 as u16,
            seq: w2 as u8,
            crc8: w3 as u8,
        }
    }

    /// Decodes the record from the first 5 bytes of `data`; `None` when fewer are there.
    pub fn from_bytes(data: &[u8]) -> (r: Option<SerialFrameHeader>)
        ensures
            data@.len() < FRAME_HEADER_LENGTH ==> r is None,
            data@.len() >= FRAME_HEADER_LENGTH ==> r == Some(SerialFrameHeader::spec_decode(data@)),
    {
        if data.len() < FRAME_HEADER_LENGTH {
            return None;
        }
        let w0 = read_le(data, 0, 1);
        let w1 = read_le(data, 1, 2);
        let w2 = read_le(data, 3, 1);
        let w3 = read_le(data, 4, 1);
        Some(SerialFrameHeader {
            sof: w0 as u8,
            data_len: w1 as u16,
            seq: w2 as u8,
            crc8: w3 as u8,
        })
    }

    /// Encodes the record in 5 bytes.
    pub fn to_bytes(&self) -> (r: Vec<u8>)
        ensures
            r@ == self.spec_encode(),
    {
        let mut out: Vec<u8> = Vec::new();
        write_le(&mut out, (self.sof as u64), 1);
        write_le(&mut out, (self.data_len as u64), 2);
        write_le(&mut out, (self.seq as u64), 1);
        write_le(&mut out, (self.crc8 as u64), 1);
        assert(out@ =~= self.spec_encode());
        out
    }

    /// Decoding what `to_bytes` wrote gives back the record.
    pub proof fn lemma_roundtrip(self)
        requires
            self.fits(),
        ensures
            self.spec_encode().len() == 5,
            SerialFrameHeader::spec_decode(self.spec_encode()) == self,
    {
        reveal_with_fuel(pow256, 9);
        let e = self.spec_encode();
        let x0 = self.sof as nat;
        lemma_le_roundtrip(x0, 1);
        let x1 = self.data_len as nat;
        lemma_le_roundtrip(x1, 2);
        let x2 = self.seq as nat;
        lemma_le_roundtrip(x2, 1);
        let x3 = self.crc8 as nat;
        lemma_le_roundtrip(x3, 1);
        assert(e.subrange(0, 1) =~= le_bytes(x0, 1));
        assert(e.subrange(1, 3) =~= le_bytes(x1, 2));
        assert(e.subrange(3, 4) =~= le_bytes(x2, 1));
        assert(e.subrange(4, 5) =~= le_bytes(x3, 1));
    }
}

/// Match state (cmd 0x0001).
#[derive(Debug, Clone, Copy, Default, PartialEq, Eq)]
pub struct GameStateData {
    pub game_type: u8,
    pub game_progress: u8,
    pub stage_remain_time: u16,
    pub sync_timestamp: u64,
}

impl GameStateData {
    /// Every bit field holds a value that its width can carry.
    pub open spec fn fits(self) -> bool {
        self.game_type < 16
        && self.game_progress < 16
    }

    /// The 11 bytes that encode this record.
    pub open spec fn spec_encode(self) -> Seq<u8> {
        le_bytes(self.game_type as nat + 16 * (self.game_progress as nat), 1)
            + le_bytes(self.stage_remain_time as nat, 2)
            + le_bytes(self.sync_timestamp as nat, 8)
    }

    /// The record that the first bytes of `b` encode.
    pub open spec fn spec_decode(b: Seq<u8>) -> GameStateData {
        let w0 = le_value(b.subrange(0, 1));
        let w1 = le_value(b.subrange(1, 3));
        let w2 = le_value(b.subrange(3, 11));
        GameStateData {
            game_type: ((w0 / 1) % 16) as u8,
            game_progress: ((w0 / 16) % 16) as u8,
            stage_remain_time: w1 as u16,
            sync_timestamp: w2 as u64,
        }
    }

    /// Decodes the record from the first 11 bytes of `data`; `None` when fewer are there.
    pub fn from_bytes(data: &[u8]) -> (r: Option<GameStateData>)
        ensures
            data@.len() < GAME_STATE_DATA_LEN ==> r is None,
            data@.len() >= GAME_STATE_DATA_LEN ==> r == Some(GameStateData::spec_decode(data@)),
    {
        if data.len() < GAME_STATE_DATA_LEN {
            return None;
        }
        let w0 = read_le(data, 0, 1);
        let w1 = read_le(data, 1, 2);
        let w2 = read_le(data, 3, 8);
        Some(GameStateData {
            game_type: ((w0 / 1) % 16) as u8,
            game_progress: ((w0 / 16) % 16) as u8,
            stage_remain_time: w1 as u16,
            sync_timestamp: w2 as u64,
        })
    }

    /// Encodes the record in 11 bytes; `None` when a bit field holds a value too wide for it.
    pub fn to_bytes(&self) -> (r: Option<Vec<u8>>)
        ensures
            r is Some <==> self.fits(),
            r matches Some(v) ==> v@ == self.spec_encode(),
    {
        if !(self.game_type < 16
            && self.game_progress < 16) {
            return None;
        }
        let mut out: Vec<u8> = Vec::new();
        write_le(&mut out, (self.game_type as u64) + 16 * ((self.game_progress as u64)), 1);
        write_le(&mut out, (self.stage_remain_time as u64), 2);
        write_le(&mut out, (self.sync_timestamp as u64), 8);
        assert(out@ =~= self.spec_encode());
        Some(out)
    }

    /// Decoding what `to_bytes` wrote gives back the record.
    pub proof fn lemma_roundtrip(self)
        requires
            self.fits(),
        ensures
            self.spec_encode().len() == 11,
            GameStateData::spec_decode(self.spec_encode()) == self,
    {
        reveal_with_fuel(pow256, 9);
        let e = self.spec_encode();
        let x0 = self.game_type as nat + 16 * (self.game_progress as nat);
        lemma_le_roundtrip(x0, 1);
        let x1 = self.stage_remain_time as nat;
        lemma_le_roundtrip(x1, 2);
        let x2 = self.sync_timestamp as nat;
        lemma_le_roundtrip(x2, 8);
        assert(e.subrange(0, 1) =~= le_bytes(x0, 1));
        lemma_field(x0, (0) as nat, 1, self.game_type as nat, 16, (self.game_progress as nat) as nat);
        lemma_field(x0, (self.game_type as nat) as nat, 16, self.game_progress as nat, 16, (0) as nat);
        assert(e.subrange(1, 3) =~= le_bytes(x1, 2));
        assert(e.subrange(3, 11) =~= le_bytes(x2, 8));
    }
}

/// How a game-state record is laid out in bytes: the low four bits of the
/// first byte are the game type and its high four bits the game progress
/// (4 while a match runs), the next two bytes the time left in the stage,
/// least significant first, then eight bytes of timestamp.
pub proof fn law_game_state_layout(b: Seq<u8>, g: GameStateData)
    requires
        b.len() >= 11,
    ensures
        ({
            let r = GameStateData::spec_decode(b);
            &&& r.game_type == b[0] % 16
            &&& r.game_progress == b[0] / 16
            &&& r.stage_remain_time == b[1] + 256 * b[2]
            &&& r.sync_timestamp == le_value(b.subrange(3, 11))
        }),
        g.fits() ==> ({
            let e = g.spec_encode();
            &&& e.len() == 11
            &&& e[0] == g.game_type + 16 * g.game_progress
            &&& e[1] == g.stage_remain_time % 256
            &&& e[2] == g.stage_remain_time / 256
        }),
{
    reveal_with_fuel(le_value, 3);
    reveal_with_fuel(le_bytes, 3);
    let s0 = b.subrange(0, 1);
    let s1 = b.subrange(1, 3);
    assert(s0.drop_first().len() == 0);
    assert(s1.drop_first().drop_first().len() == 0);
    assert(le_value(s0) == b[0]);
    assert(le_value(s1) == b[1] + 256 * b[2]);
    let s2 = b.subrange(3, 11);
    lemma_le_value_bound(s2);
    reveal_with_fuel(pow256, 9);
    assert(pow256(8) == 0x1_0000_0000_0000_0000);
    let w0 = le_value(s0);
    assert((w0 / 1) % 16 == b[0] % 16);
    assert((w0 / 16) % 16 == b[0] / 16);
    if g.fits() {
        g.lemma_roundtrip();
        let x0 = g.game_type as nat + 16 * (g.game_progress as nat);
        let e = g.spec_encode();
        assert(e[0] == le_bytes(x0, 1)[0]);
        assert(e[1] == le_bytes(g.stage_remain_time as nat, 2)[0]);
        assert(e[2] == le_bytes(g.stage_remain_time as nat, 2)[1]);
    }
}

/// Match result (cmd 0x0002).
#[derive(Debug, Clone, Copy, Default, PartialEq, Eq)]
pub struct GameResultData {
    pub winner: u8,
}

impl GameResultData {
    /// Every bit field holds a value that its width can carry.
    pub open spec fn fits(self) -> bool {
        true
    }

    /// The 1 bytes that encode this record.
    pub open spec fn spec_encode(self) -> Seq<u8> {
        le_bytes(self.winner as nat, 1)
    }

    /// The record that the first bytes of `b` encode.
    pub open spec fn spec_decode(b: Seq<u8>) -> GameResultData {
        let w0 = le_value(b.subrange(0, 1));
        GameResultData {
            winner: w0 as u8,
        }
    }

    /// Decodes the record from the first 1 bytes of `data`; `None` when fewer are there.
    pub fn from_bytes(data: &[u8]) -> (r: Option<GameResultData>)
        ensures
            data@.len() < GAME_RESULT_DATA_LEN ==> r is None,
            data@.len() >= GAME_RESULT_DATA_LEN ==> r == Some(GameResultData::spec_decode(data@)),
    {
        if data.len() < GAME_RESULT_DATA_LEN {
            return None;
        }
        let w0 = read_le(data, 0, 1);
        Some(GameResultData {
            winner: w0 as u8,
        })
    }

    /// Encodes the record in 1 bytes.
    pub fn to_bytes(&self) -> (r: Vec<u8>)
        ensures
            r@ == self.spec_encode(),
    {
        let mut out: Vec<u8> = Vec::new();
        write_le(&mut out, (self.winner as u64), 1);
        assert(out@ =~= self.spec_encode());
        out
    }

    /// Decoding what `to_bytes` wrote gives back the record.
    pub proof fn lemma_roundtrip(self)
        requires
            self.fits(),
        ensures
            self.spec_encode().len() == 1,
            GameResultData::spec_decode(self.spec_encode()) == self,
    {
        reveal_with_fuel(pow256, 9);
        let e = self.spec_encode();
        let x0 = self.winner as nat;
        lemma_le_roundtrip(x0, 1);
        assert(e.subrange(0, 1) =~= le_bytes(x0, 1));
    }
}

/// Site events (cmd 0x0101).
#[derive(Debug, Clone, Copy, Default, PartialEq, Eq)]
pub struct SiteEventData {
    pub supply_zone_status: u8,
    pub energy_small_status: u8,
    pub energy_large_status: u8,
    pub central_highland_status: u8,
    pub trapezoid_highland_status: u8,
    pub dart_hit_time: u16,
    pub dart_hit_target: u8,
    pub center_gain_status: u8,
    pub fortress_gain_status: u8,
    pub outpost_gain_status: u8,
    pub base_gain_status: u8,
}

impl SiteEventData {
    /// Every bit field holds a value that its width can carry.
    pub open spec fn fits(self) -> bool {
        self.supply_zone_status < 8
        && self.energy_small_status < 4
        && self.energy_large_status < 4
        && self.central_highland_status < 4
        && self.trapezoid_highland_status < 4
        && self.dart_hit_time < 512
        && self.dart_hit_target < 8
        && self.center_gain_status < 4
        && self.fortress_gain_status < 4
        && self.outpost_gain_status < 4
        && self.base_gain_status < 2
    }

    /// The 4 bytes that encode this record.
    pub open spec fn spec_encode(self) -> Seq<u8> {
        le_bytes(self.supply_zone_status as nat + 8 * (self.energy_small_status as nat) + 32 * (self.energy_large_status as nat) + 128 * (self.central_highland_status as nat) + 512 * (self.trapezoid_highland_status as nat) + 2048 * (self.dart_hit_time as nat) + 1048576 * (self.dart_hit_target as nat) + 8388608 * (self.center_gain_status as nat) + 33554432 * (self.fortress_gain_status as nat) + 134217728 * (self.outpost_gain_status as nat) + 536870912 * (self.base_gain_status as nat), 4)
    }

    /// The record that the first bytes of `b` encode.
    pub open spec fn spec_decode(b: Seq<u8>) -> SiteEventData {
        let w0 = le_value(b.subrange(0, 4));
        SiteEventData {
            supply_zone_status: ((w0 / 1) % 8) as u8,
            energy_small_status: ((w0 / 8) % 4) as u8,
            energy_large_status: ((w0 / 32) % 4) as u8,
            central_highland_status: ((w0 / 128) % 4) as u8,
            trapezoid_highland_status: ((w0 / 512) % 4) as u8,
            dart_hit_time: ((w0 / 2048) % 512) as u16,
            dart_hit_target: ((w0 / 1048576) % 8) as u8,
            center_gain_status: ((w0 / 8388608) % 4) as u8,
            fortress_gain_status: ((w0 / 33554432) % 4) as u8,
            outpost_gain_status: ((w0 / 134217728) % 4) as u8,
            base_gain_status: ((w0 / 536870912) % 2) as u8,
        }
    }

    /// Decodes the record from the first 4 bytes of `data`; `None` when fewer are there.
    pub fn from_bytes(data: &[u8]) -> (r: Option<SiteEventData>)
        ensures
            data@.len() < SITE_EVENT_DATA_LEN ==> r is None,
            data@.len() >= SITE_EVENT_DATA_LEN ==> r == Some(SiteEventData::spec_decode(data@)),
    {
        if data.len() < SITE_EVENT_DATA_LEN {
            return None;
        }
        let w0 = read_le(data, 0, 4);
        Some(SiteEventData {
            supply_zone_status: ((w0 / 1) % 8) as u8,
            energy_small_status: ((w0 / 8) % 4) as u8,
            energy_large_status: ((w0 / 32) % 4) as u8,
            central_highland_status: ((w0 / 128) % 4) as u8,
            trapezoid_highland_status: ((w0 / 512) % 4) as u8,
            dart_hit_time: ((w0 / 2048) % 512) as u16,
            dart_hit_target: ((w0 / 1048576) % 8) as u8,
            center_gain_status: ((w0 / 8388608) % 4) as u8,
            fortress_gain_status: ((w0 / 33554432) % 4) as u8,
            outpost_gain_status: ((w0 / 134217728) % 4) as u8,
            base_gain_status: ((w0 / 536870912) % 2) as u8,
        })
    }

    /// Encodes the record in 4 bytes; `None` when a bit field holds a value too wide for it.
    pub fn to_bytes(&self) -> (r: Option<Vec<u8>>)
        ensures
            r is Some <==> self.fits(),
            r matches Some(v) ==> v@ == self.spec_encode(),
    {
        if !(self.supply_zone_status < 8
            && self.energy_small_status < 4
            && self.energy_large_status < 4
            && self.central_highland_status < 4
            && self.trapezoid_highland_status < 4
            && self.dart_hit_time < 512
            && self.dart_hit_target < 8
            && self.center_gain_status < 4
            && self.fortress_gain_status < 4
            && self.outpost_gain_status < 4
            && self.base_gain_status < 2) {
            return None;
        }
        let mut out: Vec<u8> = Vec::new();
        write_le(&mut out, (self.supply_zone_status as u64) + 8 * ((self.energy_small_status as u64)) + 32 * ((self.energy_large_status as u64)) + 128 * ((self.central_highland_status as u64)) + 512 * ((self.trapezoid_highland_status as u64)) + 2048 * ((self.dart_hit_time as u64)) + 1048576 * ((self.dart_hit_target as u64)) + 8388608 * ((self.center_gain_status as u64)) + 33554432 * ((self.fortress_gain_status as u64)) + 134217728 * ((self.outpost_gain_status as u64)) + 536870912 * ((self.base_gain_status as u64)), 4);
        assert(out@ =~= self.spec_encode());
        Some(out)
    }

    /// Decoding what `to_bytes` wrote gives back the record.
    pub proof fn lemma_roundtrip(self)
        requires
            self.fits(),
        ensures
            self.spec_encode().len() == 4,
            SiteEventData::spec_decode(self.spec_encode()) == self,
    {
        reveal_with_fuel(pow256, 9);
        let e = self.spec_encode();
        let x0 = self.supply_zone_status as nat + 8 * (self.energy_small_status as nat) + 32 * (self.energy_large_status as nat) + 128 * (self.central_highland_status as nat) + 512 * (self.trapezoid_highland_status as nat) + 2048 * (self.dart_hit_time as nat) + 1048576 * (self.dart_hit_target as nat) + 8388608 * (self.center_gain_status as nat) + 33554432 * (self.fortress_gain_status as nat) + 134217728 * (self.outpost_gain_status as nat) + 536870912 * (self.base_gain_status as nat);
        lemma_le_roundtrip(x0, 4);
        assert(e.subrange(0, 4) =~= le_bytes(x0, 4));
        lemma_field(x0, (0) as nat, 1, self.supply_zone_status as nat, 8, (self.energy_small_status as nat + 4 * (self.energy_large_status as nat) + 16 * (self.central_highland_status as nat) + 64 * (self.trapezoid_highland_status as nat) + 256 * (self.dart_hit_time as nat) + 131072 * (self.dart_hit_target as nat) + 1048576 * (self.center_gain_status as nat) + 4194304 * (self.fortress_gain_status as nat) + 16777216 * (self.outpost_gain_status as nat) + 67108864 * (self.base_gain_status as nat)) as nat);
        lemma_field(x0, (self.supply_zone_status as nat) as nat, 8, self.energy_small_status as nat, 4, (self.energy_large_status as nat + 4 * (self.central_highland_status as nat) + 16 * (self.trapezoid_highland_status as nat) + 64 * (self.dart_hit_time as nat) + 32768 * (self.dart_hit_target as nat) + 262144 * (self.center_gain_status as nat) + 1048576 * (self.fortress_gain_status as nat) + 4194304 * (self.outpost_gain_status as nat) + 16777216 * (self.base_gain_status as nat)) as nat);
        lemma_field(x0, (self.supply_zone_status as nat + 8 * (self.energy_small_status as nat)) as nat, 32, self.energy_large_status as nat, 4, (self.central_highland_status as nat + 4 * (self.trapezoid_highland_status as nat) + 16 * (self.dart_hit_time as nat) + 8192 * (self.dart_hit_target as nat) + 65536 * (self.center_gain_status as nat) + 262144 * (self.fortress_gain_status as nat) + 1048576 * (self.outpost_gain_status as nat) + 4194304 * (self.base_gain_status as nat)) as nat);
        lemma_field(x0, (self.supply_zone_status as nat + 8 * (self.energy_small_status as nat) + 32 * (self.energy_large_status as nat)) as nat, 128, self.central_highland_status as nat, 4, (self.trapezoid_highland_status as nat + 4 * (self.dart_hit_time as nat) + 2048 * (self.dart_hit_target as nat) + 16384 * (self.center_gain_status as nat) + 65536 * (self.fortress_gain_status as nat) + 262144 * (self.outpost_gain_status as nat) + 1048576 * (self.base_gain_status as nat)) as nat);
        lemma_field(x0, (self.supply_zone_status as nat + 8 * (self.energy_small_status as nat) + 32 * (self.energy_large_status as nat) + 128 * (self.central_highland_status as nat)) as nat, 512, self.trapezoid_highland_status as nat, 4, (self.dart_hit_time as nat + 512 * (self.dart_hit_target as nat) + 4096 * (self.center_gain_status as nat) + 16384 * (self.fortress_gain_status as nat) + 65536 * (self.outpost_gain_status as nat) + 262144 * (self.base_gain_status as nat)) as nat);
        lemma_field(x0, (self.supply_zone_status as nat + 8 * (self.energy_small_status as nat) + 32 * (self.energy_large_status as nat) + 128 * (self.central_highland_status as nat) + 512 * (self.trapezoid_highland_status as nat)) as nat, 2048, self.dart_hit_time as nat, 512, (self.dart_hit_target as nat + 8 * (self.center_gain_status as nat) + 32 * (self.fortress_gain_status as nat) + 128 * (self.outpost_gain_status as nat) + 512 * (self.base_gain_status as nat)) as nat);
        lemma_field(x0, (self.supply_zone_status as nat + 8 * (self.energy_small_status as nat) + 32 * (self.energy_large_status as nat) + 128 * (self.central_highland_status as nat) + 512 * (self.trapezoid_highland_status as nat) + 2048 * (self.dart_hit_time as nat)) as nat, 1048576, self.dart_hit_target as nat, 8, (self.center_gain_status as nat + 4 * (self.fortress_gain_status as nat) + 16 * (self.outpost_gain_status as nat) + 64 * (self.base_gain_status as nat)) as nat);
        lemma_field(x0, (self.supply_zone_status as nat + 8 * (self.energy_small_status as nat) + 32 * (self.energy_large_status as nat) + 128 * (self.central_highland_status as nat) + 512 * (self.trapezoid_highland_status as nat) + 2048 * (self.dart_hit_time as nat) + 1048576 * (self.dart_hit_target as nat)) as nat, 8388608, self.center_gain_status as nat, 4, (self.fortress_gain_status as nat + 4 * (self.outpost_gain_status as nat) + 16 * (self.base_gain_status as nat)) as nat);
        lemma_field(x0, (self.supply_zone_status as nat + 8 * (self.energy_small_status as nat) + 32 * (self.energy_large_status as nat) + 128 * (self.central_highland_status as nat) + 512 * (self.trapezoid_highland_status as nat) + 2048 * (self.dart_hit_time as nat) + 1048576 * (self.dart_hit_target as nat) + 8388608 * (self.center_gain_status as nat)) as nat, 33554432, self.fortress_gain_status as nat, 4, (self.outpost_gain_status as nat + 4 * (self.base_gain_status as nat)) as nat);
        lemma_field(x0, (self.supply_zone_status as nat + 8 * (self.energy_small_status as nat) + 32 * (self.energy_large_status as nat) + 128 * (self.central_highland_status as nat) + 512 * (self.trapezoid_highland_status as nat) + 2048 * (self.dart_hit_time as nat) + 1048576 * (self.dart_hit_target as nat) + 8388608 * (self.center_gain_status as nat) + 33554432 * (self.fortress_gain_status as nat)) as nat, 134217728, self.outpost_gain_status as nat, 4, (self.base_gain_status as nat) as nat);
        lemma_field(x0, (self.supply_zone_status as nat + 8 * (self.energy_small_status as nat) + 32 * (self.energy_large_status as nat) + 128 * (self.central_highland_status as nat) + 512 * (self.trapezoid_highland_status as nat) + 2048 * (self.dart_hit_time as nat) + 1048576 * (self.dart_hit_target as nat) + 8388608 * (self.center_gain_status as nat) + 33554432 * (self.fortress_gain_status as nat) + 134217728 * (self.outpost_gain_status as nat)) as nat, 536870912, self.base_gain_status as nat, 2, (0) as nat);
    }
}

/// Dart launch state (cmd 0x0105).
#[derive(Debug, Clone, Copy, Default, PartialEq, Eq)]
pub struct DartLaunchData {
    pub dart_remaining_time: u8,
    pub dart_hit_target: u8,
    pub dart_hit_count: u8,
    pub dart_selected_target: u8,
}

impl DartLaunchData {
    /// Every bit field holds a value that its width can carry.
    pub open spec fn fits(self) -> bool {
        self.dart_hit_target < 8
        && self.dart_hit_count < 8
        && self.dart_selected_target < 8
    }

    /// The 3 bytes that encode this record.
    pub open spec fn spec_encode(self) -> Seq<u8> {
        le_bytes(self.dart_remaining_time as nat, 1)
            + le_bytes(self.dart_hit_target as nat + 8 * (self.dart_hit_count as nat) + 64 * (self.dart_selected_target as nat), 2)
    }

    /// The record that the first bytes of `b` encode.
    pub open spec fn spec_decode(b: Seq<u8>) -> DartLaunchData {
        let w0 = le_value(b.subrange(0, 1));
        let w1 = le_value(b.subrange(1, 3));
        DartLaunchData {
            dart_remaining_time: w0 as u8,
            dart_hit_target: ((w1 / 1) % 8) as u8,
            dart_hit_count: ((w1 / 8) % 8) as u8,
            dart_selected_target: ((w1 / 64) % 8) as u8,
        }
    }

    /// Decodes the record from the first 3 bytes of `data`; `None` when fewer are there.
    pub fn from_bytes(data: &[u8]) -> (r: Option<DartLaunchData>)
        ensures
            data@.len() < DART_LAUNCH_DATA_LEN ==> r is None,
            data@.len() >= DART_LAUNCH_DATA_LEN ==> r == Some(DartLaunchData::spec_decode(data@)),
    {
        if data.len() < DART_LAUNCH_DATA_LEN {
            return None;
        }
        let w0 = read_le(data, 0, 1);
        let w1 = read_le(data, 1, 2);
        Some(DartLaunchData {
            dart_remaining_time: w0 as u8,
            dart_hit_target: ((w1 / 1) % 8) as u8,
            dart_hit_count: ((w1 / 8) % 8) as u8,
            dart_selected_target: ((w1 / 64) % 8) as u8,
        })
    }

    /// Encodes the record in 3 bytes; `None` when a bit field holds a value too wide for it.
    pub fn to_bytes(&self) -> (r: Option<Vec<u8>>)
        ensures
            r is Some <==> self.fits(),
            r matches Some(v) ==> v@ == self.spec_encode(),
    {
        if !(self.dart_hit_target < 8
            && self.dart_hit_count < 8
            && self.dart_selected_target < 8) {
            return None;
        }
        let mut out: Vec<u8> = Vec::new();
        write_le(&mut out, (self.dart_remaining_time as u64), 1);
        write_le(&mut out, (self.dart_hit_target as u64) + 8 * ((self.dart_hit_count as u64)) + 64 * ((self.dart_selected_target as u64)), 2);
        assert(out@ =~= self.spec_encode());
        Some(out)
    }

    /// Decoding what `to_bytes` wrote gives back the record.
    pub proof fn lemma_roundtrip(self)
        requires
            self.fits(),
        ensures
            self.spec_encode().len() == 3,
            DartLaunchData::spec_decode(self.spec_encode()) == self,
    {
        reveal_with_fuel(pow256, 9);
        let e = self.spec_encode();
        let x0 = self.dart_remaining_time as nat;
        lemma_le_roundtrip(x0, 1);
        let x1 = self.dart_hit_target as nat + 8 * (self.dart_hit_count as nat) + 64 * (self.dart_selected_target as nat);
        lemma_le_roundtrip(x1, 2);
        assert(e.subrange(0, 1) =~= le_bytes(x0, 1));
        assert(e.subrange(1, 3) =~= le_bytes(x1, 2));
        lemma_field(x1, (0) as nat, 1, self.dart_hit_target as nat, 8, (self.dart_hit_count as nat + 8 * (self.dart_selected_target as nat)) as nat);
        lemma_field(x1, (self.dart_hit_target as nat) as nat, 8, self.dart_hit_count as nat, 8, (self.dart_selected_target as nat) as nat);
        lemma_field(x1, (self.dart_hit_target as nat + 8 * (self.dart_hit_count as nat)) as nat, 64, self.dart_selected_target as nat, 8, (0) as nat);
    }
}

/// Radar marking progress (cmd 0x020C), one bit per robot.
#[derive(Debug, Clone, Copy, Default, PartialEq, Eq)]
pub struct RadarMarkProcessData {
    pub opponent_hero_vulnerable: u8,
    pub opponent_engineer_vulnerable: u8,
    pub opponent_infantry_3_vulnerable: u8,
    pub opponent_infantry_4_vulnerable: u8,
    pub opponent_aerial_marked: u8,
    pub opponent_sentry_vulnerable: u8,
    pub ally_hero_marked: u8,
    pub ally_engineer_marked: u8,
    pub ally_infantry_3_marked: u8,
    pub ally_infantry_4_marked: u8,
    pub ally_aerial_marked: u8,
    pub ally_sentry_marked: u8,
    pub opponent_aerial_targeted: u8,
    pub opponent_aerial_countered: u8,
    pub ally_aerial_targeted: u8,
    pub ally_aerial_countered: u8,
}

impl RadarMarkProcessData {
    /// Every bit field holds a value that its width can carry.
    pub open spec fn fits(self) -> bool {
        self.opponent_hero_vulnerable < 2
        && self.opponent_engineer_vulnerable < 2
        && self.opponent_infantry_3_vulnerable < 2
        && self.opponent_infantry_4_vulnerable < 2
        && self.opponent_aerial_marked < 2
        && self.opponent_sentry_vulnerable < 2
        && self.ally_hero_marked < 2
        && self.ally_engineer_marked < 2
        && self.ally_infantry_3_marked < 2
        && self.ally_infantry_4_marked < 2
        && self.ally_aerial_marked < 2
        && self.ally_sentry_marked < 2
        && self.opponent_aerial_targeted < 2
        && self.opponent_aerial_countered < 2
        && self.ally_aerial_targeted < 2
        && self.ally_aerial_countered < 2
    }

    /// The 2 bytes that encode this record.
    pub open spec fn spec_encode(self) -> Seq<u8> {
        le_bytes(self.opponent_hero_vulnerable as nat + 2 * (self.opponent_engineer_vulnerable as nat) + 4 * (self.opponent_infantry_3_vulnerable as nat) + 8 * (self.opponent_infantry_4_vulnerable as nat) + 16 * (self.opponent_aerial_marked as nat) + 32 * (self.opponent_sentry_vulnerable as nat) + 64 * (self.ally_hero_marked as nat) + 128 * (self.ally_engineer_marked as nat) + 256 * (self.ally_infantry_3_marked as nat) + 512 * (self.ally_infantry_4_marked as nat) + 1024 * (self.ally_aerial_marked as nat) + 2048 * (self.ally_sentry_marked as nat) + 4096 * (self.opponent_aerial_targeted as nat) + 8192 * (self.opponent_aerial_countered as nat) + 16384 * (self.ally_aerial_targeted as nat) + 32768 * (self.ally_aerial_countered as nat), 2)
    }

    /// The record that the first bytes of `b` encode.
    pub open spec fn spec_decode(b: Seq<u8>) -> RadarMarkProcessData {
        let w0 = le_value(b.subrange(0, 2));
        RadarMarkProcessData {
            opponent_hero_vulnerable: ((w0 / 1) % 2) as u8,
            opponent_engineer_vulnerable: ((w0 / 2) % 2) as u8,
            opponent_infantry_3_vulnerable: ((w0 / 4) % 2) as u8,
            opponent_infantry_4_vulnerable: ((w0 / 8) % 2) as u8,
            opponent_aerial_marked: ((w0 / 16) % 2) as u8,
            opponent_sentry_vulnerable: ((w0 / 32) % 2) as u8,
            ally_hero_marked: ((w0 / 64) % 2) as u8,
            ally_engineer_marked: ((w0 / 128) % 2) as u8,
            ally_infantry_3_marked: ((w0 / 256) % 2) as u8,
            ally_infantry_4_marked: ((w0 / 512) % 2) as u8,
            ally_aerial_marked: ((w0 / 1024) % 2) as u8,
            ally_sentry_marked: ((w0 / 2048) % 2) as u8,
            opponent_aerial_targeted: ((w0 / 4096) % 2) as u8,
            opponent_aerial_countered: ((w0 / 8192) % 2) as u8,
            ally_aerial_targeted: ((w0 / 16384) % 2) as u8,
            ally_aerial_countered: ((w0 / 32768) % 2) as u8,
        }
    }

    /// Decodes the record from the first 2 bytes of `data`; `None` when fewer are there.
    pub fn from_bytes(data: &[u8]) -> (r: Option<RadarMarkProcessData>)
        ensures
            data@.len() < RADAR_MARK_PROCESS_DATA_LEN ==> r is None,
            data@.len() >= RADAR_MARK_PROCESS_DATA_LEN ==> r == Some(RadarMarkProcessData::spec_decode(data@)),
    {
        if data.len() < RADAR_MARK_PROCESS_DATA_LEN {
            return None;
        }
        let w0 = read_le(data, 0, 2);
        Some(RadarMarkProcessData {
            opponent_hero_vulnerable: ((w0 / 1) % 2) as u8,
            opponent_engineer_vulnerable: ((w0 / 2) % 2) as u8,
            opponent_infantry_3_vulnerable: ((w0 / 4) % 2) as u8,
            opponent_infantry_4_vulnerable: ((w0 / 8) % 2) as u8,
            opponent_aerial_marked: ((w0 / 16) % 2) as u8,
            opponent_sentry_vulnerable: ((w0 / 32) % 2) as u8,
            ally_hero_marked: ((w0 / 64) % 2) as u8,
            ally_engineer_marked: ((w0 / 128) % 2) as u8,
            ally_infantry_3_marked: ((w0 / 256) % 2) as u8,
            ally_infantry_4_marked: ((w0 / 512) % 2) as u8,
            ally_aerial_marked: ((w0 / 1024) % 2) as u8,
            ally_sentry_marked: ((w0 / 2048) % 2) as u8,
            opponent_aerial_targeted: ((w0 / 4096) % 2) as u8,
            opponent_aerial_countered: ((w0 / 8192) % 2) as u8,
            ally_aerial_targeted: ((w0 / 16384) % 2) as u8,
            ally_aerial_countered: ((w0 / 32768) % 2) as u8,
        })
    }

    /// Encodes the record in 2 bytes; `None` when a bit field holds a value too wide for it.
    pub fn to_bytes(&self) -> (r: Option<Vec<u8>>)
        ensures
            r is Some <==> self.fits(),
            r matches Some(v) ==> v@ == self.spec_encode(),
    {
        if !(self.opponent_hero_vulnerable < 2
            && self.opponent_engineer_vulnerable < 2
            && self.opponent_infantry_3_vulnerable < 2
            && self.opponent_infantry_4_vulnerable < 2
            && self.opponent_aerial_marked < 2
            && self.opponent_sentry_vulnerable < 2
            && self.ally_hero_marked < 2
            && self.ally_engineer_marked < 2
            && self.ally_infantry_3_marked < 2
            && self.ally_infantry_4_marked < 2
            && self.ally_aerial_marked < 2
            && self.ally_sentry_marked < 2
            && self.opponent_aerial_targeted < 2
            && self.opponent_aerial_countered < 2
            && self.ally_aerial_targeted < 2
            && self.ally_aerial_countered < 2) {
            return None;
        }
        let mut out: Vec<u8> = Vec::new();
        write_le(&mut out, (self.opponent_hero_vulnerable as u64) + 2 * ((self.opponent_engineer_vulnerable as u64)) + 4 * ((self.opponent_infantry_3_vulnerable as u64)) + 8 * ((self.opponent_infantry_4_vulnerable as u64)) + 16 * ((self.opponent_aerial_marked as u64)) + 32 * ((self.opponent_sentry_vulnerable as u64)) + 64 * ((self.ally_hero_marked as u64)) + 128 * ((self.ally_engineer_marked as u64)) + 256 * ((self.ally_infantry_3_marked as u64)) + 512 * ((self.ally_infantry_4_marked as u64)) + 1024 * ((self.ally_aerial_marked as u64)) + 2048 * ((self.ally_sentry_marked as u64)) + 4096 * ((self.opponent_aerial_targeted as u64)) + 8192 * ((self.opponent_aerial_countered as u64)) + 16384 * ((self.ally_aerial_targeted as u64)) + 32768 * ((self.ally_aerial_countered as u64)), 2);
        assert(out@ =~= self.spec_encode());
        Some(out)
    }

    /// Decoding what `to_bytes` wrote gives back the record.
    pub proof fn lemma_roundtrip(self)
        requires
            self.fits(),
        ensures
            self.spec_encode().len() == 2,
            RadarMarkProcessData::spec_decode(self.spec_encode()) == self,
    {
        reveal_with_fuel(pow256, 9);
        let e = self.spec_encode();
        let x0 = self.opponent_hero_vulnerable as nat + 2 * (self.opponent_engineer_vulnerable as nat) + 4 * (self.opponent_infantry_3_vulnerable as nat) + 8 * (self.opponent_infantry_4_vulnerable as nat) + 16 * (self.opponent_aerial_marked as nat) + 32 * (self.opponent_sentry_vulnerable as nat) + 64 * (self.ally_hero_marked as nat) + 128 * (self.ally_engineer_marked as nat) + 256 * (self.ally_infantry_3_marked as nat) + 512 * (self.ally_infantry_4_marked as nat) + 1024 * (self.ally_aerial_marked as nat) + 2048 * (self.ally_sentry_marked as nat) + 4096 * (self.opponent_aerial_targeted as nat) + 8192 * (self.opponent_aerial_countered as nat) + 16384 * (self.ally_aerial_targeted as nat) + 32768 * (self.ally_aerial_countered as nat);
        lemma_le_roundtrip(x0, 2);
        assert(e.subrange(0, 2) =~= le_bytes(x0, 2));
        lemma_field(x0, (0) as nat, 1, self.opponent_hero_vulnerable as nat, 2, (self.opponent_engineer_vulnerable as nat + 2 * (self.opponent_infantry_3_vulnerable as nat) + 4 * (self.opponent_infantry_4_vulnerable as nat) + 8 * (self.opponent_aerial_marked as nat) + 16 * (self.opponent_sentry_vulnerable as nat) + 32 * (self.ally_hero_marked as nat) + 64 * (self.ally_engineer_marked as nat) + 128 * (self.ally_infantry_3_marked as nat) + 256 * (self.ally_infantry_4_marked as nat) + 512 * (self.ally_aerial_marked as nat) + 1024 * (self.ally_sentry_marked as nat) + 2048 * (self.opponent_aerial_targeted as nat) + 4096 * (self.opponent_aerial_countered as nat) + 8192 * (self.ally_aerial_targeted as nat) + 16384 * (self.ally_aerial_countered as nat)) as nat);
        lemma_field(x0, (self.opponent_hero_vulnerable as nat) as nat, 2, self.opponent_engineer_vulnerable as nat, 2, (self.opponent_infantry_3_vulnerable as nat + 2 * (self.opponent_infantry_4_vulnerable as nat) + 4 * (self.opponent_aerial_marked as nat) + 8 * (self.opponent_sentry_vulnerable as nat) + 16 * (self.ally_hero_marked as nat) + 32 * (self.ally_engineer_marked as nat) + 64 * (self.ally_infantry_3_marked as nat) + 128 * (self.ally_infantry_4_marked as nat) + 256 * (self.ally_aerial_marked as nat) + 512 * (self.ally_sentry_marked as nat) + 1024 * (self.opponent_aerial_targeted as nat) + 2048 * (self.opponent_aerial_countered as nat) + 4096 * (self.ally_aerial_targeted as nat) + 8192 * (self.ally_aerial_countered as nat)) as nat);
        lemma_field(x0, (self.opponent_hero_vulnerable as nat + 2 * (self.opponent_engineer_vulnerable as nat)) as nat, 4, self.opponent_infantry_3_vulnerable as nat, 2, (self.opponent_infantry_4_vulnerable as nat + 2 * (self.opponent_aerial_marked as nat) + 4 * (self.opponent_sentry_vulnerable as nat) + 8 * (self.ally_hero_marked as nat) + 16 * (self.ally_engineer_marked as nat) + 32 * (self.ally_infantry_3_marked as nat) + 64 * (self.ally_infantry_4_marked as nat) + 128 * (self.ally_aerial_marked as nat) + 256 * (self.ally_sentry_marked as nat) + 512 * (self.opponent_aerial_targeted as nat) + 1024 * (self.opponent_aerial_countered as nat) + 2048 * (self.ally_aerial_targeted as nat) + 4096 * (self.ally_aerial_countered as nat)) as nat);
        lemma_field(x0, (self.opponent_hero_vulnerable as nat + 2 * (self.opponent_engineer_vulnerable as nat) + 4 * (self.opponent_infantry_3_vulnerable as nat)) as nat, 8, self.opponent_infantry_4_vulnerable as nat, 2, (self.opponent_aerial_marked as nat + 2 * (self.opponent_sentry_vulnerable as nat) + 4 * (self.ally_hero_marked as nat) + 8 * (self.ally_engineer_marked as nat) + 16 * (self.ally_infantry_3_marked as nat) + 32 * (self.ally_infantry_4_marked as nat) + 64 * (self.ally_aerial_marked as nat) + 128 * (self.ally_sentry_marked as nat) + 256 * (self.opponent_aerial_targeted as nat) + 512 * (self.opponent_aerial_countered as nat) + 1024 * (self.ally_aerial_targeted as nat) + 2048 * (self.ally_aerial_countered as nat)) as nat);
        lemma_field(x0, (self.opponent_hero_vulnerable as nat + 2 * (self.opponent_engineer_vulnerable as nat) + 4 * (self.opponent_infantry_3_vulnerable as nat) + 8 * (self.opponent_infantry_4_vulnerable as nat)) as nat, 16, self.opponent_aerial_marked as nat, 2, (self.opponent_sentry_vulnerable as nat + 2 * (self.ally_hero_marked as nat) + 4 * (self.ally_engineer_marked as nat) + 8 * (self.ally_infantry_3_marked as nat) + 16 * (self.ally_infantry_4_marked as nat) + 32 * (self.ally_aerial_marked as nat) + 64 * (self.ally_sentry_marked as nat) + 128 * (self.opponent_aerial_targeted as nat) + 256 * (self.opponent_aerial_countered as nat) + 512 * (self.ally_aerial_targeted as nat) + 1024 * (self.ally_aerial_countered as nat)) as nat);
        lemma_field(x0, (self.opponent_hero_vulnerable as nat + 2 * (self.opponent_engineer_vulnerable as nat) + 4 * (self.opponent_infantry_3_vulnerable as nat) + 8 * (self.opponent_infantry_4_vulnerable as nat) + 16 * (self.opponent_aerial_marked as nat)) as nat, 32, self.opponent_sentry_vulnerable as nat, 2, (self.ally_hero_marked as nat + 2 * (self.ally_engineer_marked as nat) + 4 * (self.ally_infantry_3_marked as nat) + 8 * (self.ally_infantry_4_marked as nat) + 16 * (self.ally_aerial_marked as nat) + 32 * (self.ally_sentry_marked as nat) + 64 * (self.opponent_aerial_targeted as nat) + 128 * (self.opponent_aerial_countered as nat) + 256 * (self.ally_aerial_targeted as nat) + 512 * (self.ally_aerial_countered as nat)) as nat);
        lemma_field(x0, (self.opponent_hero_vulnerable as nat + 2 * (self.opponent_engineer_vulnerable as nat) + 4 * (self.opponent_infantry_3_vulnerable as nat) + 8 * (self.opponent_infantry_4_vulnerable as nat) + 16 * (self.opponent_aerial_marked as nat) + 32 * (self.opponent_sentry_vulnerable as nat)) as nat, 64, self.ally_hero_marked as nat, 2, (self.ally_engineer_marked as nat + 2 * (self.ally_infantry_3_marked as nat) + 4 * (self.ally_infantry_4_marked as nat) + 8 * (self.ally_aerial_marked as nat) + 16 * (self.ally_sentry_marked as nat) + 32 * (self.opponent_aerial_targeted as nat) + 64 * (self.opponent_aerial_countered as nat) + 128 * (self.ally_aerial_targeted as nat) + 256 * (self.ally_aerial_countered as nat)) as nat);
        lemma_field(x0, (self.opponent_hero_vulnerable as nat + 2 * (self.opponent_engineer_vulnerable as nat) + 4 * (self.opponent_infantry_3_vulnerable as nat) + 8 * (self.opponent_infantry_4_vulnerable as nat) + 16 * (self.opponent_aerial_marked as nat) + 32 * (self.opponent_sentry_vulnerable as nat) + 64 * (self.ally_hero_marked as nat)) as nat, 128, self.ally_engineer_marked as nat, 2, (self.ally_infantry_3_marked as nat + 2 * (self.ally_infantry_4_marked as nat) + 4 * (self.ally_aerial_marked as nat) + 8 * (self.ally_sentry_marked as nat) + 16 * (self.opponent_aerial_targeted as nat) + 32 * (self.opponent_aerial_countered as nat) + 64 * (self.ally_aerial_targeted as nat) + 128 * (self.ally_aerial_countered as nat)) as nat);
        lemma_field(x0, (self.opponent_hero_vulnerable as nat + 2 * (self.opponent_engineer_vulnerable as nat) + 4 * (self.opponent_infantry_3_vulnerable as nat) + 8 * (self.opponent_infantry_4_vulnerable as nat) + 16 * (self.opponent_aerial_marked as nat) + 32 * (self.opponent_sentry_vulnerable as nat) + 64 * (self.ally_hero_marked as nat) + 128 * (self.ally_engineer_marked as nat)) as nat, 256, self.ally_infantry_3_marked as nat, 2, (self.ally_infantry_4_marked as nat + 2 * (self.ally_aerial_marked as nat) + 4 * (self.ally_sentry_marked as nat) + 8 * (self.opponent_aerial_targeted as nat) + 16 * (self.opponent_aerial_countered as nat) + 32 * (self.ally_aerial_targeted as nat) + 64 * (self.ally_aerial_countered as nat)) as nat);
        lemma_field(x0, (self.opponent_hero_vulnerable as nat + 2 * (self.opponent_engineer_vulnerable as nat) + 4 * (self.opponent_infantry_3_vulnerable as nat) + 8 * (self.opponent_infantry_4_vulnerable as nat) + 16 * (self.opponent_aerial_marked as nat) + 32 * (self.opponent_sentry_vulnerable as nat) + 64 * (self.ally_hero_marked as nat) + 128 * (self.ally_engineer_marked as nat) + 256 * (self.ally_infantry_3_marked as nat)) as nat, 512, self.ally_infantry_4_marked as nat, 2, (self.ally_aerial_marked as nat + 2 * (self.ally_sentry_marked as nat) + 4 * (self.opponent_aerial_targeted as nat) + 8 * (self.opponent_aerial_countered as nat) + 16 * (self.ally_aerial_targeted as nat) + 32 * (self.ally_aerial_countered as nat)) as nat);
        lemma_field(x0, (self.opponent_hero_vulnerable as nat + 2 * (self.opponent_engineer_vulnerable as nat) + 4 * (self.opponent_infantry_3_vulnerable as nat) + 8 * (self.opponent_infantry_4_vulnerable as nat) + 16 * (self.opponent_aerial_marked as nat) + 32 * (self.opponent_sentry_vulnerable as nat) + 64 * (self.ally_hero_marked as nat) + 128 * (self.ally_engineer_marked as nat) + 256 * (self.ally_infantry_3_marked as nat) + 512 * (self.ally_infantry_4_marked as nat)) as nat, 1024, self.ally_aerial_marked as nat, 2, (self.ally_sentry_marked as nat + 2 * (self.opponent_aerial_targeted as nat) + 4 * (self.opponent_aerial_countered as nat) + 8 * (self.ally_aerial_targeted as nat) + 16 * (self.ally_aerial_countered as nat)) as nat);
        lemma_field(x0, (self.opponent_hero_vulnerable as nat + 2 * (self.opponent_engineer_vulnerable as nat) + 4 * (self.opponent_infantry_3_vulnerable as nat) + 8 * (self.opponent_infantry_4_vulnerable as nat) + 16 * (self.opponent_aerial_marked as nat) + 32 * (self.opponent_sentry_vulnerable as nat) + 64 * (self.ally_hero_marked as nat) + 128 * (self.ally_engineer_marked as nat) + 256 * (self.ally_infantry_3_marked as nat) + 512 * (self.ally_infantry_4_marked as nat) + 1024 * (self.ally_aerial_marked as nat)) as nat, 2048, self.ally_sentry_marked as nat, 2, (self.opponent_aerial_targeted as nat + 2 * (self.opponent_aerial_countered as nat) + 4 * (self.ally_aerial_targeted as nat) + 8 * (self.ally_aerial_countered as nat)) as nat);
        lemma_field(x0, (self.opponent_hero_vulnerable as nat + 2 * (self.opponent_engineer_vulnerable as nat) + 4 * (self.opponent_infantry_3_vulnerable as nat) + 8 * (self.opponent_infantry_4_vulnerable as nat) + 16 * (self.opponent_aerial_marked as nat) + 32 * (self.opponent_sentry_vulnerable as nat) + 64 * (self.ally_hero_marked as nat) + 128 * (self.ally_engineer_marked as nat) + 256 * (self.ally_infantry_3_marked as nat) + 512 * (self.ally_infantry_4_marked as nat) + 1024 * (self.ally_aerial_marked as nat) + 2048 * (self.ally_sentry_marked as nat)) as nat, 4096, self.opponent_aerial_targeted as nat, 2, (self.opponent_aerial_countered as nat + 2 * (self.ally_aerial_targeted as nat) + 4 * (self.ally_aerial_countered as nat)) as nat);
        lemma_field(x0, (self.opponent_hero_vulnerable as nat + 2 * (self.opponent_engineer_vulnerable as nat) + 4 * (self.opponent_infantry_3_vulnerable as nat) + 8 * (self.opponent_infantry_4_vulnerable as nat) + 16 * (self.opponent_aerial_marked as nat) + 32 * (self.opponent_sentry_vulnerable as nat) + 64 * (self.ally_hero_marked as nat) + 128 * (self.ally_engineer_marked as nat) + 256 * (self.ally_infantry_3_marked as nat) + 512 * (self.ally_infantry_4_marked as nat) + 1024 * (self.ally_aerial_marked as nat) + 2048 * (self.ally_sentry_marked as nat) + 4096 * (self.opponent_aerial_targeted as nat)) as nat, 8192, self.opponent_aerial_countered as nat, 2, (self.ally_aerial_targeted as nat + 2 * (self.ally_aerial_countered as nat)) as nat);
        lemma_field(x0, (self.opponent_hero_vulnerable as nat + 2 * (self.opponent_engineer_vulnerable as nat) + 4 * (self.opponent_infantry_3_vulnerable as nat) + 8 * (self.opponent_infantry_4_vulnerable as nat) + 16 * (self.opponent_aerial_marked as nat) + 32 * (self.opponent_sentry_vulnerable as nat) + 64 * (self.ally_hero_marked as nat) + 128 * (self.ally_engineer_marked as nat) + 256 * (self.ally_infantry_3_marked as nat) + 512 * (self.ally_infantry_4_marked as nat) + 1024 * (self.ally_aerial_marked as nat) + 2048 * (self.ally_sentry_marked as nat) + 4096 * (self.opponent_aerial_targeted as nat) + 8192 * (self.opponent_aerial_countered as nat)) as nat, 16384, self.ally_aerial_targeted as nat, 2, (self.ally_aerial_countered as nat) as nat);
        lemma_field(x0, (self.opponent_hero_vulnerable as nat + 2 * (self.opponent_engineer_vulnerable as nat) + 4 * (self.opponent_infantry_3_vulnerable as nat) + 8 * (self.opponent_infantry_4_vulnerable as nat) + 16 * (self.opponent_aerial_marked as nat) + 32 * (self.opponent_sentry_vulnerable as nat) + 64 * (self.ally_hero_marked as nat) + 128 * (self.ally_engineer_marked as nat) + 256 * (self.ally_infantry_3_marked as nat) + 512 * (self.ally_infantry_4_marked as nat) + 1024 * (self.ally_aerial_marked as nat) + 2048 * (self.ally_sentry_marked as nat) + 4096 * (self.opponent_aerial_targeted as nat) + 8192 * (self.opponent_aerial_countered as nat) + 16384 * (self.ally_aerial_targeted as nat)) as nat, 32768, self.ally_aerial_countered as nat, 2, (0) as nat);
    }
}

/// Radar autonomous decision sync (cmd 0x020E).
#[derive(Debug, Clone, Copy, Default, PartialEq, Eq)]
pub struct RadarAutonomousDecisionSyncData {
    pub double_weakness_chance: u8,
    pub double_weakness_active: u8,
    pub encryption_rank: u8,
    pub key_modifiable: u8,
}

impl RadarAutonomousDecisionSyncData {
    /// Every bit field holds a value that its width can carry.
    pub open spec fn fits(self) -> bool {
        self.double_weakness_chance < 4
        && self.double_weakness_active < 2
        && self.encryption_rank < 4
        && self.key_modifiable < 2
    }

    /// The 1 bytes that encode this record.
    pub open spec fn spec_encode(self) -> Seq<u8> {
        le_bytes(self.double_weakness_chance as nat + 4 * (self.double_weakness_active as nat) + 8 * (self.encryption_rank as nat) + 32 * (self.key_modifiable as nat), 1)
    }

    /// The record that the first bytes of `b` encode.
    pub open spec fn spec_decode(b: Seq<u8>) -> RadarAutonomousDecisionSyncData {
        let w0 = le_value(b.subrange(0, 1));
        RadarAutonomousDecisionSyncData {
            double_weakness_chance: ((w0 / 1) % 4) as u8,
            double_weakness_active: ((w0 / 4) % 2) as u8,
            encryption_rank: ((w0 / 8) % 4) as u8,
            key_modifiable: ((w0 / 32) % 2) as u8,
        }
    }

    /// Decodes the record from the first 1 bytes of `data`; `None` when fewer are there.
    pub fn from_bytes(data: &[u8]) -> (r: Option<RadarAutonomousDecisionSyncData>)
        ensures
            data@.len() < RADAR_AUTONOMOUS_DECISION_SYNC_DATA_LEN ==> r is None,
            data@.len() >= RADAR_AUTONOMOUS_DECISION_SYNC_DATA_LEN ==> r == Some(RadarAutonomousDecisionSyncData::spec_decode(data@)),
    {
        if data.len() < RADAR_AUTONOMOUS_DECISION_SYNC_DATA_LEN {
            return None;
        }
        let w0 = read_le(data, 0, 1);
        Some(RadarAutonomousDecisionSyncData {
            double_weakness_chance: ((w0 / 1) % 4) as u8,
            double_weakness_active: ((w0 / 4) % 2) as u8,
            encryption_rank: ((w0 / 8) % 4) as u8,
            key_modifiable: ((w0 / 32) % 2) as u8,
        })
    }

    /// Encodes the record in 1 bytes; `None` when a bit field holds a value too wide for it.
    pub fn to_bytes(&self) -> (r: Option<Vec<u8>>)
        ensures
            r is Some <==> self.fits(),
            r matches Some(v) ==> v@ == self.spec_encode(),
    {
        if !(self.double_weakness_chance < 4
            && self.double_weakness_active < 2
            && self.encryption_rank < 4
            && self.key_modifiable < 2) {
            return None;
        }
        let mut out: Vec<u8> = Vec::new();
        write_le(&mut out, (self.double_weakness_chance as u64) + 4 * ((self.double_weakness_active as u64)) + 8 * ((self.encryption_rank as u64)) + 32 * ((self.key_modifiable as u64)), 1);
        assert(out@ =~= self.spec_encode());
        Some(out)
    }

    /// Decoding what `to_bytes` wrote gives back the record.
    pub proof fn lemma_roundtrip(self)
        requires
            self.fits(),
        ensures
            self.spec_encode().len() == 1,
            RadarAutonomousDecisionSyncData::spec_decode(self.spec_encode()) == self,
    {
        reveal_with_fuel(pow256, 9);
        let e = self.spec_encode();
        let x0 = self.double_weakness_chance as nat + 4 * (self.double_weakness_active as nat) + 8 * (self.encryption_rank as nat) + 32 * (self.key_modifiable as nat);
        lemma_le_roundtrip(x0, 1);
        assert(e.subrange(0, 1) =~= le_bytes(x0, 1));
        lemma_field(x0, (0) as nat, 1, self.double_weakness_chance as nat, 4, (self.double_weakness_active as nat + 2 * (self.encryption_rank as nat) + 8 * (self.key_modifiable as nat)) as nat);
        lemma_field(x0, (self.double_weakness_chance as nat) as nat, 4, self.double_weakness_active as nat, 2, (self.encryption_rank as nat + 4 * (self.key_modifiable as nat)) as nat);
        lemma_field(x0, (self.double_weakness_chance as nat + 4 * (self.double_weakness_active as nat)) as nat, 8, self.encryption_rank as nat, 4, (self.key_modifiable as nat) as nat);
        lemma_field(x0, (self.double_weakness_chance as nat + 4 * (self.double_weakness_active as nat) + 8 * (self.encryption_rank as nat)) as nat, 32, self.key_modifiable as nat, 2, (0) as nat);
    }
}

/// Minimap radar positions (cmd 0x0305), twelve (x, y) pairs.
#[derive(Debug, Clone, Copy, Default, PartialEq, Eq)]
pub struct MinimapReceiveRadarData {
    pub opponent_hero_x: u16,
    pub opponent_hero_y: u16,
    pub opponent_engineer_x: u16,
    pub opponent_engineer_y: u16,
    pub opponent_infantry_3_x: u16,
    pub opponent_infantry_3_y: u16,
    pub opponent_infantry_4_x: u16,
    pub opponent_infantry_4_y: u16,
    pub opponent_aerial_x: u16,
    pub opponent_aerial_y: u16,
    pub opponent_sentry_x: u16,
    pub opponent_sentry_y: u16,
    pub ally_hero_x: u16,
    pub ally_hero_y: u16,
    pub ally_engineer_x: u16,
    pub ally_engineer_y: u16,
    pub ally_infantry_3_x: u16,
    pub ally_infantry_3_y: u16,
    pub ally_infantry_4_x: u16,
    pub ally_infantry_4_y: u16,
    pub ally_aerial_x: u16,
    pub ally_aerial_y: u16,
    pub ally_sentry_x: u16,
    pub ally_sentry_y: u16,
}

impl MinimapReceiveRadarData {
    /// Every bit field holds a value that its width can carry.
    pub open spec fn fits(self) -> bool {
        true
    }

    /// The 48 bytes that encode this record.
    pub open spec fn spec_encode(self) -> Seq<u8> {
        le_bytes(self.opponent_hero_x as nat, 2)
            + le_bytes(self.opponent_hero_y as nat, 2)
            + le_bytes(self.opponent_engineer_x as nat, 2)
            + le_bytes(self.opponent_engineer_y as nat, 2)
            + le_bytes(self.opponent_infantry_3_x as nat, 2)
            + le_bytes(self.opponent_infantry_3_y as nat, 2)
            + le_bytes(self.opponent_infantry_4_x as nat, 2)
            + le_bytes(self.opponent_infantry_4_y as nat, 2)
            + le_bytes(self.opponent_aerial_x as nat, 2)
            + le_bytes(self.opponent_aerial_y as nat, 2)
            + le_bytes(self.opponent_sentry_x as nat, 2)
            + le_bytes(self.opponent_sentry_y as nat, 2)
            + le_bytes(self.ally_hero_x as nat, 2)
            + le_bytes(self.ally_hero_y as nat, 2)
            + le_bytes(self.ally_engineer_x as nat, 2)
            + le_bytes(self.ally_engineer_y as nat, 2)
            + le_bytes(self.ally_infantry_3_x as nat, 2)
            + le_bytes(self.ally_infantry_3_y as nat, 2)
            + le_bytes(self.ally_infantry_4_x as nat, 2)
            + le_bytes(self.ally_infantry_4_y as nat, 2)
            + le_bytes(self.ally_aerial_x as nat, 2)
            + le_bytes(self.ally_aerial_y as nat, 2)
            + le_bytes(self.ally_sentry_x as nat, 2)
            + le_bytes(self.ally_sentry_y as nat, 2)
    }

    /// The record that the first bytes of `b` encode.
    pub open spec fn spec_decode(b: Seq<u8>) -> MinimapReceiveRadarData {
        let w0 = le_value(b.subrange(0, 2));
        let w1 = le_value(b.subrange(2, 4));
        let w2 = le_value(b.subrange(4, 6));
        let w3 = le_value(b.subrange(6, 8));
        let w4 = le_value(b.subrange(8, 10));
        let w5 = le_value(b.subrange(10, 12));
        let w6 = le_value(b.subrange(12, 14));
        let w7 = le_value(b.subrange(14, 16));
        let w8 = le_value(b.subrange(16, 18));
        let w9 = le_value(b.subrange(18, 20));
        let w10 = le_value(b.subrange(20, 22));
        let w11 = le_value(b.subrange(22, 24));
        let w12 = le_value(b.subrange(24, 26));
        let w13 = le_value(b.subrange(26, 28));
        let w14 = le_value(b.subrange(28, 30));
        let w15 = le_value(b.subrange(30, 32));
        let w16 = le_value(b.subrange(32, 34));
        let w17 = le_value(b.subrange(34, 36));
        let w18 = le_value(b.subrange(36, 38));
        let w19 = le_value(b.subrange(38, 40));
        let w20 = le_value(b.subrange(40, 42));
        let w21 = le_value(b.subrange(42, 44));
        let w22 = le_value(b.subrange(44, 46));
        let w23 = le_value(b.subrange(46, 48));
        MinimapReceiveRadarData {
            opponent_hero_x: w0 as u16,
            opponent_hero_y: w1 as u16,
            opponent_engineer_x: w2 as u16,
            opponent_engineer_y: w3 as u16,
            opponent_infantry_3_x: w4 as u16,
            opponent_infantry_3_y: w5 as u16,
            opponent_infantry_4_x: w6 as u16,
            opponent_infantry_4_y: w7 as u16,
            opponent_aerial_x: w8 as u16,
            opponent_aerial_y: w9 as u16,
            opponent_sentry_x: w10 as u16,
            opponent_sentry_y: w11 as u16,
            ally_hero_x: w12 as u16,
            ally_hero_y: w13 as u16,
            ally_engineer_x: w14 as u16,
            ally_engineer_y: w15 as u16,
            ally_infantry_3_x: w16 as u16,
            ally_infantry_3_y: w17 as u16,
            ally_infantry_4_x: w18 as u16,
            ally_infantry_4_y: w19 as u16,
            ally_aerial_x: w20 as u16,
            ally_aerial_y: w21 as u16,
            ally_sentry_x: w22 as u16,
            ally_sentry_y: w23 as u16,
        }
    }

    /// Decodes the record from the first 48 bytes of `data`; `None` when fewer are there.
    pub fn from_bytes(data: &[u8]) -> (r: Option<MinimapReceiveRadarData>)
        ensures
            data@.len() < MINIMAP_RECEIVE_RADAR_DATA_LEN ==> r is None,
            data@.len() >= MINIMAP_RECEIVE_RADAR_DATA_LEN ==> r == Some(MinimapReceiveRadarData::spec_decode(data@)),
    {
        if data.len() < MINIMAP_RECEIVE_RADAR_DATA_LEN {
            return None;
        }
        let w0 = read_le(data, 0, 2);
        let w1 = read_le(data, 2, 2);
        let w2 = read_le(data, 4, 2);
        let w3 = read_le(data, 6, 2);
        let w4 = read_le(data, 8, 2);
        let w5 = read_le(data, 10, 2);
        let w6 = read_le(data, 12, 2);
        let w7 = read_le(data, 14, 2);
        let w8 = read_le(data, 16, 2);
        let w9 = read_le(data, 18, 2);
        let w10 = read_le(data, 20, 2);
        let w11 = read_le(data, 22, 2);
        let w12 = read_le(data, 24, 2);
        let w13 = read_le(data, 26, 2);
        let w14 = read_le(data, 28, 2);
        let w15 = read_le(data, 30, 2);
        let w16 = read_le(data, 32, 2);
        let w17 = read_le(data, 34, 2);
        let w18 = read_le(data, 36, 2);
        let w19 = read_le(data, 38, 2);
        let w20 = read_le(data, 40, 2);
        let w21 = read_le(data, 42, 2);
        let w22 = read_le(data, 44, 2);
        let w23 = read_le(data, 46, 2);
        Some(MinimapReceiveRadarData {
            opponent_hero_x: w0 as u16,
            opponent_hero_y: w1 as u16,
            opponent_engineer_x: w2 as u16,
            opponent_engineer_y: w3 as u16,
            opponent_infantry_3_x: w4 as u16,
            opponent_infantry_3_y: w5 as u16,
            opponent_infantry_4_x: w6 as u16,
            opponent_infantry_4_y: w7 as u16,
            opponent_aerial_x: w8 as u16,
            opponent_aerial_y: w9 as u16,
            opponent_sentry_x: w10 as u16,
            opponent_sentry_y: w11 as u16,
            ally_hero_x: w12 as u16,
            ally_hero_y: w13 as u16,
            ally_engineer_x: w14 as u16,
            ally_engineer_y: w15 as u16,
            ally_infantry_3_x: w16 as u16,
            ally_infantry_3_y: w17 as u16,
            ally_infantry_4_x: w18 as u16,
            ally_infantry_4_y: w19 as u16,
            ally_aerial_x: w20 as u16,
            ally_aerial_y: w21 as u16,
            ally_sentry_x: w22 as u16,
            ally_sentry_y: w23 as u16,
        })
    }

    /// Encodes the record in 48 bytes.
    pub fn to_bytes(&self) -> (r: Vec<u8>)
        ensures
            r@ == self.spec_encode(),
    {
        let mut out: Vec<u8> = Vec::new();
        write_le(&mut out, (self.opponent_hero_x as u64), 2);
        write_le(&mut out, (self.opponent_hero_y as u64), 2);
        write_le(&mut out, (self.opponent_engineer_x as u64), 2);
        write_le(&mut out, (self.opponent_engineer_y as u64), 2);
        write_le(&mut out, (self.opponent_infantry_3_x as u64), 2);
        write_le(&mut out, (self.opponent_infantry_3_y as u64), 2);
        write_le(&mut out, (self.opponent_infantry_4_x as u64), 2);
        write_le(&mut out, (self.opponent_infantry_4_y as u64), 2);
        write_le(&mut out, (self.opponent_aerial_x as u64), 2);
        write_le(&mut out, (self.opponent_aerial_y as u64), 2);
        write_le(&mut out, (self.opponent_sentry_x as u64), 2);
        write_le(&mut out, (self.opponent_sentry_y as u64), 2);
        write_le(&mut out, (self.ally_hero_x as u64), 2);
        write_le(&mut out, (self.ally_hero_y as u64), 2);
        write_le(&mut out, (self.ally_engineer_x as u64), 2);
        write_le(&mut out, (self.ally_engineer_y as u64), 2);
        write_le(&mut out, (self.ally_infantry_3_x as u64), 2);
        write_le(&mut out, (self.ally_infantry_3_y as u64), 2);
        write_le(&mut out, (self.ally_infantry_4_x as u64), 2);
        write_le(&mut out, (self.ally_infantry_4_y as u64), 2);
        write_le(&mut out, (self.ally_aerial_x as u64), 2);
        write_le(&mut out, (self.ally_aerial_y as u64), 2);
        write_le(&mut out, (self.ally_sentry_x as u64), 2);
        write_le(&mut out, (self.ally_sentry_y as u64), 2);
        assert(out@ =~= self.spec_encode());
        out
    }

    /// Decoding what `to_bytes` wrote gives back the record.
    pub proof fn lemma_roundtrip(self)
        requires
            self.fits(),
        ensures
            self.spec_encode().len() == 48,
            MinimapReceiveRadarData::spec_decode(self.spec_encode()) == self,
    {
        reveal_with_fuel(pow256, 9);
        let e = self.spec_encode();
        let x0 = self.opponent_hero_x as nat;
        lemma_le_roundtrip(x0, 2);
        let x1 = self.opponent_hero_y as nat;
        lemma_le_roundtrip(x1, 2);
        let x2 = self.opponent_engineer_x as nat;
        lemma_le_roundtrip(x2, 2);
        let x3 = self.opponent_engineer_y as nat;
        lemma_le_roundtrip(x3, 2);
        let x4 = self.opponent_infantry_3_x as nat;
        lemma_le_roundtrip(x4, 2);
        let x5 = self.opponent_infantry_3_y as nat;
        lemma_le_roundtrip(x5, 2);
        let x6 = self.opponent_infantry_4_x as nat;
        lemma_le_roundtrip(x6, 2);
        let x7 = self.opponent_infantry_4_y as nat;
        lemma_le_roundtrip(x7, 2);
        let x8 = self.opponent_aerial_x as nat;
        lemma_le_roundtrip(x8, 2);
        let x9 = self.opponent_aerial_y as nat;
        lemma_le_roundtrip(x9, 2);
        let x10 = self.opponent_sentry_x as nat;
        lemma_le_roundtrip(x10, 2);
        let x11 = self.opponent_sentry_y as nat;
        lemma_le_roundtrip(x11, 2);
        let x12 = self.ally_hero_x as nat;
        lemma_le_roundtrip(x12, 2);
        let x13 = self.ally_hero_y as nat;
        lemma_le_roundtrip(x13, 2);
        let x14 = self.ally_engineer_x as nat;
        lemma_le_roundtrip(x14, 2);
        let x15 = self.ally_engineer_y as nat;
        lemma_le_roundtrip(x15, 2);
        let x16 = self.ally_infantry_3_x as nat;
        lemma_le_roundtrip(x16, 2);
        let x17 = self.ally_infantry_3_y as nat;
        lemma_le_roundtrip(x17, 2);
        let x18 = self.ally_infantry_4_x as nat;
        lemma_le_roundtrip(x18, 2);
        let x19 = self.ally_infantry_4_y as nat;
        lemma_le_roundtrip(x19, 2);
        let x20 = self.ally_aerial_x as nat;
        lemma_le_roundtrip(x20, 2);
        let x21 = self.ally_aerial_y as nat;
        lemma_le_roundtrip(x21, 2);
        let x22 = self.ally_sentry_x as nat;
        lemma_le_roundtrip(x22, 2);
        let x23 = self.ally_sentry_y as nat;
        lemma_le_roundtrip(x23, 2);
        assert(e.subrange(0, 2) =~= le_bytes(x0, 2));
        assert(e.subrange(2, 4) =~= le_bytes(x1, 2));
        assert(e.subrange(4, 6) =~= le_bytes(x2, 2));
        assert(e.subrange(6, 8) =~= le_bytes(x3, 2));
        assert(e.subrange(8, 10) =~= le_bytes(x4, 2));
        assert(e.subrange(10, 12) =~= le_bytes(x5, 2));
        assert(e.subrange(12, 14) =~= le_bytes(x6, 2));
        assert(e.subrange(14, 16) =~= le_bytes(x7, 2));
        assert(e.subrange(16, 18) =~= le_bytes(x8, 2));
        assert(e.subrange(18, 20) =~= le_bytes(x9, 2));
        assert(e.subrange(20, 22) =~= le_bytes(x10, 2));
        assert(e.subrange(22, 24) =~= le_bytes(x11, 2));
        assert(e.subrange(24, 26) =~= le_bytes(x12, 2));
        assert(e.subrange(26, 28) =~= le_bytes(x13, 2));
        assert(e.subrange(28, 30) =~= le_bytes(x14, 2));
        assert(e.subrange(30, 32) =~= le_bytes(x15, 2));
        assert(e.subrange(32, 34) =~= le_bytes(x16, 2));
        assert(e.subrange(34, 36) =~= le_bytes(x17, 2));
        assert(e.subrange(36, 38) =~= le_bytes(x18, 2));
        assert(e.subrange(38, 40) =~= le_bytes(x19, 2));
        assert(e.subrange(40, 42) =~= le_bytes(x20, 2));
        assert(e.subrange(42, 44) =~= le_bytes(x21, 2));
        assert(e.subrange(44, 46) =~= le_bytes(x22, 2));
        assert(e.subrange(46, 48) =~= le_bytes(x23, 2));
    }
}

/// Enemy positions in centimetres (SDR 0x0A01).
#[derive(Debug, Clone, Copy, Default, PartialEq, Eq)]
pub struct SdrEnemyRobotPositionData {
    pub hero_x: i16,
    pub hero_y: i16,
    pub engineer_x: i16,
    pub engineer_y: i16,
    pub infantry_3_x: i16,
    pub infantry_3_y: i16,
    pub infantry_4_x: i16,
    pub infantry_4_y: i16,
    pub aerial_x: i16,
    pub aerial_y: i16,
    pub sentry_x: i16,
    pub sentry_y: i16,
}

impl SdrEnemyRobotPositionData {
    /// Every bit field holds a value that its width can carry.
    pub open spec fn fits(self) -> bool {
        true
    }

    /// The 24 bytes that encode this record.
    pub open spec fn spec_encode(self) -> Seq<u8> {
        le_bytes((self.hero_x as u16) as nat, 2)
            + le_bytes((self.hero_y as u16) as nat, 2)
            + le_bytes((self.engineer_x as u16) as nat, 2)
            + le_bytes((self.engineer_y as u16) as nat, 2)
            + le_bytes((self.infantry_3_x as u16) as nat, 2)
            + le_bytes((self.infantry_3_y as u16) as nat, 2)
            + le_bytes((self.infantry_4_x as u16) as nat, 2)
            + le_bytes((self.infantry_4_y as u16) as nat, 2)
            + le_bytes((self.aerial_x as u16) as nat, 2)
            + le_bytes((self.aerial_y as u16) as nat, 2)
            + le_bytes((self.sentry_x as u16) as nat, 2)
            + le_bytes((self.sentry_y as u16) as nat, 2)
    }

    /// The record that the first bytes of `b` encode.
    pub open spec fn spec_decode(b: Seq<u8>) -> SdrEnemyRobotPositionData {
        let w0 = le_value(b.subrange(0, 2));
        let w1 = le_value(b.subrange(2, 4));
        let w2 = le_value(b.subrange(4, 6));
        let w3 = le_value(b.subrange(6, 8));
        let w4 = le_value(b.subrange(8, 10));
        let w5 = le_value(b.subrange(10, 12));
        let w6 = le_value(b.subrange(12, 14));
        let w7 = le_value(b.subrange(14, 16));
        let w8 = le_value(b.subrange(16, 18));
        let w9 = le_value(b.subrange(18, 20));
        let w10 = le_value(b.subrange(20, 22));
        let w11 = le_value(b.subrange(22, 24));
        SdrEnemyRobotPositionData {
            hero_x: (w0 as u16) as i16,
            hero_y: (w1 as u16) as i16,
            engineer_x: (w2 as u16) as i16,
            engineer_y: (w3 as u16) as i16,
            infantry_3_x: (w4 as u16) as i16,
            infantry_3_y: (w5 as u16) as i16,
            infantry_4_x: (w6 as u16) as i16,
            infantry_4_y: (w7 as u16) as i16,
            aerial_x: (w8 as u16) as i16,
            aerial_y: (w9 as u16) as i16,
            sentry_x: (w10 as u16) as i16,
            sentry_y: (w11 as u16) as i16,
        }
    }

    /// Decodes the record from the first 24 bytes of `data`; `None` when fewer are there.
    pub fn from_bytes(data: &[u8]) -> (r: Option<SdrEnemyRobotPositionData>)
        ensures
            data@.len() < SDR_ENEMY_ROBOT_POSITION_DATA_LEN ==> r is None,
            data@.len() >= SDR_ENEMY_ROBOT_POSITION_DATA_LEN ==> r == Some(SdrEnemyRobotPositionData::spec_decode(data@)),
    {
        if data.len() < SDR_ENEMY_ROBOT_POSITION_DATA_LEN {
            return None;
        }
        let w0 = read_le(data, 0, 2);
        let w1 = read_le(data, 2, 2);
        let w2 = read_le(data, 4, 2);
        let w3 = read_le(data, 6, 2);
        let w4 = read_le(data, 8, 2);
        let w5 = read_le(data, 10, 2);
        let w6 = read_le(data, 12, 2);
        let w7 = read_le(data, 14, 2);
        let w8 = read_le(data, 16, 2);
        let w9 = read_le(data, 18, 2);
        let w10 = read_le(data, 20, 2);
        let w11 = read_le(data, 22, 2);
        Some(SdrEnemyRobotPositionData {
            hero_x: (w0 as u16) as i16,
            hero_y: (w1 as u16) as i16,
            engineer_x: (w2 as u16) as i16,
            engineer_y: (w3 as u16) as i16,
            infantry_3_x: (w4 as u16) as i16,
            infantry_3_y: (w5 as u16) as i16,
            infantry_4_x: (w6 as u16) as i16,
            infantry_4_y: (w7 as u16) as i16,
            aerial_x: (w8 as u16) as i16,
            aerial_y: (w9 as u16) as i16,
            sentry_x: (w10 as u16) as i16,
            sentry_y: (w11 as u16) as i16,
        })
    }

    /// Encodes the record in 24 bytes.
    pub fn to_bytes(&self) -> (r: Vec<u8>)
        ensures
            r@ == self.spec_encode(),
    {
        let mut out: Vec<u8> = Vec::new();
        write_le(&mut out, ((self.hero_x as u16) as u64), 2);
        write_le(&mut out, ((self.hero_y as u16) as u64), 2);
        write_le(&mut out, ((self.engineer_x as u16) as u64), 2);
        write_le(&mut out, ((self.engineer_y as u16) as u64), 2);
        write_le(&mut out, ((self.infantry_3_x as u16) as u64), 2);
        write_le(&mut out, ((self.infantry_3_y as u16) as u64), 2);
        write_le(&mut out, ((self.infantry_4_x as u16) as u64), 2);
        write_le(&mut out, ((self.infantry_4_y as u16) as u64), 2);
        write_le(&mut out, ((self.aerial_x as u16) as u64), 2);
        write_le(&mut out, ((self.aerial_y as u16) as u64), 2);
        write_le(&mut out, ((self.sentry_x as u16) as u64), 2);
        write_le(&mut out, ((self.sentry_y as u16) as u64), 2);
        assert(out@ =~= self.spec_encode());
        out
    }

    /// Decoding what `to_bytes` wrote gives back the record.
    pub proof fn lemma_roundtrip(self)
        requires
            self.fits(),
        ensures
            self.spec_encode().len() == 24,
            SdrEnemyRobotPositionData::spec_decode(self.spec_encode()) == self,
    {
        reveal_with_fuel(pow256, 9);
        let e = self.spec_encode();
        let x0 = (self.hero_x as u16) as nat;
        lemma_le_roundtrip(x0, 2);
        let x1 = (self.hero_y as u16) as nat;
        lemma_le_roundtrip(x1, 2);
        let x2 = (self.engineer_x as u16) as nat;
        lemma_le_roundtrip(x2, 2);
        let x3 = (self.engineer_y as u16) as nat;
        lemma_le_roundtrip(x3, 2);
        let x4 = (self.infantry_3_x as u16) as nat;
        lemma_le_roundtrip(x4, 2);
        let x5 = (self.infantry_3_y as u16) as nat;
        lemma_le_roundtrip(x5, 2);
        let x6 = (self.infantry_4_x as u16) as nat;
        lemma_le_roundtrip(x6, 2);
        let x7 = (self.infantry_4_y as u16) as nat;
        lemma_le_roundtrip(x7, 2);
        let x8 = (self.aerial_x as u16) as nat;
        lemma_le_roundtrip(x8, 2);
        let x9 = (self.aerial_y as u16) as nat;
        lemma_le_roundtrip(x9, 2);
        let x10 = (self.sentry_x as u16) as nat;
        lemma_le_roundtrip(x10, 2);
        let x11 = (self.sentry_y as u16) as nat;
        lemma_le_roundtrip(x11, 2);
        assert(e.subrange(0, 2) =~= le_bytes(x0, 2));
        lemma_i16_bits(self.hero_x);
        assert(e.subrange(2, 4) =~= le_bytes(x1, 2));
        lemma_i16_bits(self.hero_y);
        assert(e.subrange(4, 6) =~= le_bytes(x2, 2));
        lemma_i16_bits(self.engineer_x);
        assert(e.subrange(6, 8) =~= le_bytes(x3, 2));
        lemma_i16_bits(self.engineer_y);
        assert(e.subrange(8, 10) =~= le_bytes(x4, 2));
        lemma_i16_bits(self.infantry_3_x);
        assert(e.subrange(10, 12) =~= le_bytes(x5, 2));
        lemma_i16_bits(self.infantry_3_y);
        assert(e.subrange(12, 14) =~= le_bytes(x6, 2));
        lemma_i16_bits(self.infantry_4_x);
        assert(e.subrange(14, 16) =~= le_bytes(x7, 2));
        lemma_i16_bits(self.infantry_4_y);
        assert(e.subrange(16, 18) =~= le_bytes(x8, 2));
        lemma_i16_bits(self.aerial_x);
        assert(e.subrange(18, 20) =~= le_bytes(x9, 2));
        lemma_i16_bits(self.aerial_y);
        assert(e.subrange(20, 22) =~= le_bytes(x10, 2));
        lemma_i16_bits(self.sentry_x);
        assert(e.subrange(22, 24) =~= le_bytes(x11, 2));
        lemma_i16_bits(self.sentry_y);
    }
}

/// Enemy hit points (SDR 0x0A02).
#[derive(Debug, Clone, Copy, Default, PartialEq, Eq)]
pub struct SdrEnemyRobotBloodData {
    pub hero_blood: u16,
    pub engineer_blood: u16,
    pub infantry_3_blood: u16,
    pub infantry_4_blood: u16,
    pub reserved: u16,
    pub sentry_blood: u16,
}

impl SdrEnemyRobotBloodData {
    /// Every bit field holds a value that its width can carry.
    pub open spec fn fits(self) -> bool {
        true
    }

    /// The 12 bytes that encode this record.
    pub open spec fn spec_encode(self) -> Seq<u8> {
        le_bytes(self.hero_blood as nat, 2)
            + le_bytes(self.engineer_blood as nat, 2)
            + le_bytes(self.infantry_3_blood as nat, 2)
            + le_bytes(self.infantry_4_blood as nat, 2)
            + le_bytes(self.reserved as nat, 2)
            + le_bytes(self.sentry_blood as nat, 2)
    }

    /// The record that the first bytes of `b` encode.
    pub open spec fn spec_decode(b: Seq<u8>) -> SdrEnemyRobotBloodData {
        let w0 = le_value(b.subrange(0, 2));
        let w1 = le_value(b.subrange(2, 4));
        let w2 = le_value(b.subrange(4, 6));
        let w3 = le_value(b.subrange(6, 8));
        let w4 = le_value(b.subrange(8, 10));
        let w5 = le_value(b.subrange(10, 12));
        SdrEnemyRobotBloodData {
            hero_blood: w0 as u16,
            engineer_blood: w1 as u16,
            infantry_3_blood: w2 as u16,
            infantry_4_blood: w3 as u16,
            reserved: w4 as u16,
            sentry_blood: w5 as u16,
        }
    }

    /// Decodes the record from the first 12 bytes of `data`; `None` when fewer are there.
    pub fn from_bytes(data: &[u8]) -> (r: Option<SdrEnemyRobotBloodData>)
        ensures
            data@.len() < SDR_ENEMY_ROBOT_BLOOD_DATA_LEN ==> r is None,
            data@.len() >= SDR_ENEMY_ROBOT_BLOOD_DATA_LEN ==> r == Some(SdrEnemyRobotBloodData::spec_decode(data@)),
    {
        if data.len() < SDR_ENEMY_ROBOT_BLOOD_DATA_LEN {
            return None;
        }
        let w0 = read_le(data, 0, 2);
        let w1 = read_le(data, 2, 2);
        let w2 = read_le(data, 4, 2);
        let w3 = read_le(data, 6, 2);
        let w4 = read_le(data, 8, 2);
        let w5 = read_le(data, 10, 2);
        Some(SdrEnemyRobotBloodData {
            hero_blood: w0 as u16,
            engineer_blood: w1 as u16,
            infantry_3_blood: w2 as u16,
            infantry_4_blood: w3 as u16,
            reserved: w4 as u16,
            sentry_blood: w5 as u16,
        })
    }

    /// Encodes the record in 12 bytes.
    pub fn to_bytes(&self) -> (r: Vec<u8>)
        ensures
            r@ == self.spec_encode(),
    {
        let mut out: Vec<u8> = Vec::new();
        write_le(&mut out, (self.hero_blood as u64), 2);
        write_le(&mut out, (self.engineer_blood as u64), 2);
        write_le(&mut out, (self.infantry_3_blood as u64), 2);
        write_le(&mut out, (self.infantry_4_blood as u64), 2);
        write_le(&mut out, (self.reserved as u64), 2);
        write_le(&mut out, (self.sentry_blood as u64), 2);
        assert(out@ =~= self.spec_encode());
        out
    }

    /// Decoding what `to_bytes` wrote gives back the record.
    pub proof fn lemma_roundtrip(self)
        requires
            self.fits(),
        ensures
            self.spec_encode().len() == 12,
            SdrEnemyRobotBloodData::spec_decode(self.spec_encode()) == self,
    {
        reveal_with_fuel(pow256, 9);
        let e = self.spec_encode();
        let x0 = self.hero_blood as nat;
        lemma_le_roundtrip(x0, 2);
        let x1 = self.engineer_blood as nat;
        lemma_le_roundtrip(x1, 2);
        let x2 = self.infantry_3_blood as nat;
        lemma_le_roundtrip(x2, 2);
        let x3 = self.infantry_4_blood as nat;
        lemma_le_roundtrip(x3, 2);
        let x4 = self.reserved as nat;
        lemma_le_roundtrip(x4, 2);
        let x5 = self.sentry_blood as nat;
        lemma_le_roundtrip(x5, 2);
        assert(e.subrange(0, 2) =~= le_bytes(x0, 2));
        assert(e.subrange(2, 4) =~= le_bytes(x1, 2));
        assert(e.subrange(4, 6) =~= le_bytes(x2, 2));
        assert(e.subrange(6, 8) =~= le_bytes(x3, 2));
        assert(e.subrange(8, 10) =~= le_bytes(x4, 2));
        assert(e.subrange(10, 12) =~= le_bytes(x5, 2));
    }
}

/// Enemy remaining ammunition (SDR 0x0A03).
#[derive(Debug, Clone, Copy, Default, PartialEq, Eq)]
pub struct SdrEnemyRobotRemainingAmmoData {
    pub hero_ammo: u16,
    pub infantry_3_ammo: u16,
    pub infantry_4_ammo: u16,
    pub aerial_ammo: u16,
    pub sentry_ammo: u16,
}

impl SdrEnemyRobotRemainingAmmoData {
    /// Every bit field holds a value that its width can carry.
    pub open spec fn fits(self) -> bool {
        true
    }

    /// The 10 bytes that encode this record.
    pub open spec fn spec_encode(self) -> Seq<u8> {
        le_bytes(self.hero_ammo as nat, 2)
            + le_bytes(self.infantry_3_ammo as nat, 2)
            + le_bytes(self.infantry_4_ammo as nat, 2)
            + le_bytes(self.aerial_ammo as nat, 2)
            + le_bytes(self.sentry_ammo as nat, 2)
    }

    /// The record that the first bytes of `b` encode.
    pub open spec fn spec_decode(b: Seq<u8>) -> SdrEnemyRobotRemainingAmmoData {
        let w0 = le_value(b.subrange(0, 2));
        let w1 = le_value(b.subrange(2, 4));
        let w2 = le_value(b.subrange(4, 6));
        let w3 = le_value(b.subrange(6, 8));
        let w4 = le_value(b.subrange(8, 10));
        SdrEnemyRobotRemainingAmmoData {
            hero_ammo: w0 as u16,
            infantry_3_ammo: w1 as u16,
            infantry_4_ammo: w2 as u16,
            aerial_ammo: w3 as u16,
            sentry_ammo: w4 as u16,
        }
    }

    /// Decodes the record from the first 10 bytes of `data`; `None` when fewer are there.
    pub fn from_bytes(data: &[u8]) -> (r: Option<SdrEnemyRobotRemainingAmmoData>)
        ensures
            data@.len() < SDR_ENEMY_ROBOT_REMAINING_AMMO_DATA_LEN ==> r is None,
            data@.len() >= SDR_ENEMY_ROBOT_REMAINING_AMMO_DATA_LEN ==> r == Some(SdrEnemyRobotRemainingAmmoData::spec_decode(data@)),
    {
        if data.len() < SDR_ENEMY_ROBOT_REMAINING_AMMO_DATA_LEN {
            return None;
        }
        let w0 = read_le(data, 0, 2);
        let w1 = read_le(data, 2, 2);
        let w2 = read_le(data, 4, 2);
        let w3 = read_le(data, 6, 2);
        let w4 = read_le(data, 8, 2);
        Some(SdrEnemyRobotRemainingAmmoData {
            hero_ammo: w0 as u16,
            infantry_3_ammo: w1 as u16,
            infantry_4_ammo: w2 as u16,
            aerial_ammo: w3 as u16,
            sentry_ammo: w4 as u16,
        })
    }

    /// Encodes the record in 10 bytes.
    pub fn to_bytes(&self) -> (r: Vec<u8>)
        ensures
            r@ == self.spec_encode(),
    {
        let mut out: Vec<u8> = Vec::new();
        write_le(&mut out, (self.hero_ammo as u64), 2);
        write_le(&mut out, (self.infantry_3_ammo as u64), 2);
        write_le(&mut out, (self.infantry_4_ammo as u64), 2);
        write_le(&mut out, (self.aerial_ammo as u64), 2);
        write_le(&mut out, (self.sentry_ammo as u64), 2);
        assert(out@ =~= self.spec_encode());
        out
    }

    /// Decoding what `to_bytes` wrote gives back the record.
    pub proof fn lemma_roundtrip(self)
        requires
            self.fits(),
        ensures
            self.spec_encode().len() == 10,
            SdrEnemyRobotRemainingAmmoData::spec_decode(self.spec_encode()) == self,
    {
        reveal_with_fuel(pow256, 9);
        let e = self.spec_encode();
        let x0 = self.hero_ammo as nat;
        lemma_le_roundtrip(x0, 2);
        let x1 = self.infantry_3_ammo as nat;
        lemma_le_roundtrip(x1, 2);
        let x2 = self.infantry_4_ammo as nat;
        lemma_le_roundtrip(x2, 2);
        let x3 = self.aerial_ammo as nat;
        lemma_le_roundtrip(x3, 2);
        let x4 = self.sentry_ammo as nat;
        lemma_le_roundtrip(x4, 2);
        assert(e.subrange(0, 2) =~= le_bytes(x0, 2));
        assert(e.subrange(2, 4) =~= le_bytes(x1, 2));
        assert(e.subrange(4, 6) =~= le_bytes(x2, 2));
        assert(e.subrange(6, 8) =~= le_bytes(x3, 2));
        assert(e.subrange(8, 10) =~= le_bytes(x4, 2));
    }
}

/// Enemy economy and site occupation (SDR 0x0A04).
#[derive(Debug, Clone, Copy, Default, PartialEq, Eq)]
pub struct SdrEnemyRobotOverallStateData {
    pub remaining_gold: u16,
    pub total_gold: u16,
    pub supply_zone_status: u8,
    pub central_highland_status: u8,
    pub trapezoid_highland_status: u8,
    pub fortress_gain_status: u8,
    pub outpost_gain_status: u8,
    pub base_gain_status: u8,
    pub tunnel_1_status: u8,
    pub tunnel_2_status: u8,
    pub tunnel_3_status: u8,
    pub tunnel_4_status: u8,
    pub highland_upper_status: u8,
    pub ramp_rear_status: u8,
    pub road_upper_status: u8,
}

impl SdrEnemyRobotOverallStateData {
    /// Every bit field holds a value that its width can carry.
    pub open spec fn fits(self) -> bool {
        self.supply_zone_status < 2
        && self.central_highland_status < 4
        && self.trapezoid_highland_status < 2
        && self.fortress_gain_status < 4
        && self.outpost_gain_status < 4
        && self.base_gain_status < 2
        && self.tunnel_1_status < 2
        && self.tunnel_2_status < 2
        && self.tunnel_3_status < 2
        && self.tunnel_4_status < 2
        && self.highland_upper_status < 2
        && self.ramp_rear_status < 2
        && self.road_upper_status < 2
    }

    /// The 8 bytes that encode this record.
    pub open spec fn spec_encode(self) -> Seq<u8> {
        le_bytes(self.remaining_gold as nat, 2)
            + le_bytes(self.total_gold as nat, 2)
            + le_bytes(self.supply_zone_status as nat + 2 * (self.central_highland_status as nat) + 8 * (self.trapezoid_highland_status as nat) + 16 * (self.fortress_gain_status as nat) + 64 * (self.outpost_gain_status as nat) + 256 * (self.base_gain_status as nat) + 512 * (self.tunnel_1_status as nat) + 1024 * (self.tunnel_2_status as nat) + 2048 * (self.tunnel_3_status as nat) + 4096 * (self.tunnel_4_status as nat) + 8192 * (self.highland_upper_status as nat) + 16384 * (self.ramp_rear_status as nat) + 32768 * (self.road_upper_status as nat), 4)
    }

    /// The record that the first bytes of `b` encode.
    pub open spec fn spec_decode(b: Seq<u8>) -> SdrEnemyRobotOverallStateData {
        let w0 = le_value(b.subrange(0, 2));
        let w1 = le_value(b.subrange(2, 4));
        let w2 = le_value(b.subrange(4, 8));
        SdrEnemyRobotOverallStateData {
            remaining_gold: w0 as u16,
            total_gold: w1 as u16,
            supply_zone_status: ((w2 / 1) % 2) as u8,
            central_highland_status: ((w2 / 2) % 4) as u8,
            trapezoid_highland_status: ((w2 / 8) % 2) as u8,
            fortress_gain_status: ((w2 / 16) % 4) as u8,
            outpost_gain_status: ((w2 / 64) % 4) as u8,
            base_gain_status: ((w2 / 256) % 2) as u8,
            tunnel_1_status: ((w2 / 512) % 2) as u8,
            tunnel_2_status: ((w2 / 1024) % 2) as u8,
            tunnel_3_status: ((w2 / 2048) % 2) as u8,
            tunnel_4_status: ((w2 / 4096) % 2) as u8,
            highland_upper_status: ((w2 / 8192) % 2) as u8,
            ramp_rear_status: ((w2 / 16384) % 2) as u8,
            road_upper_status: ((w2 / 32768) % 2) as u8,
        }
    }

    /// Decodes the record from the first 8 bytes of `data`; `None` when fewer are there.
    pub fn from_bytes(data: &[u8]) -> (r: Option<SdrEnemyRobotOverallStateData>)
        ensures
            data@.len() < SDR_ENEMY_ROBOT_OVERALL_STATE_DATA_LEN ==> r is None,
            data@.len() >= SDR_ENEMY_ROBOT_OVERALL_STATE_DATA_LEN ==> r == Some(SdrEnemyRobotOverallStateData::spec_decode(data@)),
    {
        if data.len() < SDR_ENEMY_ROBOT_OVERALL_STATE_DATA_LEN {
            return None;
        }
        let w0 = read_le(data, 0, 2);
        let w1 = read_le(data, 2, 2);
        let w2 = read_le(data, 4, 4);
        Some(SdrEnemyRobotOverallStateData {
            remaining_gold: w0 as u16,
            total_gold: w1 as u16,
            supply_zone_status: ((w2 / 1) % 2) as u8,
            central_highland_status: ((w2 / 2) % 4) as u8,
            trapezoid_highland_status: ((w2 / 8) % 2) as u8,
            fortress_gain_status: ((w2 / 16) % 4) as u8,
            outpost_gain_status: ((w2 / 64) % 4) as u8,
            base_gain_status: ((w2 / 256) % 2) as u8,
            tunnel_1_status: ((w2 / 512) % 2) as u8,
            tunnel_2_status: ((w2 / 1024) % 2) as u8,
            tunnel_3_status: ((w2 / 2048) % 2) as u8,
            tunnel_4_status: ((w2 / 4096) % 2) as u8,
            highland_upper_status: ((w2 / 8192) % 2) as u8,
            ramp_rear_status: ((w2 / 16384) % 2) as u8,
            road_upper_status: ((w2 / 32768) % 2) as u8,
        })
    }

    /// Encodes the record in 8 bytes; `None` when a bit field holds a value too wide for it.
    pub fn to_bytes(&self) -> (r: Option<Vec<u8>>)
        ensures
            r is Some <==> self.fits(),
            r matches Some(v) ==> v@ == self.spec_encode(),
    {
        if !(self.supply_zone_status < 2
            && self.central_highland_status < 4
            && self.trapezoid_highland_status < 2
            && self.fortress_gain_status < 4
            && self.outpost_gain_status < 4
            && self.base_gain_status < 2
            && self.tunnel_1_status < 2
            && self.tunnel_2_status < 2
            && self.tunnel_3_status < 2
            && self.tunnel_4_status < 2
            && self.highland_upper_status < 2
            && self.ramp_rear_status < 2
            && self.road_upper_status < 2) {
            return None;
        }
        let mut out: Vec<u8> = Vec::new();
        write_le(&mut out, (self.remaining_gold as u64), 2);
        write_le(&mut out, (self.total_gold as u64), 2);
        write_le(&mut out, (self.supply_zone_status as u64) + 2 * ((self.central_highland_status as u64)) + 8 * ((self.trapezoid_highland_status as u64)) + 16 * ((self.fortress_gain_status as u64)) + 64 * ((self.outpost_gain_status as u64)) + 256 * ((self.base_gain_status as u64)) + 512 * ((self.tunnel_1_status as u64)) + 1024 * ((self.tunnel_2_status as u64)) + 2048 * ((self.tunnel_3_status as u64)) + 4096 * ((self.tunnel_4_status as u64)) + 8192 * ((self.highland_upper_status as u64)) + 16384 * ((self.ramp_rear_status as u64)) + 32768 * ((self.road_upper_status as u64)), 4);
        assert(out@ =~= self.spec_encode());
        Some(out)
    }

    /// Decoding what `to_bytes` wrote gives back the record.
    pub proof fn lemma_roundtrip(self)
        requires
            self.fits(),
        ensures
            self.spec_encode().len() == 8,
            SdrEnemyRobotOverallStateData::spec_decode(self.spec_encode()) == self,
    {
        reveal_with_fuel(pow256, 9);
        let e = self.spec_encode();
        let x0 = self.remaining_gold as nat;
        lemma_le_roundtrip(x0, 2);
        let x1 = self.total_gold as nat;
        lemma_le_roundtrip(x1, 2);
        let x2 = self.supply_zone_status as nat + 2 * (self.central_highland_status as nat) + 8 * (self.trapezoid_highland_status as nat) + 16 * (self.fortress_gain_status as nat) + 64 * (self.outpost_gain_status as nat) + 256 * (self.base_gain_status as nat) + 512 * (self.tunnel_1_status as nat) + 1024 * (self.tunnel_2_status as nat) + 2048 * (self.tunnel_3_status as nat) + 4096 * (self.tunnel_4_status as nat) + 8192 * (self.highland_upper_status as nat) + 16384 * (self.ramp_rear_status as nat) + 32768 * (self.road_upper_status as nat);
        lemma_le_roundtrip(x2, 4);
        assert(e.subrange(0, 2) =~= le_bytes(x0, 2));
        assert(e.subrange(2, 4) =~= le_bytes(x1, 2));
        assert(e.subrange(4, 8) =~= le_bytes(x2, 4));
        lemma_field(x2, (0) as nat, 1, self.supply_zone_status as nat, 2, (self.central_highland_status as nat + 4 * (self.trapezoid_highland_status as nat) + 8 * (self.fortress_gain_status as nat) + 32 * (self.outpost_gain_status as nat) + 128 * (self.base_gain_status as nat) + 256 * (self.tunnel_1_status as nat) + 512 * (self.tunnel_2_status as nat) + 1024 * (self.tunnel_3_status as nat) + 2048 * (self.tunnel_4_status as nat) + 4096 * (self.highland_upper_status as nat) + 8192 * (self.ramp_rear_status as nat) + 16384 * (self.road_upper_status as nat)) as nat);
        lemma_field(x2, (self.supply_zone_status as nat) as nat, 2, self.central_highland_status as nat, 4, (self.trapezoid_highland_status as nat + 2 * (self.fortress_gain_status as nat) + 8 * (self.outpost_gain_status as nat) + 32 * (self.base_gain_status as nat) + 64 * (self.tunnel_1_status as nat) + 128 * (self.tunnel_2_status as nat) + 256 * (self.tunnel_3_status as nat) + 512 * (self.tunnel_4_status as nat) + 1024 * (self.highland_upper_status as nat) + 2048 * (self.ramp_rear_status as nat) + 4096 * (self.road_upper_status as nat)) as nat);
        lemma_field(x2, (self.supply_zone_status as nat + 2 * (self.central_highland_status as nat)) as nat, 8, self.trapezoid_highland_status as nat, 2, (self.fortress_gain_status as nat + 4 * (self.outpost_gain_status as nat) + 16 * (self.base_gain_status as nat) + 32 * (self.tunnel_1_status as nat) + 64 * (self.tunnel_2_status as nat) + 128 * (self.tunnel_3_status as nat) + 256 * (self.tunnel_4_status as nat) + 512 * (self.highland_upper_status as nat) + 1024 * (self.ramp_rear_status as nat) + 2048 * (self.road_upper_status as nat)) as nat);
        lemma_field(x2, (self.supply_zone_status as nat + 2 * (self.central_highland_status as nat) + 8 * (self.trapezoid_highland_status as nat)) as nat, 16, self.fortress_gain_status as nat, 4, (self.outpost_gain_status as nat + 4 * (self.base_gain_status as nat) + 8 * (self.tunnel_1_status as nat) + 16 * (self.tunnel_2_status as nat) + 32 * (self.tunnel_3_status as nat) + 64 * (self.tunnel_4_status as nat) + 128 * (self.highland_upper_status as nat) + 256 * (self.ramp_rear_status as nat) + 512 * (self.road_upper_status as nat)) as nat);
        lemma_field(x2, (self.supply_zone_status as nat + 2 * (self.central_highland_status as nat) + 8 * (self.trapezoid_highland_status as nat) + 16 * (self.fortress_gain_status as nat)) as nat, 64, self.outpost_gain_status as nat, 4, (self.base_gain_status as nat + 2 * (self.tunnel_1_status as nat) + 4 * (self.tunnel_2_status as nat) + 8 * (self.tunnel_3_status as nat) + 16 * (self.tunnel_4_status as nat) + 32 * (self.highland_upper_status as nat) + 64 * (self.ramp_rear_status as nat) + 128 * (self.road_upper_status as nat)) as nat);
        lemma_field(x2, (self.supply_zone_status as nat + 2 * (self.central_highland_status as nat) + 8 * (self.trapezoid_highland_status as nat) + 16 * (self.fortress_gain_status as nat) + 64 * (self.outpost_gain_status as nat)) as nat, 256, self.base_gain_status as nat, 2, (self.tunnel_1_status as nat + 2 * (self.tunnel_2_status as nat) + 4 * (self.tunnel_3_status as nat) + 8 * (self.tunnel_4_status as nat) + 16 * (self.highland_upper_status as nat) + 32 * (self.ramp_rear_status as nat) + 64 * (self.road_upper_status as nat)) as nat);
        lemma_field(x2, (self.supply_zone_status as nat + 2 * (self.central_highland_status as nat) + 8 * (self.trapezoid_highland_status as nat) + 16 * (self.fortress_gain_status as nat) + 64 * (self.outpost_gain_status as nat) + 256 * (self.base_gain_status as nat)) as nat, 512, self.tunnel_1_status as nat, 2, (self.tunnel_2_status as nat + 2 * (self.tunnel_3_status as nat) + 4 * (self.tunnel_4_status as nat) + 8 * (self.highland_upper_status as nat) + 16 * (self.ramp_rear_status as nat) + 32 * (self.road_upper_status as nat)) as nat);
        lemma_field(x2, (self.supply_zone_status as nat + 2 * (self.central_highland_status as nat) + 8 * (self.trapezoid_highland_status as nat) + 16 * (self.fortress_gain_status as nat) + 64 * (self.outpost_gain_status as nat) + 256 * (self.base_gain_status as nat) + 512 * (self.tunnel_1_status as nat)) as nat, 1024, self.tunnel_2_status as nat, 2, (self.tunnel_3_status as nat + 2 * (self.tunnel_4_status as nat) + 4 * (self.highland_upper_status as nat) + 8 * (self.ramp_rear_status as nat) + 16 * (self.road_upper_status as nat)) as nat);
        lemma_field(x2, (self.supply_zone_status as nat + 2 * (self.central_highland_status as nat) + 8 * (self.trapezoid_highland_status as nat) + 16 * (self.fortress_gain_status as nat) + 64 * (self.outpost_gain_status as nat) + 256 * (self.base_gain_status as nat) + 512 * (self.tunnel_1_status as nat) + 1024 * (self.tunnel_2_status as nat)) as nat, 2048, self.tunnel_3_status as nat, 2, (self.tunnel_4_status as nat + 2 * (self.highland_upper_status as nat) + 4 * (self.ramp_rear_status as nat) + 8 * (self.road_upper_status as nat)) as nat);
        lemma_field(x2, (self.supply_zone_status as nat + 2 * (self.central_highland_status as nat) + 8 * (self.trapezoid_highland_status as nat) + 16 * (self.fortress_gain_status as nat) + 64 * (self.outpost_gain_status as nat) + 256 * (self.base_gain_status as nat) + 512 * (self.tunnel_1_status as nat) + 1024 * (self.tunnel_2_status as nat) + 2048 * (self.tunnel_3_status as nat)) as nat, 4096, self.tunnel_4_status as nat, 2, (self.highland_upper_status as nat + 2 * (self.ramp_rear_status as nat) + 4 * (self.road_upper_status as nat)) as nat);
        lemma_field(x2, (self.supply_zone_status as nat + 2 * (self.central_highland_status as nat) + 8 * (self.trapezoid_highland_status as nat) + 16 * (self.fortress_gain_status as nat) + 64 * (self.outpost_gain_status as nat) + 256 * (self.base_gain_status as nat) + 512 * (self.tunnel_1_status as nat) + 1024 * (self.tunnel_2_status as nat) + 2048 * (self.tunnel_3_status as nat) + 4096 * (self.tunnel_4_status as nat)) as nat, 8192, self.highland_upper_status as nat, 2, (self.ramp_rear_status as nat + 2 * (self.road_upper_status as nat)) as nat);
        lemma_field(x2, (self.supply_zone_status as nat + 2 * (self.central_highland_status as nat) + 8 * (self.trapezoid_highland_status as nat) + 16 * (self.fortress_gain_status as nat) + 64 * (self.outpost_gain_status as nat) + 256 * (self.base_gain_status as nat) + 512 * (self.tunnel_1_status as nat) + 1024 * (self.tunnel_2_status as nat) + 2048 * (self.tunnel_3_status as nat) + 4096 * (self.tunnel_4_status as nat) + 8192 * (self.highland_upper_status as nat)) as nat, 16384, self.ramp_rear_status as nat, 2, (self.road_upper_status as nat) as nat);
        lemma_field(x2, (self.supply_zone_status as nat + 2 * (self.central_highland_status as nat) + 8 * (self.trapezoid_highland_status as nat) + 16 * (self.fortress_gain_status as nat) + 64 * (self.outpost_gain_status as nat) + 256 * (self.base_gain_status as nat) + 512 * (self.tunnel_1_status as nat) + 1024 * (self.tunnel_2_status as nat) + 2048 * (self.tunnel_3_status as nat) + 4096 * (self.tunnel_4_status as nat) + 8192 * (self.highland_upper_status as nat) + 16384 * (self.ramp_rear_status as nat)) as nat, 32768, self.road_upper_status as nat, 2, (0) as nat);
    }
}

/// Enemy gains, posture and alive states (SDR 0x0A05).
#[derive(Debug, Clone, Copy, Default, PartialEq, Eq)]
pub struct SdrEnemyRobotGainData {
    pub hero_hp_recovery: u8,
    pub hero_cooling_acceleration: u16,
    pub hero_defence: u8,
    pub hero_negative_defence: u8,
    pub hero_attack: u16,
    pub engineer_hp_recovery: u8,
    pub engineer_cooling_acceleration: u16,
    pub engineer_defence: u8,
    pub engineer_negative_defence: u8,
    pub engineer_attack: u16,
    pub infantry_3_hp_recovery: u8,
    pub infantry_3_cooling_acceleration: u16,
    pub infantry_3_defence: u8,
    pub infantry_3_negative_defence: u8,
    pub infantry_3_attack: u16,
    pub infantry_4_hp_recovery: u8,
    pub infantry_4_cooling_acceleration: u16,
    pub infantry_4_defence: u8,
    pub infantry_4_negative_defence: u8,
    pub infantry_4_attack: u16,
    pub sentry_hp_recovery: u8,
    pub sentry_cooling_acceleration: u16,
    pub sentry_defence: u8,
    pub sentry_negative_defence: u8,
    pub sentry_attack: u16,
    pub sentry_posture: u8,
    pub hero_state: u8,
    pub engineer_state: u8,
    pub infantry_3_state: u8,
    pub infantry_4_state: u8,
    pub sentry_state: u8,
}

impl SdrEnemyRobotGainData {
    /// Every bit field holds a value that its width can carry.
    pub open spec fn fits(self) -> bool {
        true
    }

    /// The 41 bytes that encode this record.
    pub open spec fn spec_encode(self) -> Seq<u8> {
        le_bytes(self.hero_hp_recovery as nat, 1)
            + le_bytes(self.hero_cooling_acceleration as nat, 2)
            + le_bytes(self.hero_defence as nat, 1)
            + le_bytes(self.hero_negative_defence as nat, 1)
            + le_bytes(self.hero_attack as nat, 2)
            + le_bytes(self.engineer_hp_recovery as nat, 1)
            + le_bytes(self.engineer_cooling_acceleration as nat, 2)
            + le_bytes(self.engineer_defence as nat, 1)
            + le_bytes(self.engineer_negative_defence as nat, 1)
            + le_bytes(self.engineer_attack as nat, 2)
            + le_bytes(self.infantry_3_hp_recovery as nat, 1)
            + le_bytes(self.infantry_3_cooling_acceleration as nat, 2)
            + le_bytes(self.infantry_3_defence as nat, 1)
            + le_bytes(self.infantry_3_negative_defence as nat, 1)
            + le_bytes(self.infantry_3_attack as nat, 2)
            + le_bytes(self.infantry_4_hp_recovery as nat, 1)
            + le_bytes(self.infantry_4_cooling_acceleration as nat, 2)
            + le_bytes(self.infantry_4_defence as nat, 1)
            + le_bytes(self.infantry_4_negative_defence as nat, 1)
            + le_bytes(self.infantry_4_attack as nat, 2)
            + le_bytes(self.sentry_hp_recovery as nat, 1)
            + le_bytes(self.sentry_cooling_acceleration as nat, 2)
            + le_bytes(self.sentry_defence as nat, 1)
            + le_bytes(self.sentry_negative_defence as nat, 1)
            + le_bytes(self.sentry_attack as nat, 2)
            + le_bytes(self.sentry_posture as nat, 1)
            + le_bytes(self.hero_state as nat, 1)
            + le_bytes(self.engineer_state as nat, 1)
            + le_bytes(self.infantry_3_state as nat, 1)
            + le_bytes(self.infantry_4_state as nat, 1)
            + le_bytes(self.sentry_state as nat, 1)
    }

    /// The record that the first bytes of `b` encode.
    pub open spec fn spec_decode(b: Seq<u8>) -> SdrEnemyRobotGainData {
        let w0 = le_value(b.subrange(0, 1));
        let w1 = le_value(b.subrange(1, 3));
        let w2 = le_value(b.subrange(3, 4));
        let w3 = le_value(b.subrange(4, 5));
        let w4 = le_value(b.subrange(5, 7));
        let w5 = le_value(b.subrange(7, 8));
        let w6 = le_value(b.subrange(8, 10));
        let w7 = le_value(b.subrange(10, 11));
        let w8 = le_value(b.subrange(11, 12));
        let w9 = le_value(b.subrange(12, 14));
        let w10 = le_value(b.subrange(14, 15));
        let w11 = le_value(b.subrange(15, 17));
        let w12 = le_value(b.subrange(17, 18));
        let w13 = le_value(b.subrange(18, 19));
        let w14 = le_value(b.subrange(19, 21));
        let w15 = le_value(b.subrange(21, 22));
        let w16 = le_value(b.subrange(22, 24));
        let w17 = le_value(b.subrange(24, 25));
        let w18 = le_value(b.subrange(25, 26));
        let w19 = le_value(b.subrange(26, 28));
        let w20 = le_value(b.subrange(28, 29));
        let w21 = le_value(b.subrange(29, 31));
        let w22 = le_value(b.subrange(31, 32));
        let w23 = le_value(b.subrange(32, 33));
        let w24 = le_value(b.subrange(33, 35));
        let w25 = le_value(b.subrange(35, 36));
        let w26 = le_value(b.subrange(36, 37));
        let w27 = le_value(b.subrange(37, 38));
        let w28 = le_value(b.subrange(38, 39));
        let w29 = le_value(b.subrange(39, 40));
        let w30 = le_value(b.subrange(40, 41));
        SdrEnemyRobotGainData {
            hero_hp_recovery: w0 as u8,
            hero_cooling_acceleration: w1 as u16,
            hero_defence: w2 as u8,
            hero_negative_defence: w3 as u8,
            hero_attack: w4 as u16,
            engineer_hp_recovery: w5 as u8,
            engineer_cooling_acceleration: w6 as u16,
            engineer_defence: w7 as u8,
            engineer_negative_defence: w8 as u8,
            engineer_attack: w9 as u16,
            infantry_3_hp_recovery: w10 as u8,
            infantry_3_cooling_acceleration: w11 as u16,
            infantry_3_defence: w12 as u8,
            infantry_3_negative_defence: w13 as u8,
            infantry_3_attack: w14 as u16,
            infantry_4_hp_recovery: w15 as u8,
            infantry_4_cooling_acceleration: w16 as u16,
            infantry_4_defence: w17 as u8,
            infantry_4_negative_defence: w18 as u8,
            infantry_4_attack: w19 as u16,
            sentry_hp_recovery: w20 as u8,
            sentry_cooling_acceleration: w21 as u16,
            sentry_defence: w22 as u8,
            sentry_negative_defence: w23 as u8,
            sentry_attack: w24 as u16,
            sentry_posture: w25 as u8,
            hero_state: w26 as u8,
            engineer_state: w27 as u8,
            infantry_3_state: w28 as u8,
            infantry_4_state: w29 as u8,
            sentry_state: w30 as u8,
        }
    }

    /// Decodes the record from the first 41 bytes of `data`; `None` when fewer are there.
    pub fn from_bytes(data: &[u8]) -> (r: Option<SdrEnemyRobotGainData>)
        ensures
            data@.len() < SDR_ENEMY_ROBOT_GAIN_DATA_LEN ==> r is None,
            data@.len() >= SDR_ENEMY_ROBOT_GAIN_DATA_LEN ==> r == Some(SdrEnemyRobotGainData::spec_decode(data@)),
    {
        if data.len() < SDR_ENEMY_ROBOT_GAIN_DATA_LEN {
            return None;
        }
        let w0 = read_le(data, 0, 1);
        let w1 = read_le(data, 1, 2);
        let w2 = read_le(data, 3, 1);
        let w3 = read_le(data, 4, 1);
        let w4 = read_le(data, 5, 2);
        let w5 = read_le(data, 7, 1);
        let w6 = read_le(data, 8, 2);
        let w7 = read_le(data, 10, 1);
        let w8 = read_le(data, 11, 1);
        let w9 = read_le(data, 12, 2);
        let w10 = read_le(data, 14, 1);
        let w11 = read_le(data, 15, 2);
        let w12 = read_le(data, 17, 1);
        let w13 = read_le(data, 18, 1);
        let w14 = read_le(data, 19, 2);
        let w15 = read_le(data, 21, 1);
        let w16 = read_le(data, 22, 2);
        let w17 = read_le(data, 24, 1);
        let w18 = read_le(data, 25, 1);
        let w19 = read_le(data, 26, 2);
        let w20 = read_le(data, 28, 1);
        let w21 = read_le(data, 29, 2);
        let w22 = read_le(data, 31, 1);
        let w23 = read_le(data, 32, 1);
        let w24 = read_le(data, 33, 2);
        let w25 = read_le(data, 35, 1);
        let w26 = read_le(data, 36, 1);
        let w27 = read_le(data, 37, 1);
        let w28 = read_le(data, 38, 1);
        let w29 = read_le(data, 39, 1);
        let w30 = read_le(data, 40, 1);
        Some(SdrEnemyRobotGainData {
            hero_hp_recovery: w0 as u8,
            hero_cooling_acceleration: w1 as u16,
            hero_defence: w2 as u8,
            hero_negative_defence: w3 as u8,
            hero_attack: w4 as u16,
            engineer_hp_recovery: w5 as u8,
            engineer_cooling_acceleration: w6 as u16,
            engineer_defence: w7 as u8,
            engineer_negative_defence: w8 as u8,
            engineer_attack: w9 as u16,
            infantry_3_hp_recovery: w10 as u8,
            infantry_3_cooling_acceleration: w11 as u16,
            infantry_3_defence: w12 as u8,
            infantry_3_negative_defence: w13 as u8,
            infantry_3_attack: w14 as u16,
            infantry_4_hp_recovery: w15 as u8,
            infantry_4_cooling_acceleration: w16 as u16,
            infantry_4_defence: w17 as u8,
            infantry_4_negative_defence: w18 as u8,
            infantry_4_attack: w19 as u16,
            sentry_hp_recovery: w20 as u8,
            sentry_cooling_acceleration: w21 as u16,
            sentry_defence: w22 as u8,
            sentry_negative_defence: w23 as u8,
            sentry_attack: w24 as u16,
            sentry_posture: w25 as u8,
            hero_state: w26 as u8,
            engineer_state: w27 as u8,
            infantry_3_state: w28 as u8,
            infantry_4_state: w29 as u8,
            sentry_state: w30 as u8,
        })
    }

    /// Encodes the record in 41 bytes.
    pub fn to_bytes(&self) -> (r: Vec<u8>)
        ensures
            r@ == self.spec_encode(),
    {
        let mut out: Vec<u8> = Vec::new();
        write_le(&mut out, (self.hero_hp_recovery as u64), 1);
        write_le(&mut out, (self.hero_cooling_acceleration as u64), 2);
        write_le(&mut out, (self.hero_defence as u64), 1);
        write_le(&mut out, (self.hero_negative_defence as u64), 1);
        write_le(&mut out, (self.hero_attack as u64), 2);
        write_le(&mut out, (self.engineer_hp_recovery as u64), 1);
        write_le(&mut out, (self.engineer_cooling_acceleration as u64), 2);
        write_le(&mut out, (self.engineer_defence as u64), 1);
        write_le(&mut out, (self.engineer_negative_defence as u64), 1);
        write_le(&mut out, (self.engineer_attack as u64), 2);
        write_le(&mut out, (self.infantry_3_hp_recovery as u64), 1);
        write_le(&mut out, (self.infantry_3_cooling_acceleration as u64), 2);
        write_le(&mut out, (self.infantry_3_defence as u64), 1);
        write_le(&mut out, (self.infantry_3_negative_defence as u64), 1);
        write_le(&mut out, (self.infantry_3_attack as u64), 2);
        write_le(&mut out, (self.infantry_4_hp_recovery as u64), 1);
        write_le(&mut out, (self.infantry_4_cooling_acceleration as u64), 2);
        write_le(&mut out, (self.infantry_4_defence as u64), 1);
        write_le(&mut out, (self.infantry_4_negative_defence as u64), 1);
        write_le(&mut out, (self.infantry_4_attack as u64), 2);
        write_le(&mut out, (self.sentry_hp_recovery as u64), 1);
        write_le(&mut out, (self.sentry_cooling_acceleration as u64), 2);
        write_le(&mut out, (self.sentry_defence as u64), 1);
        write_le(&mut out, (self.sentry_negative_defence as u64), 1);
        write_le(&mut out, (self.sentry_attack as u64), 2);
        write_le(&mut out, (self.sentry_posture as u64), 1);
        write_le(&mut out, (self.hero_state as u64), 1);
        write_le(&mut out, (self.engineer_state as u64), 1);
        write_le(&mut out, (self.infantry_3_state as u64), 1);
        write_le(&mut out, (self.infantry_4_state as u64), 1);
        write_le(&mut out, (self.sentry_state as u64), 1);
        assert(out@ =~= self.spec_encode());
        out
    }

    /// Decoding what `to_bytes` wrote gives back the record.
    pub proof fn lemma_roundtrip(self)
        requires
            self.fits(),
        ensures
            self.spec_encode().len() == 41,
            SdrEnemyRobotGainData::spec_decode(self.spec_encode()) == self,
    {
        reveal_with_fuel(pow256, 9);
        let e = self.spec_encode();
        let x0 = self.hero_hp_recovery as nat;
        lemma_le_roundtrip(x0, 1);
        let x1 = self.hero_cooling_acceleration as nat;
        lemma_le_roundtrip(x1, 2);
        let x2 = self.hero_defence as nat;
        lemma_le_roundtrip(x2, 1);
        let x3 = self.hero_negative_defence as nat;
        lemma_le_roundtrip(x3, 1);
        let x4 = self.hero_attack as nat;
        lemma_le_roundtrip(x4, 2);
        let x5 = self.engineer_hp_recovery as nat;
        lemma_le_roundtrip(x5, 1);
        let x6 = self.engineer_cooling_acceleration as nat;
        lemma_le_roundtrip(x6, 2);
        let x7 = self.engineer_defence as nat;
        lemma_le_roundtrip(x7, 1);
        let x8 = self.engineer_negative_defence as nat;
        lemma_le_roundtrip(x8, 1);
        let x9 = self.engineer_attack as nat;
        lemma_le_roundtrip(x9, 2);
        let x10 = self.infantry_3_hp_recovery as nat;
        lemma_le_roundtrip(x10, 1);
        let x11 = self.infantry_3_cooling_acceleration as nat;
        lemma_le_roundtrip(x11, 2);
        let x12 = self.infantry_3_defence as nat;
        lemma_le_roundtrip(x12, 1);
        let x13 = self.infantry_3_negative_defence as nat;
        lemma_le_roundtrip(x13, 1);
        let x14 = self.infantry_3_attack as nat;
        lemma_le_roundtrip(x14, 2);
        let x15 = self.infantry_4_hp_recovery as nat;
        lemma_le_roundtrip(x15, 1);
        let x16 = self.infantry_4_cooling_acceleration as nat;
        lemma_le_roundtrip(x16, 2);
        let x17 = self.infantry_4_defence as nat;
        lemma_le_roundtrip(x17, 1);
        let x18 = self.infantry_4_negative_defence as nat;
        lemma_le_roundtrip(x18, 1);
        let x19 = self.infantry_4_attack as nat;
        lemma_le_roundtrip(x19, 2);
        let x20 = self.sentry_hp_recovery as nat;
        lemma_le_roundtrip(x20, 1);
        let x21 = self.sentry_cooling_acceleration as nat;
        lemma_le_roundtrip(x21, 2);
        let x22 = self.sentry_defence as nat;
        lemma_le_roundtrip(x22, 1);
        let x23 = self.sentry_negative_defence as nat;
        lemma_le_roundtrip(x23, 1);
        let x24 = self.sentry_attack as nat;
        lemma_le_roundtrip(x24, 2);
        let x25 = self.sentry_posture as nat;
        lemma_le_roundtrip(x25, 1);
        let x26 = self.hero_state as nat;
        lemma_le_roundtrip(x26, 1);
        let x27 = self.engineer_state as nat;
        lemma_le_roundtrip(x27, 1);
        let x28 = self.infantry_3_state as nat;
        lemma_le_roundtrip(x28, 1);
        let x29 = self.infantry_4_state as nat;
        lemma_le_roundtrip(x29, 1);
        let x30 = self.sentry_state as nat;
        lemma_le_roundtrip(x30, 1);
        assert(e.subrange(0, 1) =~= le_bytes(x0, 1));
        assert(e.subrange(1, 3) =~= le_bytes(x1, 2));
        assert(e.subrange(3, 4) =~= le_bytes(x2, 1));
        assert(e.subrange(4, 5) =~= le_bytes(x3, 1));
        assert(e.subrange(5, 7) =~= le_bytes(x4, 2));
        assert(e.subrange(7, 8) =~= le_bytes(x5, 1));
        assert(e.subrange(8, 10) =~= le_bytes(x6, 2));
        assert(e.subrange(10, 11) =~= le_bytes(x7, 1));
        assert(e.subrange(11, 12) =~= le_bytes(x8, 1));
        assert(e.subrange(12, 14) =~= le_bytes(x9, 2));
        assert(e.subrange(14, 15) =~= le_bytes(x10, 1));
        assert(e.subrange(15, 17) =~= le_bytes(x11, 2));
        assert(e.subrange(17, 18) =~= le_bytes(x12, 1));
        assert(e.subrange(18, 19) =~= le_bytes(x13, 1));
        assert(e.subrange(19, 21) =~= le_bytes(x14, 2));
        assert(e.subrange(21, 22) =~= le_bytes(x15, 1));
        assert(e.subrange(22, 24) =~= le_bytes(x16, 2));
        assert(e.subrange(24, 25) =~= le_bytes(x17, 1));
        assert(e.subrange(25, 26) =~= le_bytes(x18, 1));
        assert(e.subrange(26, 28) =~= le_bytes(x19, 2));
        assert(e.subrange(28, 29) =~= le_bytes(x20, 1));
        assert(e.subrange(29, 31) =~= le_bytes(x21, 2));
        assert(e.subrange(31, 32) =~= le_bytes(x22, 1));
        assert(e.subrange(32, 33) =~= le_bytes(x23, 1));
        assert(e.subrange(33, 35) =~= le_bytes(x24, 2));
        assert(e.subrange(35, 36) =~= le_bytes(x25, 1));
        assert(e.subrange(36, 37) =~= le_bytes(x26, 1));
        assert(e.subrange(37, 38) =~= le_bytes(x27, 1));
        assert(e.subrange(38, 39) =~= le_bytes(x28, 1));
        assert(e.subrange(39, 40) =~= le_bytes(x29, 1));
        assert(e.subrange(40, 41) =~= le_bytes(x30, 1));
    }
}



/// Radar autonomous decision (robot-interaction sub-command 0x0121): the
/// double-weakness request counter, the password command and the password.
#[derive(Debug, Clone, Copy, Default, PartialEq, Eq)]
pub struct RadarAutonomousDecisionData {
    pub radar_cmd: u8,
    pub password_cmd: u8,
    pub password: [u8; 6],
}

impl RadarAutonomousDecisionData {
    /// The 8 bytes that encode this record.
    pub open spec fn spec_encode(self) -> Seq<u8> {
        seq![self.radar_cmd, self.password_cmd] + self.password@
    }

    /// This record is what the first 8 bytes of `b` encode.
    pub open spec fn decodes(self, b: Seq<u8>) -> bool {
        &&& b.len() >= 8
        &&& self.radar_cmd == b[0]
        &&& self.password_cmd == b[1]
        &&& self.password@ == b.subrange(2, 8)
    }

    /// Decodes the record from the first 8 bytes of `data`; `None` when fewer are there.
    pub fn from_bytes(data: &[u8]) -> (r: Option<RadarAutonomousDecisionData>)
        ensures
            data@.len() < 8 ==> r is None,
            data@.len() >= 8 ==> (r matches Some(x) && x.decodes(data@)),
    {
        if data.len() < 8 {
            return None;
        }
        let x = RadarAutonomousDecisionData {
            radar_cmd: data[0],
            password_cmd: data[1],
            password: [data[2], data[3], data[4], data[5], data[6], data[7]],
        };
        assert(x.password@ =~= data@.subrange(2, 8));
        Some(x)
    }

    /// Encodes the record in 8 bytes.
    pub fn to_bytes(&self) -> (r: Vec<u8>)
        ensures
            r@ == self.spec_encode(),
    {
        let mut out: Vec<u8> = Vec::new();
        out.push(self.radar_cmd);
        out.push(self.password_cmd);
        write_bytes(&mut out, &self.password);
        assert(out@ =~= self.spec_encode());
        out
    }

    /// Decoding what `to_bytes` wrote gives back the record.
    pub proof fn lemma_roundtrip(self)
        ensures
            self.spec_encode().len() == 8,
            self.decodes(self.spec_encode()),
    {
        assert(self.spec_encode().subrange(2, 8) =~= self.password@);
    }
}

/// Jamming key broken by the SDR (SDR 0x0A06).
#[derive(Debug, Clone, Copy, Default, PartialEq, Eq)]
pub struct SdrJammingKeyData {
    pub key: [u8; 6],
}

impl SdrJammingKeyData {
    /// The 6 bytes that encode this record.
    pub open spec fn spec_encode(self) -> Seq<u8> {
        self.key@
    }

    /// Decodes the record from the first 6 bytes of `data`; `None` when fewer are there.
    pub fn from_bytes(data: &[u8]) -> (r: Option<SdrJammingKeyData>)
        ensures
            data@.len() < 6 ==> r is None,
            data@.len() >= 6 ==> (r matches Some(x) && x.key@ == data@.subrange(0, 6)),
    {
        if data.len() < 6 {
            return None;
        }
        let x = SdrJammingKeyData { key: [data[0], data[1], data[2], data[3], data[4], data[5]] };
        assert(x.key@ =~= data@.subrange(0, 6));
        Some(x)
    }

    /// Encodes the record in 6 bytes.
    pub fn to_bytes(&self) -> (r: Vec<u8>)
        ensures
            r@ == self.spec_encode(),
    {
        let mut out: Vec<u8> = Vec::new();
        write_bytes(&mut out, &self.key);
        assert(out@ =~= self.spec_encode());
        out
    }
}

/// Robot interaction (cmd 0x0301): sub-command, sender, receiver and the
/// sub-command's own bytes.
#[derive(Debug, Clone)]
pub struct RobotInteractionData {
    pub subcontext_cmd_id: u16,
    pub sender_id: DeviceId,
    pub receiver_id: DeviceId,
    pub subcontext_data: Vec<u8>,
}

impl Default for RobotInteractionData {
    fn default() -> (r: RobotInteractionData)
        ensures
            r.subcontext_cmd_id == 0,
            r.sender_id == DeviceId::Unknown,
            r.receiver_id == DeviceId::Unknown,
            r.subcontext_data@.len() == 0,
    {
        RobotInteractionData {
            subcontext_cmd_id: 0,
            sender_id: DeviceId::Unknown,
            receiver_id: DeviceId::Unknown,
            subcontext_data: Vec::new(),
        }
    }
}

/// The six header bytes of an interaction payload: sub-command, sender and
/// receiver, each 16-bit little-endian.
pub open spec fn interaction_head(cmd: u16, sender: DeviceId, receiver: DeviceId) -> Seq<u8> {
    le_bytes(cmd as nat, 2) + le_bytes(device_number(sender) as nat, 2) + le_bytes(
        device_number(receiver) as nat,
        2,
    )
}

impl RobotInteractionData {
    /// The payload bytes: sub-command, sender and receiver numbers (each
    /// 16-bit little-endian), then the sub-command's bytes.
    pub open spec fn spec_bytes(self) -> Seq<u8> {
        interaction_head(self.subcontext_cmd_id, self.sender_id, self.receiver_id)
            + self.subcontext_data@
    }

    /// Encodes the interaction payload.
    pub fn to_bytes(&self) -> (r: Vec<u8>)
        ensures
            r@ == self.spec_bytes(),
    {
        let mut out: Vec<u8> = Vec::new();
        write_le(&mut out, self.subcontext_cmd_id as u64, 2);
        write_le(&mut out, self.sender_id.number() as u64, 2);
        write_le(&mut out, self.receiver_id.number() as u64, 2);
        write_bytes(&mut out, self.subcontext_data.as_slice());
        assert(out@ =~= self.spec_bytes());
        out
    }
}

/// Radar local computation (robot-interaction sub-command 0x0122): enemy
/// ammunition, economy and gains with the drone counter progress, 60 bytes.
#[derive(Debug, Clone, Copy, Default, PartialEq, Eq)]
pub struct RadarLocalComputationData {
    /// Bytes 0..10: allowed ammunition of five enemy robots.
    pub ammo: SdrEnemyRobotRemainingAmmoData,
    /// Bytes 10..18: enemy economy and site occupation.
    pub economy: SdrEnemyRobotOverallStateData,
    /// Bytes 18..59: enemy gains, postures and alive states.
    pub gain: SdrEnemyRobotGainData,
    /// Byte 59: enemy drone counter progress in percent.
    pub drone_counter_progress: u8,
}

impl RadarLocalComputationData {
    /// The 60 bytes that encode this record.
    pub open spec fn spec_encode(self) -> Seq<u8> {
        self.ammo.spec_encode() + self.economy.spec_encode() + self.gain.spec_encode()
            + seq![self.drone_counter_progress]
    }

    /// The record that the first 60 bytes of `b` encode.
    pub open spec fn spec_decode(b: Seq<u8>) -> RadarLocalComputationData {
        RadarLocalComputationData {
            ammo: SdrEnemyRobotRemainingAmmoData::spec_decode(b.subrange(0, 10)),
            economy: SdrEnemyRobotOverallStateData::spec_decode(b.subrange(10, 18)),
            gain: SdrEnemyRobotGainData::spec_decode(b.subrange(18, 59)),
            drone_counter_progress: b[59],
        }
    }

    /// Parses the record from a sub-command payload; `None` when it holds fewer than 60 bytes.
    pub fn from_slice(data: &[u8]) -> (r: Option<RadarLocalComputationData>)
        ensures
            data@.len() < 60 ==> r is None,
            data@.len() >= 60 ==> r == Some(RadarLocalComputationData::spec_decode(data@)),
    {
        if data.len() < 60 {
            return None;
        }
        let ammo = SdrEnemyRobotRemainingAmmoData::from_bytes(&data[0..10]);
        let economy = SdrEnemyRobotOverallStateData::from_bytes(&data[10..18]);
        let gain = SdrEnemyRobotGainData::from_bytes(&data[18..59]);
        match (ammo, economy, gain) {
            (Some(ammo), Some(economy), Some(gain)) => Some(RadarLocalComputationData {
                ammo,
                economy,
                gain,
                drone_counter_progress: data[59],
            }),
            _ => None,
        }
    }

    /// Serializes the record in 60 bytes; `None` when an economy bit field is too wide.
    pub fn to_bytes(&self) -> (r: Option<Vec<u8>>)
        ensures
            r is Some <==> self.economy.fits(),
            r matches Some(v) ==> v@ == self.spec_encode(),
    {
        let mut bytes = self.ammo.to_bytes();
        match self.economy.to_bytes() {
            Some(economy) => {
                let ghost before = bytes@;
                write_bytes(&mut bytes, economy.as_slice());
                let gain = self.gain.to_bytes();
                write_bytes(&mut bytes, gain.as_slice());
                bytes.push(self.drone_counter_progress);
                assert(bytes@ =~= self.spec_encode());
                Some(bytes)
            },
            None => None,
        }
    }

    /// Parsing what `to_bytes` wrote gives back the record.
    pub proof fn lemma_roundtrip(self)
        requires
            self.economy.fits(),
        ensures
            self.spec_encode().len() == 60,
            RadarLocalComputationData::spec_decode(self.spec_encode()) == self,
    {
        self.ammo.lemma_roundtrip();
        self.economy.lemma_roundtrip();
        self.gain.lemma_roundtrip();
        let e = self.spec_encode();
        assert(e.subrange(0, 10) =~= self.ammo.spec_encode());
        assert(e.subrange(10, 18) =~= self.economy.spec_encode());
        assert(e.subrange(18, 59) =~= self.gain.spec_encode());
    }
}

// ─── Channel notification indices ───

pub const IDX_GAME_STATE: usize = 0;
pub const IDX_GAME_RESULT: usize = 1;
pub const IDX_SITE_EVENT: usize = 2;
pub const IDX_DART_LAUNCH: usize = 3;
pub const IDX_RADAR_MARK_PROCESS: usize = 4;
pub const IDX_RADAR_AUTONOMOUS_DECISION_SYNC: usize = 5;
pub const IDX_ROBOT_INTERACTION: usize = 6;
pub const IDX_ROBOT_INTERACTION_DECISION: usize = 7;
pub const IDX_MINIMAP_RECEIVE_RADAR: usize = 8;

// ─── Shared runtime state ───

/// A robot position on the field in centimetres.
#[derive(Debug, Clone, Copy, Default, PartialEq, Eq)]
pub struct Position {
    pub x: i16,
    pub y: i16,
}

/// Everything the serial and ZMQ workers know, shared with the UI.
#[derive(Debug, Clone, Default)]
pub struct SharedData {
    pub enemy_hero: Position,
    pub enemy_engineer: Position,
    pub enemy_infantry_3: Position,
    pub enemy_infantry_4: Position,
    pub enemy_aerial: Position,
    pub enemy_sentry: Position,
    pub ally_hero: Position,
    pub ally_engineer: Position,
    pub ally_infantry_3: Position,
    pub ally_infantry_4: Position,
    pub ally_aerial: Position,
    pub ally_sentry: Position,

    pub sdr_blood: SdrEnemyRobotBloodData,
    pub sdr_ammo: SdrEnemyRobotRemainingAmmoData,
    pub sdr_state: SdrEnemyRobotOverallStateData,
    pub sdr_gain: SdrEnemyRobotGainData,
    pub sdr_jamming_key: SdrJammingKeyData,

    pub game_state: GameStateData,
    pub game_result: GameResultData,
    pub site_event: SiteEventData,
    pub dart_launch: DartLaunchData,
    pub radar_mark_process: RadarMarkProcessData,
    pub radar_autonomous_decision_sync: RadarAutonomousDecisionSyncData,
    pub robot_interaction: RobotInteractionData,

    pub radar_autonomous_decision: RadarAutonomousDecisionData,
    pub minimap_receive: MinimapReceiveRadarData,
    pub radar_local_computation: RadarLocalComputationData,

    /// Our team colour as the UI set it: "blue" means blue, anything else red.
    pub radar_side: String,
}

/// Where each field of a SerialFrameHeader sits in its 5 bytes: bits counted from
/// the least significant bit of the first byte, words least significant
/// byte first.
#[verifier::rlimit(40)]
pub proof fn law_serial_frame_header_layout(b: Seq<u8>)
    requires
        b.len() >= 5,
    ensures
        ({
            let r = SerialFrameHeader::spec_decode(b);
            &&& r.sof == b[0]
            &&& r.data_len == b[1] + 256 * b[2]
            &&& r.seq == b[3]
            &&& r.crc8 == b[4]
        }),
{
    lemma2_to64();
    lemma2_to64_rest();
    lemma_le_word(b, 0, 1);
    lemma_le_word(b, 1, 2);
    lemma_le_word(b, 3, 1);
    lemma_le_word(b, 4, 1);
}

/// Where each field of a GameResultData sits in its 1 byte: bits counted from
/// the least significant bit of the first byte, words least significant
/// byte first.
#[verifier::rlimit(40)]
pub proof fn law_game_result_layout(b: Seq<u8>)
    requires
        b.len() >= 1,
    ensures
        ({
            let r = GameResultData::spec_decode(b);
            &&& r.winner == b[0]
        }),
{
    lemma2_to64();
    lemma2_to64_rest();
    lemma_le_word(b, 0, 1);
}

/// Where each field of a SiteEventData sits in its 4 bytes: bits counted from
/// the least significant bit of the first byte, words least significant
/// byte first.
#[verifier::rlimit(40)]
pub proof fn law_site_event_layout(b: Seq<u8>)
    requires
        b.len() >= 4,
    ensures
        ({
            let r = SiteEventData::spec_decode(b);
            &&& r.supply_zone_status == bits_at(b, 0, 3)
            &&& r.energy_small_status == bits_at(b, 3, 2)
            &&& r.energy_large_status == bits_at(b, 5, 2)
            &&& r.central_highland_status == bits_at(b, 7, 2)
            &&& r.trapezoid_highland_status == bits_at(b, 9, 2)
            &&& r.dart_hit_time == bits_at(b, 11, 9)
            &&& r.dart_hit_target == bits_at(b, 20, 3)
            &&& r.center_gain_status == bits_at(b, 23, 2)
            &&& r.fortress_gain_status == bits_at(b, 25, 2)
            &&& r.outpost_gain_status == bits_at(b, 27, 2)
            &&& r.base_gain_status == bits_at(b, 29, 1)
        }),
{
    lemma2_to64();
    lemma2_to64_rest();
    lemma_word_bits(b, 0, 4, 0, 3);
    lemma_word_bits(b, 0, 4, 3, 2);
    lemma_word_bits(b, 0, 4, 5, 2);
    lemma_word_bits(b, 0, 4, 7, 2);
    lemma_word_bits(b, 0, 4, 9, 2);
    lemma_word_bits(b, 0, 4, 11, 9);
    lemma_word_bits(b, 0, 4, 20, 3);
    lemma_word_bits(b, 0, 4, 23, 2);
    lemma_word_bits(b, 0, 4, 25, 2);
    lemma_word_bits(b, 0, 4, 27, 2);
    lemma_word_bits(b, 0, 4, 29, 1);
}

/// Where each field of a DartLaunchData sits in its 3 bytes: bits counted from
/// the least significant bit of the first byte, words least significant
/// byte first.
#[verifier::rlimit(40)]
pub proof fn law_dart_launch_layout(b: Seq<u8>)
    requires
        b.len() >= 3,
    ensures
        ({
            let r = DartLaunchData::spec_decode(b);
            &&& r.dart_remaining_time == b[0]
            &&& r.dart_hit_target == bits_at(b, 8, 3)
            &&& r.dart_hit_count == bits_at(b, 11, 3)
            &&& r.dart_selected_target == bits_at(b, 14, 3)
        }),
{
    lemma2_to64();
    lemma2_to64_rest();
    lemma_le_word(b, 0, 1);
    lemma_word_bits(b, 1, 2, 0, 3);
    lemma_word_bits(b, 1, 2, 3, 3);
    lemma_word_bits(b, 1, 2, 6, 3);
}

/// Where each field of a RadarMarkProcessData sits in its 2 bytes: bits counted from
/// the least significant bit of the first byte, words least significant
/// byte first.
#[verifier::rlimit(40)]
pub proof fn law_radar_mark_process_layout(b: Seq<u8>)
    requires
        b.len() >= 2,
    ensures
        ({
            let r = RadarMarkProcessData::spec_decode(b);
            &&& r.opponent_hero_vulnerable == bits_at(b, 0, 1)
            &&& r.opponent_engineer_vulnerable == bits_at(b, 1, 1)
            &&& r.opponent_infantry_3_vulnerable == bits_at(b, 2, 1)
            &&& r.opponent_infantry_4_vulnerable == bits_at(b, 3, 1)
            &&& r.opponent_aerial_marked == bits_at(b, 4, 1)
            &&& r.opponent_sentry_vulnerable == bits_at(b, 5, 1)
            &&& r.ally_hero_marked == bits_at(b, 6, 1)
            &&& r.ally_engineer_marked == bits_at(b, 7, 1)
            &&& r.ally_infantry_3_marked == bits_at(b, 8, 1)
            &&& r.ally_infantry_4_marked == bits_at(b, 9, 1)
            &&& r.ally_aerial_marked == bits_at(b, 10, 1)
            &&& r.ally_sentry_marked == bits_at(b, 11, 1)
            &&& r.opponent_aerial_targeted == bits_at(b, 12, 1)
            &&& r.opponent_aerial_countered == bits_at(b, 13, 1)
            &&& r.ally_aerial_targeted == bits_at(b, 14, 1)
            &&& r.ally_aerial_countered == bits_at(b, 15, 1)
        }),
{
    lemma2_to64();
    lemma2_to64_rest();
    lemma_word_bits(b, 0, 2, 0, 1);
    lemma_word_bits(b, 0, 2, 1, 1);
    lemma_word_bits(b, 0, 2, 2, 1);
    lemma_word_bits(b, 0, 2, 3, 1);
    lemma_word_bits(b, 0, 2, 4, 1);
    lemma_word_bits(b, 0, 2, 5, 1);
    lemma_word_bits(b, 0, 2, 6, 1);
    lemma_word_bits(b, 0, 2, 7, 1);
    lemma_word_bits(b, 0, 2, 8, 1);
    lemma_word_bits(b, 0, 2, 9, 1);
    lemma_word_bits(b, 0, 2, 10, 1);
    lemma_word_bits(b, 0, 2, 11, 1);
    lemma_word_bits(b, 0, 2, 12, 1);
    lemma_word_bits(b, 0, 2, 13, 1);
    lemma_word_bits(b, 0, 2, 14, 1);
    lemma_word_bits(b, 0, 2, 15, 1);
}

/// Where each field of a RadarAutonomousDecisionSyncData sits in its 1 byte: bits counted from
/// the least significant bit of the first byte, words least significant
/// byte first.
#[verifier::rlimit(40)]
pub proof fn law_radar_autonomous_decision_sync_layout(b: Seq<u8>)
    requires
        b.len() >= 1,
    ensures
        ({
            let r = RadarAutonomousDecisionSyncData::spec_decode(b);
            &&& r.double_weakness_chance == bits_at(b, 0, 2)
            &&& r.double_weakness_active == bits_at(b, 2, 1)
            &&& r.encryption_rank == bits_at(b, 3, 2)
            &&& r.key_modifiable == bits_at(b, 5, 1)
        }),
{
    lemma2_to64();
    lemma2_to64_rest();
    lemma_word_bits(b, 0, 1, 0, 2);
    lemma_word_bits(b, 0, 1, 2, 1);
    lemma_word_bits(b, 0, 1, 3, 2);
    lemma_word_bits(b, 0, 1, 5, 1);
}

/// Where each field of a MinimapReceiveRadarData sits in its 48 bytes: bits counted from
/// the least significant bit of the first byte, words least significant
/// byte first.
#[verifier::rlimit(40)]
pub proof fn law_minimap_receive_radar_layout(b: Seq<u8>)
    requires
        b.len() >= 48,
    ensures
        ({
            let r = MinimapReceiveRadarData::spec_decode(b);
            &&& r.opponent_hero_x == b[0] + 256 * b[1]
            &&& r.opponent_hero_y == b[2] + 256 * b[3]
            &&& r.opponent_engineer_x == b[4] + 256 * b[5]
            &&& r.opponent_engineer_y == b[6] + 256 * b[7]
            &&& r.opponent_infantry_3_x == b[8] + 256 * b[9]
            &&& r.opponent_infantry_3_y == b[10] + 256 * b[11]
            &&& r.opponent_infantry_4_x == b[12] + 256 * b[13]
            &&& r.opponent_infantry_4_y == b[14] + 256 * b[15]
            &&& r.opponent_aerial_x == b[16] + 256 * b[17]
            &&& r.opponent_aerial_y == b[18] + 256 * b[19]
            &&& r.opponent_sentry_x == b[20] + 256 * b[21]
            &&& r.opponent_sentry_y == b[22] + 256 * b[23]
            &&& r.ally_hero_x == b[24] + 256 * b[25]
            &&& r.ally_hero_y == b[26] + 256 * b[27]
            &&& r.ally_engineer_x == b[28] + 256 * b[29]
            &&& r.ally_engineer_y == b[30] + 256 * b[31]
            &&& r.ally_infantry_3_x == b[32] + 256 * b[33]
            &&& r.ally_infantry_3_y == b[34] + 256 * b[35]
            &&& r.ally_infantry_4_x == b[36] + 256 * b[37]
            &&& r.ally_infantry_4_y == b[38] + 256 * b[39]
            &&& r.ally_aerial_x == b[40] + 256 * b[41]
            &&& r.ally_aerial_y == b[42] + 256 * b[43]
            &&& r.ally_sentry_x == b[44] + 256 * b[45]
            &&& r.ally_sentry_y == b[46] + 256 * b[47]
        }),
{
    lemma2_to64();
    lemma2_to64_rest();
    lemma_le_word(b, 0, 2);
    lemma_le_word(b, 2, 2);
    lemma_le_word(b, 4, 2);
    lemma_le_word(b, 6, 2);
    lemma_le_word(b, 8, 2);
    lemma_le_word(b, 10, 2);
    lemma_le_word(b, 12, 2);
    lemma_le_word(b, 14, 2);
    lemma_le_word(b, 16, 2);
    lemma_le_word(b, 18, 2);
    lemma_le_word(b, 20, 2);
    lemma_le_word(b, 22, 2);
    lemma_le_word(b, 24, 2);
    lemma_le_word(b, 26, 2);
    lemma_le_word(b, 28, 2);
    lemma_le_word(b, 30, 2);
    lemma_le_word(b, 32, 2);
    lemma_le_word(b, 34, 2);
    lemma_le_word(b, 36, 2);
    lemma_le_word(b, 38, 2);
    lemma_le_word(b, 40, 2);
    lemma_le_word(b, 42, 2);
    lemma_le_word(b, 44, 2);
    lemma_le_word(b, 46, 2);
}

/// Where each field of a SdrEnemyRobotPositionData sits in its 24 bytes: bits counted from
/// the least significant bit of the first byte, words least significant
/// byte first.
#[verifier::rlimit(40)]
pub proof fn law_sdr_enemy_robot_position_layout(b: Seq<u8>)
    requires
        b.len() >= 24,
    ensures
        ({
            let r = SdrEnemyRobotPositionData::spec_decode(b);
            &&& r.hero_x as int == as_signed((b[0] + 256 * b[1]) as u16)
            &&& r.hero_y as int == as_signed((b[2] + 256 * b[3]) as u16)
            &&& r.engineer_x as int == as_signed((b[4] + 256 * b[5]) as u16)
            &&& r.engineer_y as int == as_signed((b[6] + 256 * b[7]) as u16)
            &&& r.infantry_3_x as int == as_signed((b[8] + 256 * b[9]) as u16)
            &&& r.infantry_3_y as int == as_signed((b[10] + 256 * b[11]) as u16)
            &&& r.infantry_4_x as int == as_signed((b[12] + 256 * b[13]) as u16)
            &&& r.infantry_4_y as int == as_signed((b[14] + 256 * b[15]) as u16)
            &&& r.aerial_x as int == as_signed((b[16] + 256 * b[17]) as u16)
            &&& r.aerial_y as int == as_signed((b[18] + 256 * b[19]) as u16)
            &&& r.sentry_x as int == as_signed((b[20] + 256 * b[21]) as u16)
            &&& r.sentry_y as int == as_signed((b[22] + 256 * b[23]) as u16)
        }),
{
    lemma2_to64();
    lemma2_to64_rest();
    lemma_le_word(b, 0, 2);
    lemma_as_signed((b[0] + 256 * b[1]) as u16);
    lemma_le_word(b, 2, 2);
    lemma_as_signed((b[2] + 256 * b[3]) as u16);
    lemma_le_word(b, 4, 2);
    lemma_as_signed((b[4] + 256 * b[5]) as u16);
    lemma_le_word(b, 6, 2);
    lemma_as_signed((b[6] + 256 * b[7]) as u16);
    lemma_le_word(b, 8, 2);
    lemma_as_signed((b[8] + 256 * b[9]) as u16);
    lemma_le_word(b, 10, 2);
    lemma_as_signed((b[10] + 256 * b[11]) as u16);
    lemma_le_word(b, 12, 2);
    lemma_as_signed((b[12] + 256 * b[13]) as u16);
    lemma_le_word(b, 14, 2);
    lemma_as_signed((b[14] + 256 * b[15]) as u16);
    lemma_le_word(b, 16, 2);
    lemma_as_signed((b[16] + 256 * b[17]) as u16);
    lemma_le_word(b, 18, 2);
    lemma_as_signed((b[18] + 256 * b[19]) as u16);
    lemma_le_word(b, 20, 2);
    lemma_as_signed((b[20] + 256 * b[21]) as u16);
    lemma_le_word(b, 22, 2);
    lemma_as_signed((b[22] + 256 * b[23]) as u16);
}

/// Where each field of a SdrEnemyRobotBloodData sits in its 12 bytes: bits counted from
/// the least significant bit of the first byte, words least significant
/// byte first.
#[verifier::rlimit(40)]
pub proof fn law_sdr_enemy_robot_blood_layout(b: Seq<u8>)
    requires
        b.len() >= 12,
    ensures
        ({
            let r = SdrEnemyRobotBloodData::spec_decode(b);
            &&& r.hero_blood == b[0] + 256 * b[1]
            &&& r.engineer_blood == b[2] + 256 * b[3]
            &&& r.infantry_3_blood == b[4] + 256 * b[5]
            &&& r.infantry_4_blood == b[6] + 256 * b[7]
            &&& r.reserved == b[8] + 256 * b[9]
            &&& r.sentry_blood == b[10] + 256 * b[11]
        }),
{
    lemma2_to64();
    lemma2_to64_rest();
    lemma_le_word(b, 0, 2);
    lemma_le_word(b, 2, 2);
    lemma_le_word(b, 4, 2);
    lemma_le_word(b, 6, 2);
    lemma_le_word(b, 8, 2);
    lemma_le_word(b, 10, 2);
}

/// Where each field of a SdrEnemyRobotRemainingAmmoData sits in its 10 bytes: bits counted from
/// the least significant bit of the first byte, words least significant
/// byte first.
#[verifier::rlimit(40)]
pub proof fn law_sdr_enemy_robot_remaining_ammo_layout(b: Seq<u8>)
    requires
        b.len() >= 10,
    ensures
        ({
            let r = SdrEnemyRobotRemainingAmmoData::spec_decode(b);
            &&& r.hero_ammo == b[0] + 256 * b[1]
            &&& r.infantry_3_ammo == b[2] + 256 * b[3]
            &&& r.infantry_4_ammo == b[4] + 256 * b[5]
            &&& r.aerial_ammo == b[6] + 256 * b[7]
            &&& r.sentry_ammo == b[8] + 256 * b[9]
        }),
{
    lemma2_to64();
    lemma2_to64_rest();
    lemma_le_word(b, 0, 2);
    lemma_le_word(b, 2, 2);
    lemma_le_word(b, 4, 2);
    lemma_le_word(b, 6, 2);
    lemma_le_word(b, 8, 2);
}

/// Where each field of a SdrEnemyRobotOverallStateData sits in its 8 bytes: bits counted from
/// the least significant bit of the first byte, words least significant
/// byte first.
#[verifier::rlimit(40)]
pub proof fn law_sdr_enemy_robot_overall_state_layout(b: Seq<u8>)
    requires
        b.len() >= 8,
    ensures
        ({
            let r = SdrEnemyRobotOverallStateData::spec_decode(b);
            &&& r.remaining_gold == b[0] + 256 * b[1]
            &&& r.total_gold == b[2] + 256 * b[3]
            &&& r.supply_zone_status == bits_at(b, 32, 1)
            &&& r.central_highland_status == bits_at(b, 33, 2)
            &&& r.trapezoid_highland_status == bits_at(b, 35, 1)
            &&& r.fortress_gain_status == bits_at(b, 36, 2)
            &&& r.outpost_gain_status == bits_at(b, 38, 2)
            &&& r.base_gain_status == bits_at(b, 40, 1)
            &&& r.tunnel_1_status == bits_at(b, 41, 1)
            &&& r.tunnel_2_status == bits_at(b, 42, 1)
            &&& r.tunnel_3_status == bits_at(b, 43, 1)
            &&& r.tunnel_4_status == bits_at(b, 44, 1)
            &&& r.highland_upper_status == bits_at(b, 45, 1)
            &&& r.ramp_rear_status == bits_at(b, 46, 1)
            &&& r.road_upper_status == bits_at(b, 47, 1)
        }),
{
    lemma2_to64();
    lemma2_to64_rest();
    lemma_le_word(b, 0, 2);
    lemma_le_word(b, 2, 2);
    lemma_word_bits(b, 4, 4, 0, 1);
    lemma_word_bits(b, 4, 4, 1, 2);
    lemma_word_bits(b, 4, 4, 3, 1);
    lemma_word_bits(b, 4, 4, 4, 2);
    lemma_word_bits(b, 4, 4, 6, 2);
    lemma_word_bits(b, 4, 4, 8, 1);
    lemma_word_bits(b, 4, 4, 9, 1);
    lemma_word_bits(b, 4, 4, 10, 1);
    lemma_word_bits(b, 4, 4, 11, 1);
    lemma_word_bits(b, 4, 4, 12, 1);
    lemma_word_bits(b, 4, 4, 13, 1);
    lemma_word_bits(b, 4, 4, 14, 1);
    lemma_word_bits(b, 4, 4, 15, 1);
}

/// Where each field of a SdrEnemyRobotGainData sits in its 41 bytes: bits counted from
/// the least significant bit of the first byte, words least significant
/// byte first.
#[verifier::rlimit(40)]
pub proof fn law_sdr_enemy_robot_gain_layout(b: Seq<u8>)
    requires
        b.len() >= 41,
    ensures
        ({
            let r = SdrEnemyRobotGainData::spec_decode(b);
            &&& r.hero_hp_recovery == b[0]
            &&& r.hero_cooling_acceleration == b[1] + 256 * b[2]
            &&& r.hero_defence == b[3]
            &&& r.hero_negative_defence == b[4]
            &&& r.hero_attack == b[5] + 256 * b[6]
            &&& r.engineer_hp_recovery == b[7]
            &&& r.engineer_cooling_acceleration == b[8] + 256 * b[9]
            &&& r.engineer_defence == b[10]
            &&& r.engineer_negative_defence == b[11]
            &&& r.engineer_attack == b[12] + 256 * b[13]
            &&& r.infantry_3_hp_recovery == b[14]
            &&& r.infantry_3_cooling_acceleration == b[15] + 256 * b[16]
            &&& r.infantry_3_defence == b[17]
            &&& r.infantry_3_negative_defence == b[18]
            &&& r.infantry_3_attack == b[19] + 256 * b[20]
            &&& r.infantry_4_hp_recovery == b[21]
            &&& r.infantry_4_cooling_acceleration == b[22] + 256 * b[23]
            &&& r.infantry_4_defence == b[24]
            &&& r.infantry_4_negative_defence == b[25]
            &&& r.infantry_4_attack == b[26] + 256 * b[27]
            &&& r.sentry_hp_recovery == b[28]
            &&& r.sentry_cooling_acceleration == b[29] + 256 * b[30]
            &&& r.sentry_defence == b[31]
            &&& r.sentry_negative_defence == b[32]
            &&& r.sentry_attack == b[33] + 256 * b[34]
            &&& r.sentry_posture == b[35]
            &&& r.hero_state == b[36]
            &&& r.engineer_state == b[37]
            &&& r.infantry_3_state == b[38]
            &&& r.infantry_4_state == b[39]
            &&& r.sentry_state == b[40]
        }),
{
    lemma2_to64();
    lemma2_to64_rest();
    lemma_le_word(b, 0, 1);
    lemma_le_word(b, 1, 2);
    lemma_le_word(b, 3, 1);
    lemma_le_word(b, 4, 1);
    lemma_le_word(b, 5, 2);
    lemma_le_word(b, 7, 1);
    lemma_le_word(b, 8, 2);
    lemma_le_word(b, 10, 1);
    lemma_le_word(b, 11, 1);
    lemma_le_word(b, 12, 2);
    lemma_le_word(b, 14, 1);
    lemma_le_word(b, 15, 2);
    lemma_le_word(b, 17, 1);
    lemma_le_word(b, 18, 1);
    lemma_le_word(b, 19, 2);
    lemma_le_word(b, 21, 1);
    lemma_le_word(b, 22, 2);
    lemma_le_word(b, 24, 1);
    lemma_le_word(b, 25, 1);
    lemma_le_word(b, 26, 2);
    lemma_le_word(b, 28, 1);
    lemma_le_word(b, 29, 2);
    lemma_le_word(b, 31, 1);
    lemma_le_word(b, 32, 1);
    lemma_le_word(b, 33, 2);
    lemma_le_word(b, 35, 1);
    lemma_le_word(b, 36, 1);
    lemma_le_word(b, 37, 1);
    lemma_le_word(b, 38, 1);
    lemma_le_word(b, 39, 1);
    lemma_le_word(b, 40, 1);
}


}
