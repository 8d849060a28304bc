//! Scanning received bytes for complete referee frames.
//!
//! The parser walks the receive buffer: bytes before a start byte are
//! skipped, a header whose CRC8 fails is skipped one byte at a time, a frame
//! whose CRC16 fails is dropped whole, and a frame that has not fully arrived
//! stays in the buffer for the next call. Every accepted frame is decoded
//! into the shared state and may raise notification indices for the workers
//! that forward the data (ZMQ publisher, serial transmitter).

use vstd::prelude::*;
use crate::serial::serial_crc::{crc16_ok, crc8_ok, verify_crc16, verify_crc8};
use crate::shared_data::{
    DartLaunchData, GameResultData, GameStateData, RadarAutonomousDecisionData,
    RadarAutonomousDecisionSyncData, RadarMarkProcessData, SerialFrameHeader, SharedData,
    SiteEventData, CMD_ID_LENGTH, CRC16_LENGTH, DART_LAUNCH_CMD_ID, FRAME_HEADER_LENGTH,
    FRAME_HEADER_SOF, GAME_RESULT_CMD_ID, GAME_STATE_CMD_ID, IDX_GAME_STATE,
    IDX_RADAR_AUTONOMOUS_DECISION_SYNC, IDX_RADAR_MARK_PROCESS, IDX_ROBOT_INTERACTION_DECISION,
    RADAR_AUTONOMOUS_DECISION_SYNC_CMD_ID, RADAR_MARK_PROCESS_CMD_ID, SITE_EVENT_CMD_ID,
};
use crate::serial::serial_crc::{crc16_of, crc8_of, lemma_append_crc16_verifies, lo, hi};
use crate::serial::serial_package::{frame_body, frame_bytes, frame_header_for, header_head, raw_header};
use crate::wire::{le_bytes, le_value, lemma_le2, lemma_le_roundtrip, read_le};

verus! {

/// Game progress value of a running match.
pub const PROGRESS_IN_MATCH: u8 = 4;

/// Game progress value of the settlement after a match.
pub const PROGRESS_SETTLEMENT: u8 = 5;

/// Most double-weakness requests that one match may carry.
pub const MAX_RADAR_CMD: u8 = 2;

/// The double-weakness decision taken when a 0x020E sync arrives: at
/// settlement the local chance count and the request counter are reset; in
/// a running match a request is added while a chance is left and the counter
/// is below its limit, and a 0x0121 decision frame is due; otherwise nothing.
pub open spec fn decision_eval(d: SharedData) -> (SharedData, Seq<usize>) {
    let progress = d.game_state.game_progress;
    let sync = d.radar_autonomous_decision_sync;
    let decision = d.radar_autonomous_decision;
    if progress == PROGRESS_SETTLEMENT {
        (
            SharedData {
                radar_autonomous_decision_sync: RadarAutonomousDecisionSyncData {
                    double_weakness_chance: 0,
                    ..sync
                },
                radar_autonomous_decision: RadarAutonomousDecisionData { radar_cmd: 0, ..decision },
                ..d
            },
            Seq::empty(),
        )
    } else if progress == PROGRESS_IN_MATCH {
        let cmd = if sync.double_weakness_chance >= 1 && decision.radar_cmd < MAX_RADAR_CMD {
            (decision.radar_cmd + 1) as u8
        } else {
            decision.radar_cmd
        };
        (
            SharedData {
                radar_autonomous_decision: RadarAutonomousDecisionData { radar_cmd: cmd, ..decision },
                ..d
            },
            seq![IDX_ROBOT_INTERACTION_DECISION],
        )
    } else {
        (d, Seq::empty())
    }
}

/// What one accepted frame does: the new shared state, the notification
/// indices it raises, and whether its payload was decoded.
pub open spec fn apply_frame(d: SharedData, cmd: u16, p: Seq<u8>) -> (SharedData, Seq<usize>, bool) {
    if cmd == GAME_STATE_CMD_ID && p.len() >= 11 {
        (SharedData { game_state: GameStateData::spec_decode(p), ..d }, seq![IDX_GAME_STATE], true)
    } else if cmd == GAME_RESULT_CMD_ID && p.len() >= 1 {
        (SharedData { game_result: GameResultData::spec_decode(p), ..d }, Seq::empty(), true)
    } else if cmd == SITE_EVENT_CMD_ID && p.len() >= 4 {
        (SharedData { site_event: SiteEventData::spec_decode(p), ..d }, Seq::empty(), true)
    } else if cmd == DART_LAUNCH_CMD_ID && p.len() >= 3 {
        (SharedData { dart_launch: DartLaunchData::spec_decode(p), ..d }, Seq::empty(), true)
    } else if cmd == RADAR_MARK_PROCESS_CMD_ID && p.len() >= 2 {
        (
            SharedData { radar_mark_process: RadarMarkProcessData::spec_decode(p), ..d },
            seq![IDX_RADAR_MARK_PROCESS],
            true,
        )
    } else if cmd == RADAR_AUTONOMOUS_DECISION_SYNC_CMD_ID && p.len() >= 1 {
        let d1 = SharedData {
            radar_autonomous_decision_sync: RadarAutonomousDecisionSyncData::spec_decode(p),
            ..d
        };
        let (d2, n) = decision_eval(d1);
        (d2, seq![IDX_RADAR_AUTONOMOUS_DECISION_SYNC] + n, true)
    } else {
        (d, Seq::empty(), false)
    }
}

/// Where the frame that starts at `i` ends, from its header's length field.
pub open spec fn frame_end(b: Seq<u8>, i: int) -> int {
    i + 9 + SerialFrameHeader::spec_decode(b.subrange(i, i + 5)).data_len
}

/// The scan of `b` from `i`: the shared state, the notifications raised,
/// whether any payload was decoded, the last header that passed its CRC8, and
/// how many leading bytes are consumed.
pub open spec fn scan(
    b: Seq<u8>,
    i: int,
    d: SharedData,
    notes: Seq<usize>,
    any: bool,
    h: SerialFrameHeader,
) -> (SharedData, Seq<usize>, bool, SerialFrameHeader, int)
    decreases b.len() - i,
{
    if i < 0 || i >= b.len() {
        (d, notes, any, h, i)
    } else if b[i] != FRAME_HEADER_SOF {
        scan(b, i + 1, d, notes, any, h)
    } else if i + 5 > b.len() {
        (d, notes, any, h, i)
    } else if !crc8_ok(b.subrange(i, i + 5)) {
        scan(b, i + 1, d, notes, any, h)
    } else {
        let h2 = SerialFrameHeader::spec_decode(b.subrange(i, i + 5));
        let end = frame_end(b, i);
        if end > b.len() {
            (d, notes, any, h2, i)
        } else if !crc16_ok(b.subrange(i, end)) {
            scan(b, end, d, notes, any, h2)
        } else {
            let cmd = le_value(b.subrange(i + 5, i + 7)) as u16;
            let r = apply_frame(d, cmd, b.subrange(i + 7, end - 2));
            scan(b, end, r.0, notes + r.1, any || r.2, h2)
        }
    }
}

/// What one call of the parser reports.
pub struct ParseOutcome {
    /// At least one frame's payload was decoded.
    pub parsed_any: bool,
    /// Notification indices raised, in order.
    pub notifications: Vec<usize>,
}

/// The receive-side frame scanner; remembers the last header that passed.
pub struct SerialParser {
    frame_header: SerialFrameHeader,
}

impl SerialParser {
    /// The last frame header whose CRC8 passed.
    pub closed spec fn last_header(&self) -> SerialFrameHeader {
        self.frame_header
    }

    /// A parser that has seen no frame yet.
    pub fn new() -> (r: SerialParser)
        ensures
            r.last_header() == (SerialFrameHeader { sof: 0, data_len: 0, seq: 0, crc8: 0 }),
    {
        SerialParser { frame_header: SerialFrameHeader { sof: 0, data_len: 0, seq: 0, crc8: 0 } }
    }

    /// Scans `read_buffer` for complete frames, writes their data into
    /// `shared`, and removes the bytes consumed; a frame that has not fully
    /// arrived stays at the front of the buffer.
    pub fn parser(&mut self, read_buffer: &mut Vec<u8>, shared: &mut SharedData) -> (r: ParseOutcome)
        ensures
            ({
                let s = scan(
                    old(read_buffer)@,
                    0,
                    *old(shared),
                    Seq::empty(),
                    false,
                    old(self).last_header(),
                );
                &&& *final(shared) == s.0
                &&& r.notifications@ == s.1
                &&& r.parsed_any == s.2
                &&& final(self).last_header() == s.3
                &&& 0 <= s.4 <= old(read_buffer)@.len()
                &&& final(read_buffer)@ == old(read_buffer)@.subrange(s.4, old(read_buffer)@.len() as int)
            }),
    {
        let ghost b = read_buffer@;
        let ghost d0 = *shared;
        let ghost h0 = self.frame_header;
        let mut parsed_any = false;
        let mut notifications: Vec<usize> = Vec::new();
        let len = read_buffer.len();
        let mut index: usize = 0;
        while index < len
            invariant_except_break
                index <= len,
            invariant
                len == b.len(),
                read_buffer@ == b,
                scan(b, 0, d0, Seq::empty(), false, h0) == scan(
                    b,
                    index as int,
                    *shared,
                    notifications@,
                    parsed_any,
                    self.frame_header,
                ),
            ensures
                index <= len,
                scan(b, 0, d0, Seq::empty(), false, h0) == scan(
                    b,
                    index as int,
                    *shared,
                    notifications@,
                    parsed_any,
                    self.frame_header,
                ),
                scan(b, index as int, *shared, notifications@, parsed_any, self.frame_header) == (
                    *shared,
                    notifications@,
                    parsed_any,
                    self.frame_header,
                    index as int,
                ),
            decreases len - index,
        {
            if read_buffer[index] != FRAME_HEADER_SOF {
                index = index + 1;
                continue;
            }
            if len - index < FRAME_HEADER_LENGTH {
                break;
            }
            let header_end = index + FRAME_HEADER_LENGTH;
            if !verify_crc8(&read_buffer[index..header_end]) {
                index = index + 1;
                continue;
            }
            let header = SerialFrameHeader::from_bytes(&read_buffer[index..header_end]);
            let header = match header {
                Some(h) => h,
                None => {
                    break;
                },
            };
            self.frame_header = header;
            let data_len = header.data_len as usize;
            if len - index < FRAME_HEADER_LENGTH + CMD_ID_LENGTH + data_len + CRC16_LENGTH {
                break;
            }
            let package_end = index + FRAME_HEADER_LENGTH + CMD_ID_LENGTH + data_len + CRC16_LENGTH;
            if !verify_crc16(&read_buffer[index..package_end]) {
                index = package_end;
                continue;
            }
            let cmd_id = read_le(read_buffer.as_slice(), index + 5, 2) as u16;
            let data_start = index + FRAME_HEADER_LENGTH + CMD_ID_LENGTH;
            let payload = &read_buffer[data_start..data_start + data_len];
            let ok = apply_frame_exec(shared, cmd_id, payload, &mut notifications);
            parsed_any = parsed_any || ok;
            index = package_end;
        }
        let rest = read_buffer.split_off(index);
        *read_buffer = rest;
        ParseOutcome { parsed_any, notifications }
    }
}

fn decision_eval_exec(shared: &mut SharedData, notifications: &mut Vec<usize>)
    ensures
        *final(shared) == decision_eval(*old(shared)).0,
        final(notifications)@ == old(notifications)@ + decision_eval(*old(shared)).1,
{
    let progress = shared.game_state.game_progress;
    if progress == PROGRESS_SETTLEMENT {
        shared.radar_autonomous_decision_sync.double_weakness_chance = 0;
        shared.radar_autonomous_decision.radar_cmd = 0;
        assert(notifications@ =~= old(notifications)@ + Seq::<usize>::empty());
    } else if progress == PROGRESS_IN_MATCH {
        if shared.radar_autonomous_decision_sync.double_weakness_chance >= 1
            && shared.radar_autonomous_decision.radar_cmd < MAX_RADAR_CMD {
            shared.radar_autonomous_decision.radar_cmd = shared.radar_autonomous_decision.radar_cmd
                + 1;
        }
        notifications.push(IDX_ROBOT_INTERACTION_DECISION);
    } else {
        assert(notifications@ =~= old(notifications)@ + Seq::<usize>::empty());
    }
}

fn apply_frame_exec(
    shared: &mut SharedData,
    cmd: u16,
    payload: &[u8],
    notifications: &mut Vec<usize>,
) -> (ok: bool)
    ensures
        ({
            let r = apply_frame(*old(shared), cmd, payload@);
            &&& *final(shared) == r.0
            &&& final(notifications)@ == old(notifications)@ + r.1
            &&& ok == r.2
        }),
{
    if cmd == GAME_STATE_CMD_ID {
        if let Some(v) = GameStateData::from_bytes(payload) {
            shared.game_state = v;
            notifications.push(IDX_GAME_STATE);
            return true;
        }
    } else if cmd == GAME_RESULT_CMD_ID {
        if let Some(v) = GameResultData::from_bytes(payload) {
            shared.game_result = v;
            assert(notifications@ =~= old(notifications)@ + Seq::<usize>::empty());
            return true;
        }
    } else if cmd == SITE_EVENT_CMD_ID {
        if let Some(v) = SiteEventData::from_bytes(payload) {
            shared.site_event = v;
            assert(notifications@ =~= old(notifications)@ + Seq::<usize>::empty());
            return true;
        }
    } else if cmd == DART_LAUNCH_CMD_ID {
        if let Some(v) = DartLaunchData::from_bytes(payload) {
            shared.dart_launch = v;
            assert(notifications@ =~= old(notifications)@ + Seq::<usize>::empty());
            return true;
        }
    } else if cmd == RADAR_MARK_PROCESS_CMD_ID {
        if let Some(v) = RadarMarkProcessData::from_bytes(payload) {
            shared.radar_mark_process = v;
            notifications.push(IDX_RADAR_MARK_PROCESS);
            return true;
        }
    } else if cmd == RADAR_AUTONOMOUS_DECISION_SYNC_CMD_ID {
        if let Some(v) = RadarAutonomousDecisionSyncData::from_bytes(payload) {
            shared.radar_autonomous_decision_sync = v;
            notifications.push(IDX_RADAR_AUTONOMOUS_DECISION_SYNC);
            let ghost mid = notifications@;
            decision_eval_exec(shared, notifications);
            assert(notifications@ =~= old(notifications)@ + (seq![IDX_RADAR_AUTONOMOUS_DECISION_SYNC]
                + apply_frame(*old(shared), cmd, payload@).1.drop_first()));
            return true;
        }
    }
    assert(notifications@ =~= old(notifications)@ + Seq::<usize>::empty());
    false
}

/// The wire layout of a packaged frame, piece by piece.
pub proof fn lemma_frame_layout(cmd_id: u16, data: Seq<u8>, seq: u8)
    requires
        data.len() < 65536,
    ensures
        ({
            let b = frame_bytes(cmd_id, data, seq);
            let end = 9 + data.len() as int;
            &&& b.len() == end
            &&& b[0] == FRAME_HEADER_SOF
            &&& crc8_ok(b.subrange(0, 5))
            &&& SerialFrameHeader::spec_decode(b.subrange(0, 5)) == frame_header_for(data.len(), seq)
            &&& frame_end(b, 0) == end
            &&& crc16_ok(b.subrange(0, end))
            &&& le_value(b.subrange(5, 7)) as u16 == cmd_id
            &&& b.subrange(7, end - 2) == data
        }),
{
    let h = frame_header_for(data.len(), seq);
    let raw = raw_header(data.len(), seq);
    h.lemma_roundtrip();
    raw.lemma_roundtrip();
    reveal_with_fuel(crate::wire::pow256, 3);
    lemma_le_roundtrip(h.sof as nat, 1);
    lemma_le_roundtrip(h.data_len as nat, 2);
    lemma_le_roundtrip(h.seq as nat, 1);
    lemma_le_roundtrip(h.crc8 as nat, 1);
    lemma_le_roundtrip(cmd_id as nat, 2);
    let he = h.spec_encode();
    let re = raw.spec_encode();
    assert(he.subrange(0, 4) =~= re.subrange(0, 4));
    assert(he.drop_last() =~= header_head(data.len(), seq));
    let body = frame_body(cmd_id, data, seq);
    let c = crc16_of(body);
    lemma_le2(c);
    lemma_append_crc16_verifies(body);
    let b = frame_bytes(cmd_id, data, seq);
    assert(b =~= body.push(lo(c)).push(hi(c)));
    assert(b.subrange(0, 5) =~= he);
    assert(b.subrange(0, b.len() as int) =~= b);
    assert(b.subrange(5, 7) =~= le_bytes(cmd_id as nat, 2));
    assert(b.subrange(7, b.len() - 2) =~= data);
}

/// The bytes of a packaged frame one by one: start byte 0xA5, the payload
/// length and the sequence number in the header, the command word
/// (least significant byte first) at bytes 5 and 6, and the payload from
/// byte 7 on, followed by the two check bytes.
pub proof fn law_frame_bytes(cmd_id: u16, data: Seq<u8>, seq: u8)
    requires
        data.len() < 65536,
    ensures
        ({
            let f = frame_bytes(cmd_id, data, seq);
            &&& f.len() == data.len() + 9
            &&& f[0] == FRAME_HEADER_SOF
            &&& f[1] + 256 * f[2] == data.len()
            &&& f[3] == seq
            &&& f[5] + 256 * f[6] == cmd_id
            &&& forall|j: int| 0 <= j < data.len() ==> #[trigger] f[7 + j] == data[j]
        }),
{
    lemma_frame_layout(cmd_id, data, seq);
    reveal_with_fuel(le_value, 3);
    let f = frame_bytes(cmd_id, data, seq);
    let h = f.subrange(0, 5);
    assert(h.subrange(1, 3).drop_first().drop_first().len() == 0);
    assert(h.subrange(3, 4).drop_first().len() == 0);
    assert(h.subrange(1, 3)[0] == f[1] && h.subrange(1, 3)[1] == f[2]);
    assert(h.subrange(3, 4)[0] == f[3]);
    let c = f.subrange(5, 7);
    assert(c.drop_first().drop_first().len() == 0);
    assert(c[0] == f[5] && c[1] == f[6]);
    assert forall|j: int| 0 <= j < data.len() implies #[trigger] f[7 + j] == data[j] by {
        assert(f.subrange(7, f.len() - 2)[j] == f[7 + j]);
    }
}

/// A buffer that holds exactly one packaged frame is consumed whole, and the
/// frame's payload is applied to the shared state as `apply_frame` says.
pub proof fn lemma_parse_packaged_frame(
    cmd_id: u16,
    data: Seq<u8>,
    seq: u8,
    d: SharedData,
    notes: Seq<usize>,
    any: bool,
    h: SerialFrameHeader,
)
    requires
        data.len() < 65536,
    ensures
        ({
            let b = frame_bytes(cmd_id, data, seq);
            let r = apply_frame(d, cmd_id, data);
            scan(b, 0, d, notes, any, h) == (
                r.0,
                notes + r.1,
                any || r.2,
                frame_header_for(data.len(), seq),
                b.len() as int,
            )
        }),
{
    lemma_frame_layout(cmd_id, data, seq);
    let b = frame_bytes(cmd_id, data, seq);
    let r = apply_frame(d, cmd_id, data);
    assert(scan(b, b.len() as int, r.0, notes + r.1, any || r.2, frame_header_for(data.len(), seq))
        == (r.0, notes + r.1, any || r.2, frame_header_for(data.len(), seq), b.len() as int));
}

/// A frame that has only partly arrived is left in the buffer untouched:
/// nothing is consumed, applied or notified until the rest comes.
pub proof fn lemma_partial_frame_waits(
    cmd_id: u16,
    data: Seq<u8>,
    seq: u8,
    k: int,
    d: SharedData,
    notes: Seq<usize>,
    any: bool,
    h: SerialFrameHeader,
)
    requires
        data.len() < 65536,
        0 <= k < frame_bytes(cmd_id, data, seq).len(),
    ensures
        ({
            let s = scan(frame_bytes(cmd_id, data, seq).subrange(0, k), 0, d, notes, any, h);
            s.0 == d && s.1 == notes && s.2 == any && s.4 == 0
        }),
{
    lemma_frame_layout(cmd_id, data, seq);
    let full = frame_bytes(cmd_id, data, seq);
    let b = full.subrange(0, k);
    if k >= 5 {
        assert(b.subrange(0, 5) =~= full.subrange(0, 5));
    }
}

/// A frame to go on the wire: command, payload and sequence number.
pub type WireFrame = (u16, Seq<u8>, u8);

/// The bytes of several packaged frames, one after the other.
pub open spec fn frames_bytes(fs: Seq<WireFrame>) -> Seq<u8>
    decreases fs.len(),
{
    if fs.len() == 0 {
        Seq::empty()
    } else {
        frame_bytes(fs[0].0, fs[0].1, fs[0].2) + frames_bytes(fs.drop_first())
    }
}

/// The shared state, notifications and decoded flag after applying the
/// payloads of `fs` in order.
pub open spec fn apply_frames(
    d: SharedData,
    notes: Seq<usize>,
    any: bool,
    fs: Seq<WireFrame>,
) -> (SharedData, Seq<usize>, bool)
    decreases fs.len(),
{
    if fs.len() == 0 {
        (d, notes, any)
    } else {
        let r = apply_frame(d, fs[0].0, fs[0].1);
        apply_frames(r.0, notes + r.1, any || r.2, fs.drop_first())
    }
}

/// The header of the last frame of `fs`; `h` when there is none.
pub open spec fn last_frame_header(fs: Seq<WireFrame>, h: SerialFrameHeader) -> SerialFrameHeader
    decreases fs.len(),
{
    if fs.len() == 0 {
        h
    } else {
        last_frame_header(fs.drop_first(), frame_header_for(fs[0].1.len(), fs[0].2))
    }
}

/// Every payload of `fs` fits the 16-bit length field.
pub open spec fn frames_fit(fs: Seq<WireFrame>) -> bool {
    forall|j: int| 0 <= j < fs.len() ==> #[trigger] fs[j].1.len() < 65536
}

/// Bytes that are not a start byte are skipped one by one.
proof fn lemma_skip_garbage(
    b: Seq<u8>,
    i: int,
    n: int,
    d: SharedData,
    notes: Seq<usize>,
    any: bool,
    h: SerialFrameHeader,
)
    requires
        0 <= i <= n <= b.len(),
        forall|j: int| i <= j < n ==> b[j] != FRAME_HEADER_SOF,
    ensures
        scan(b, i, d, notes, any, h) == scan(b, n, d, notes, any, h),
    decreases n - i,
{
    if i < n {
        lemma_skip_garbage(b, i + 1, n, d, notes, any, h);
    }
}

/// A packaged frame that lies whole at `i` is applied and skipped.
proof fn lemma_frame_at(
    b: Seq<u8>,
    i: int,
    f: WireFrame,
    d: SharedData,
    notes: Seq<usize>,
    any: bool,
    h: SerialFrameHeader,
)
    requires
        f.1.len() < 65536,
        0 <= i,
        i + frame_bytes(f.0, f.1, f.2).len() <= b.len(),
        b.subrange(i, i + frame_bytes(f.0, f.1, f.2).len()) == frame_bytes(f.0, f.1, f.2),
    ensures
        ({
            let r = apply_frame(d, f.0, f.1);
            scan(b, i, d, notes, any, h) == scan(
                b,
                i + frame_bytes(f.0, f.1, f.2).len(),
                r.0,
                notes + r.1,
                any || r.2,
                frame_header_for(f.1.len(), f.2),
            )
        }),
{
    let fb = frame_bytes(f.0, f.1, f.2);
    let len = fb.len() as int;
    lemma_frame_layout(f.0, f.1, f.2);
    assert(b[i] == fb[0]);
    assert(b.subrange(i, i + 5) =~= fb.subrange(0, 5));
    assert(frame_end(b, i) == i + len);
    assert(b.subrange(i, i + len) =~= fb.subrange(0, len));
    assert(b.subrange(i + 5, i + 7) =~= fb.subrange(5, 7));
    assert(b.subrange(i + 7, i + len - 2) =~= fb.subrange(7, len - 2));
}

/// Where `x + y` lies in `b` at `i`, `x` lies at `i` and `y` right after it.
proof fn lemma_split_at(b: Seq<u8>, i: int, x: Seq<u8>, y: Seq<u8>)
    requires
        0 <= i,
        i + x.len() + y.len() <= b.len(),
        b.subrange(i, i + x.len() + y.len()) == x + y,
    ensures
        b.subrange(i, i + x.len()) == x,
        b.subrange(i + x.len(), i + x.len() + y.len()) == y,
{
    let n = i + x.len() + y.len();
    assert forall|j: int| 0 <= j < x.len() implies b.subrange(i, i + x.len())[j] == x[j] by {
        assert(b.subrange(i, n)[j] == (x + y)[j]);
    }
    assert forall|j: int| 0 <= j < y.len() implies b.subrange(i + x.len(), n)[j] == y[j] by {
        assert(b.subrange(i, n)[x.len() + j] == (x + y)[x.len() + j]);
    }
    assert(b.subrange(i, i + x.len()) =~= x);
    assert(b.subrange(i + x.len(), n) =~= y);
}

/// A run of packaged frames that lies whole at `i` is applied frame by
/// frame and skipped.
proof fn lemma_frames_at(
    b: Seq<u8>,
    i: int,
    fs: Seq<WireFrame>,
    d: SharedData,
    notes: Seq<usize>,
    any: bool,
    h: SerialFrameHeader,
)
    requires
        frames_fit(fs),
        0 <= i,
        i + frames_bytes(fs).len() <= b.len(),
        b.subrange(i, i + frames_bytes(fs).len()) == frames_bytes(fs),
    ensures
        ({
            let a = apply_frames(d, notes, any, fs);
            scan(b, i, d, notes, any, h) == scan(
                b,
                i + frames_bytes(fs).len(),
                a.0,
                a.1,
                a.2,
                last_frame_header(fs, h),
            )
        }),
    decreases fs.len(),
{
    if fs.len() > 0 {
        let f = fs[0];
        let rest = fs.drop_first();
        let fb = frame_bytes(f.0, f.1, f.2);
        let all = frames_bytes(fs);
        let len = fb.len() as int;
        assert(fs[0].1.len() < 65536);
        assert(all == fb + frames_bytes(rest));
        lemma_split_at(b, i, fb, frames_bytes(rest));
        lemma_frame_at(b, i, f, d, notes, any, h);
        assert forall|j: int| 0 <= j < rest.len() implies #[trigger] rest[j].1.len() < 65536 by {
            assert(rest[j] == fs[j + 1]);
        }
        let r = apply_frame(d, f.0, f.1);
        lemma_frames_at(b, i + len, rest, r.0, notes + r.1, any || r.2, frame_header_for(f.1.len(), f.2));
    }
}

/// The first `k` bytes of a packaged frame at the end of the buffer are left
/// where they are; a header that is already whole is remembered.
proof fn lemma_tail_waits(
    b: Seq<u8>,
    i: int,
    f: WireFrame,
    k: int,
    d: SharedData,
    notes: Seq<usize>,
    any: bool,
    h: SerialFrameHeader,
)
    requires
        f.1.len() < 65536,
        0 <= i,
        0 <= k < frame_bytes(f.0, f.1, f.2).len(),
        b.len() == i + k,
        b.subrange(i, i + k) == frame_bytes(f.0, f.1, f.2).subrange(0, k),
    ensures
        scan(b, i, d, notes, any, h) == (
            d,
            notes,
            any,
            if k >= 5 { frame_header_for(f.1.len(), f.2) } else { h },
            i,
        ),
{
    let fb = frame_bytes(f.0, f.1, f.2);
    lemma_frame_layout(f.0, f.1, f.2);
    if k > 0 {
        assert(b[i] == fb[0]);
    }
    if k >= 5 {
        assert(b.subrange(i, i + 5) =~= fb.subrange(0, 5));
        assert(frame_end(b, i) == i + fb.len());
    }
}

/// A buffer of bytes without a start byte, then whole packaged frames, then
/// the beginning of one more frame: every whole frame is applied in order,
/// their notifications are raised one after the other, and exactly the
/// unfinished frame is left in the buffer. The remembered header is that of
/// the unfinished frame once its header has arrived, else that of the last
/// whole frame.
pub proof fn law_parse_frames_between_noise_and_tail(
    g: Seq<u8>,
    fs: Seq<WireFrame>,
    tail: WireFrame,
    k: int,
    d: SharedData,
    notes: Seq<usize>,
    any: bool,
    h: SerialFrameHeader,
)
    requires
        forall|j: int| 0 <= j < g.len() ==> g[j] != FRAME_HEADER_SOF,
        frames_fit(fs),
        tail.1.len() < 65536,
        0 <= k < frame_bytes(tail.0, tail.1, tail.2).len(),
    ensures
        ({
            let t = frame_bytes(tail.0, tail.1, tail.2).subrange(0, k);
            let b = g + frames_bytes(fs) + t;
            let s = scan(b, 0, d, notes, any, h);
            let a = apply_frames(d, notes, any, fs);
            &&& s.0 == a.0
            &&& s.1 == a.1
            &&& s.2 == a.2
            &&& s.3 == if k >= 5 {
                frame_header_for(tail.1.len(), tail.2)
            } else {
                last_frame_header(fs, h)
            }
            &&& s.4 == g.len() + frames_bytes(fs).len()
            &&& b.subrange(s.4, b.len() as int) == t
        }),
{
    let t = frame_bytes(tail.0, tail.1, tail.2).subrange(0, k);
    let fb = frames_bytes(fs);
    let b = g + fb + t;
    let p = g.len() as int;
    let q = p + fb.len();
    lemma_skip_garbage(b, 0, p, d, notes, any, h);
    assert(b.subrange(p, q) =~= fb);
    lemma_frames_at(b, p, fs, d, notes, any, h);
    let a = apply_frames(d, notes, any, fs);
    assert(b.subrange(q, q + k) =~= t);
    lemma_tail_waits(b, q, tail, k, a.0, a.1, a.2, last_frame_header(fs, h));
    assert(b.subrange(q, b.len() as int) =~= t);
}

/// Each referee command fills its own record and nothing else: 0x0001 the
/// game state (raising notification 0), 0x0002 the match result, 0x0101 the
/// site events and 0x0105 the dart launch (these three raising none), 0x020C
/// the radar marks (raising notification 4), and 0x020E the decision sync
/// (raising notification 5, then 7 while a match runs, when only the sync
/// record and the decision counter change). Any other command, or a payload
/// too short for its record, changes nothing, raises nothing and counts as
/// not decoded.
pub proof fn law_each_command_fills_its_own_record(d: SharedData, cmd: u16, p: Seq<u8>)
    ensures
        ({
            let r = apply_frame(d, cmd, p);
            let e = r.0;
            &&& cmd == 0x0001 && p.len() >= 11 ==> r.2 && r.1 == seq![0usize]
                && e == SharedData { game_state: GameStateData::spec_decode(p), ..d }
            &&& cmd == 0x0002 && p.len() >= 1 ==> r.2 && r.1.len() == 0
                && e == SharedData { game_result: GameResultData::spec_decode(p), ..d }
            &&& cmd == 0x0101 && p.len() >= 4 ==> r.2 && r.1.len() == 0
                && e == SharedData { site_event: SiteEventData::spec_decode(p), ..d }
            &&& cmd == 0x0105 && p.len() >= 3 ==> r.2 && r.1.len() == 0
                && e == SharedData { dart_launch: DartLaunchData::spec_decode(p), ..d }
            &&& cmd == 0x020C && p.len() >= 2 ==> r.2 && r.1 == seq![4usize]
                && e == SharedData { radar_mark_process: RadarMarkProcessData::spec_decode(p), ..d }
            &&& cmd == 0x020E && p.len() >= 1 ==> {
                let sync = RadarAutonomousDecisionSyncData::spec_decode(p);
                &&& r.2
                &&& r.1 == (if d.game_state.game_progress == 4 { seq![5usize, 7usize] } else { seq![5usize] })
                &&& e == SharedData {
                    radar_autonomous_decision_sync: e.radar_autonomous_decision_sync,
                    radar_autonomous_decision: RadarAutonomousDecisionData {
                        radar_cmd: e.radar_autonomous_decision.radar_cmd,
                        ..d.radar_autonomous_decision
                    },
                    ..d
                }
                &&& e.radar_autonomous_decision_sync == (if d.game_state.game_progress == 5 {
                    RadarAutonomousDecisionSyncData { double_weakness_chance: 0, ..sync }
                } else {
                    sync
                })
            }
            &&& !((cmd == 0x0001 && p.len() >= 11) || (cmd == 0x0002 && p.len() >= 1)
                || (cmd == 0x0101 && p.len() >= 4) || (cmd == 0x0105 && p.len() >= 3)
                || (cmd == 0x020C && p.len() >= 2) || (cmd == 0x020E && p.len() >= 1)) ==> {
                &&& !r.2
                &&& r.1.len() == 0
                &&& e == d
            }
        }),
{
    if cmd == 0x020E && p.len() >= 1 {
        let sync = RadarAutonomousDecisionSyncData::spec_decode(p);
        let d1 = SharedData { radar_autonomous_decision_sync: sync, ..d };
        let (d2, n) = decision_eval(d1);
        assert(seq![IDX_RADAR_AUTONOMOUS_DECISION_SYNC] + n == (if d.game_state.game_progress == 4 {
            seq![5usize, 7usize]
        } else {
            seq![5usize]
        }));
    }
}

/// The double-weakness request counter never climbs above its limit.
pub proof fn lemma_radar_cmd_bounded(
    b: Seq<u8>,
    i: int,
    d: SharedData,
    notes: Seq<usize>,
    any: bool,
    h: SerialFrameHeader,
)
    requires
        d.radar_autonomous_decision.radar_cmd <= MAX_RADAR_CMD,
    ensures
        scan(b, i, d, notes, any, h).0.radar_autonomous_decision.radar_cmd <= MAX_RADAR_CMD,
    decreases b.len() - i,
{
    if i < 0 || i >= b.len() {
    } else if b[i] != FRAME_HEADER_SOF {
        lemma_radar_cmd_bounded(b, i + 1, d, notes, any, h);
    } else if i + 5 > b.len() {
    } else if !crc8_ok(b.subrange(i, i + 5)) {
        lemma_radar_cmd_bounded(b, i + 1, d, notes, any, h);
    } else {
        let h2 = SerialFrameHeader::spec_decode(b.subrange(i, i + 5));
        let end = frame_end(b, i);
        if end > b.len() {
        } else if !crc16_ok(b.subrange(i, end)) {
            lemma_radar_cmd_bounded(b, end, d, notes, any, h2);
        } else {
            let cmd = le_value(b.subrange(i + 5, i + 7)) as u16;
            let r = apply_frame(d, cmd, b.subrange(i + 7, end - 2));
            lemma_radar_cmd_bounded(b, end, r.0, notes + r.1, any || r.2, h2);
        }
    }
}

/// Outside the settlement the double-weakness request counter never goes
/// down: in a running match it rises by one while a chance is left and it is
/// below its limit, and a decision frame is due on every sync; in other
/// phases nothing changes and no frame is due. At settlement it and the
/// chance count go back to zero, with no frame due.
pub proof fn law_decision_counter_is_monotonic_within_a_match(d: SharedData)
    ensures
        ({
            let (e, notes) = decision_eval(d);
            let before = d.radar_autonomous_decision.radar_cmd;
            let after = e.radar_autonomous_decision.radar_cmd;
            &&& d.game_state.game_progress != 5 ==> after >= before
            &&& d.game_state.game_progress == 4 ==> {
                &&& notes == seq![7usize]
                &&& after == if d.radar_autonomous_decision_sync.double_weakness_chance >= 1
                    && before < 2 {
                    before + 1
                } else {
                    before as int
                }
            }
            &&& after <= 2 || after == before
            &&& d.game_state.game_progress == 5 ==> {
                &&& after == 0
                &&& e.radar_autonomous_decision_sync.double_weakness_chance == 0
                &&& notes.len() == 0
            }
            &&& d.game_state.game_progress != 5
                && d.game_state.game_progress != 4 ==> e == d && notes.len() == 0
        }),
{
}

}
