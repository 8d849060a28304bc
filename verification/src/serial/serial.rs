//! What the serial transmitter sends for each notification.
//!
//! The receive and transmit workers themselves live with the I/O; here is the
//! choice of frames: the minimap positions (0x0305), the radar decision to the
//! referee server (0x0301 / 0x0121), and the SDR data broadcast to three of
//! our own robots (0x0301 / 0x0200).

use vstd::prelude::*;
use crate::robot_interaction_id::{device_number, DeviceId};
use crate::serial::serial_package::{frame_bytes, FrameSequencer};
use crate::shared_data::{
    interaction_head, RobotInteractionData, SharedData, IDX_MINIMAP_RECEIVE_RADAR, IDX_ROBOT_INTERACTION,
    IDX_ROBOT_INTERACTION_DECISION, MINIMAP_RECEIVE_RADAR_CMD_ID,
    RADAR_AUTONOMOUS_DECISION_DATA_CMD_ID, RADAR_INTERACTION_SUBCONTEXT_CMD_ID,
    ROBOT_INTERACTION_CMD_ID,
};
use vstd::string::StrSliceExecFns;
use crate::serial::serial_parser::law_frame_bytes;
use crate::wire::le_bytes;
use crate::shared_data::law_minimap_receive_radar_layout;
use crate::robot_fields::{ally_minimap, opponent_minimap, role_index};
use crate::widgets::minimap::RobotRole;

verus! {

/// Length that the broadcast sub-command payload is cut or zero-padded to.
pub const BROADCAST_PAYLOAD_LEN: usize = 112;

/// The shared state names our side blue.
pub open spec fn side_is_blue(d: SharedData) -> bool {
    d.radar_side@ == "blue"@
}

/// Our radar's device identifier.
pub open spec fn radar_device(d: SharedData) -> DeviceId {
    if side_is_blue(d) {
        DeviceId::BlueRadar
    } else {
        DeviceId::RedRadar
    }
}

/// The robots that receive the SDR broadcast: our infantry 3, infantry 4 and aerial.
pub open spec fn broadcast_targets(d: SharedData) -> Seq<DeviceId> {
    if side_is_blue(d) {
        seq![DeviceId::BlueInfantry3, DeviceId::BlueInfantry4, DeviceId::BlueAerial]
    } else {
        seq![DeviceId::RedInfantry3, DeviceId::RedInfantry4, DeviceId::RedAerial]
    }
}

/// `s` cut or zero-padded to `n` bytes.
pub open spec fn fit_len(s: Seq<u8>, n: nat) -> Seq<u8> {
    if s.len() >= n {
        s.subrange(0, n as int)
    } else {
        s + Seq::new((n - s.len()) as nat, |i: int| 0u8)
    }
}

/// The sequence number after `s`.
pub open spec fn next_seq(s: u8) -> u8 {
    if s == 255 {
        0
    } else {
        (s + 1) as u8
    }
}

/// The interaction payload of one broadcast frame.
pub open spec fn broadcast_payload(d: SharedData, target: DeviceId) -> Seq<u8> {
    interaction_head(RADAR_INTERACTION_SUBCONTEXT_CMD_ID, radar_device(d), target) + fit_len(d.robot_interaction.subcontext_data@, BROADCAST_PAYLOAD_LEN as nat)
}

/// The interaction payload of the decision frame to the referee server.
pub open spec fn decision_payload(d: SharedData) -> Seq<u8> {
    interaction_head(RADAR_AUTONOMOUS_DECISION_DATA_CMD_ID, radar_device(d), DeviceId::RefereeServer)
        + d.radar_autonomous_decision.spec_encode()
}

/// The frames due for notification `idx`, numbered from `seq`.
pub open spec fn frames_for(idx: usize, d: SharedData, seq: u8) -> Seq<Seq<u8>> {
    if idx == IDX_MINIMAP_RECEIVE_RADAR {
        seq![frame_bytes(MINIMAP_RECEIVE_RADAR_CMD_ID, d.minimap_receive.spec_encode(), seq)]
    } else if idx == IDX_ROBOT_INTERACTION_DECISION {
        seq![frame_bytes(ROBOT_INTERACTION_CMD_ID, decision_payload(d), seq)]
    } else if idx == IDX_ROBOT_INTERACTION {
        let t = broadcast_targets(d);
        seq![
            frame_bytes(ROBOT_INTERACTION_CMD_ID, broadcast_payload(d, t[0]), seq),
            frame_bytes(ROBOT_INTERACTION_CMD_ID, broadcast_payload(d, t[1]), next_seq(seq)),
            frame_bytes(ROBOT_INTERACTION_CMD_ID, broadcast_payload(d, t[2]), next_seq(next_seq(seq))),
        ]
    } else {
        Seq::empty()
    }
}

/// Whether our side is blue.
pub fn is_blue_side(side: &str) -> (r: bool)
    ensures
        r == (side@ == "blue"@),
{
    proof {
        reveal_strlit("blue");
    }
    if side.unicode_len() != 4 {
        return false;
    }
    let r = side.get_char(0) == 'b' && side.get_char(1) == 'l' && side.get_char(2) == 'u'
        && side.get_char(3) == 'e';
    if r {
        assert(side@ =~= "blue"@);
    }
    r
}

fn fit_payload(s: &Vec<u8>, n: usize) -> (r: Vec<u8>)
    ensures
        r@ == fit_len(s@, n as nat),
{
    let mut out: Vec<u8> = Vec::new();
    let mut i: usize = 0;
    while i < n
        invariant
            i <= n,
            out@.len() == i,
            forall|j: int| 0 <= j < i ==> out@[j] == fit_len(s@, n as nat)[j],
        decreases n - i,
    {
        if i < s.len() {
            out.push(s[i]);
        } else {
            out.push(0);
        }
        i = i + 1;
    }
    assert(out@ =~= fit_len(s@, n as nat));
    out
}

fn interaction_frame(
    sequencer: &mut FrameSequencer,
    sub_cmd: u16,
    sender: DeviceId,
    receiver: DeviceId,
    sub_data: Vec<u8>,
) -> (r: Vec<u8>)
    ensures
        r@ == frame_bytes(
            ROBOT_INTERACTION_CMD_ID,
            RobotInteractionData {
                subcontext_cmd_id: sub_cmd,
                sender_id: sender,
                receiver_id: receiver,
                subcontext_data: sub_data,
            }.spec_bytes(),
            old(sequencer).next,
        ),
        final(sequencer).next == next_seq(old(sequencer).next),
{
    let interaction = RobotInteractionData {
        subcontext_cmd_id: sub_cmd,
        sender_id: sender,
        receiver_id: receiver,
        subcontext_data: sub_data,
    };
    let frame = sequencer.package(ROBOT_INTERACTION_CMD_ID, interaction.to_bytes());
    frame.to_bytes()
}

/// The frames to write for notification `idx`, in order, numbered by
/// `sequencer`. The broadcast frames are meant to be written with a pause
/// between them; other indices raise no serial traffic.
pub fn frames_for_notification(idx: usize, data: &SharedData, sequencer: &mut FrameSequencer) -> (r: Vec<Vec<u8>>)
    ensures
        r@.len() == frames_for(idx, *data, old(sequencer).next).len(),
        forall|k: int| 0 <= k < r@.len() ==> r@[k]@ == frames_for(idx, *data, old(sequencer).next)[k],
{
    let mut out: Vec<Vec<u8>> = Vec::new();
    let blue = is_blue_side(data.radar_side.as_str());
    let radar_id = if blue { DeviceId::BlueRadar } else { DeviceId::RedRadar };
    if idx == IDX_MINIMAP_RECEIVE_RADAR {
        let frame = sequencer.package(MINIMAP_RECEIVE_RADAR_CMD_ID, data.minimap_receive.to_bytes());
        out.push(frame.to_bytes());
    } else if idx == IDX_ROBOT_INTERACTION_DECISION {
        let sub = data.radar_autonomous_decision.to_bytes();
        let ghost s0 = sequencer.next;
        let frame = interaction_frame(
            sequencer,
            RADAR_AUTONOMOUS_DECISION_DATA_CMD_ID,
            radar_id,
            DeviceId::RefereeServer,
            sub,
        );
        out.push(frame);
    } else if idx == IDX_ROBOT_INTERACTION {
        let targets = if blue {
            [DeviceId::BlueInfantry3, DeviceId::BlueInfantry4, DeviceId::BlueAerial]
        } else {
            [DeviceId::RedInfantry3, DeviceId::RedInfantry4, DeviceId::RedAerial]
        };
        let ghost s0 = sequencer.next;
        let sub = fit_payload(&data.robot_interaction.subcontext_data, BROADCAST_PAYLOAD_LEN);
        let mut k: usize = 0;
        while k < 3
            invariant
                k <= 3,
                idx == IDX_ROBOT_INTERACTION,
                out@.len() == k,
                sub@ == fit_len(data.robot_interaction.subcontext_data@, BROADCAST_PAYLOAD_LEN as nat),
                targets@ == broadcast_targets(*data),
                radar_id == radar_device(*data),
                sequencer.next == (if k == 0 { s0 } else if k == 1 { next_seq(s0) } else if k == 2 {
                    next_seq(next_seq(s0))
                } else {
                    next_seq(next_seq(next_seq(s0)))
                }),
                forall|j: int| 0 <= j < k ==> out@[j]@ == frames_for(idx, *data, s0)[j],
            decreases 3 - k,
        {
            let target = targets[k];
            let sub_k = sub.clone();
            assert(sub_k@ == sub@);
            let ghost seq_k = sequencer.next;
            let frame = interaction_frame(
                sequencer,
                RADAR_INTERACTION_SUBCONTEXT_CMD_ID,
                radar_id,
                target,
                sub_k,
            );
            assert(frame@ == frames_for(idx, *data, s0)[k as int]);
            out.push(frame);
            k = k + 1;
        }
    }
    out
}

/// The bytes of a 16-bit word, least significant first.
proof fn lemma_le2_bytes(v: nat)
    ensures
        le_bytes(v, 2).len() == 2,
        le_bytes(v, 2)[0] == v % 256,
        le_bytes(v, 2)[1] == (v / 256) % 256,
{
    reveal_with_fuel(le_bytes, 3);
}

/// The decision frame always goes from our own radar to the referee server:
/// a 0x0301 frame with sub-command 0x0121, sender 109 (the blue radar)
/// exactly when our side is blue and 9 (the red radar) otherwise, receiver
/// 0x8080, followed by the decision counter, the password command and the
/// six password bytes.
pub proof fn law_decision_frame_comes_from_our_radar(d: SharedData, seq: u8)
    ensures
        ({
            let fs = frames_for(IDX_ROBOT_INTERACTION_DECISION, d, seq);
            let f = fs[0];
            &&& fs.len() == 1
            &&& f.len() == 23
            &&& f[3] == seq
            &&& f[5] == 0x01 && f[6] == 0x03
            &&& f[7] == 0x21 && f[8] == 0x01
            &&& f[9] == (if d.radar_side@ == "blue"@ { 109u8 } else { 9u8 }) && f[10] == 0
            &&& f[11] == 0x80 && f[12] == 0x80
            &&& f[13] == d.radar_autonomous_decision.radar_cmd
            &&& f[14] == d.radar_autonomous_decision.password_cmd
            &&& forall|j: int| 0 <= j < 6 ==> #[trigger] f[15 + j] == d.radar_autonomous_decision.password@[j]
        }),
{
    let p = decision_payload(d);
    lemma_le2_bytes(0x0121);
    lemma_le2_bytes(device_number(radar_device(d)) as nat);
    lemma_le2_bytes(0x8080);
    law_frame_bytes(ROBOT_INTERACTION_CMD_ID, p, seq);
    let f = frame_bytes(ROBOT_INTERACTION_CMD_ID, p, seq);
    assert(p.len() == 14);
    assert(f[7 + 0int] == p[0]);
    assert(f[7 + 1int] == p[1]);
    assert(f[7 + 2int] == p[2]);
    assert(f[7 + 3int] == p[3]);
    assert(f[7 + 4int] == p[4]);
    assert(f[7 + 5int] == p[5]);
    assert(f[7 + 6int] == p[6]);
    assert(f[7 + 7int] == p[7]);
    assert forall|j: int| 0 <= j < 6 implies #[trigger] f[15 + j] == d.radar_autonomous_decision.password@[j] by {
        assert(f[7 + (8 + j)] == p[8 + j]);
    }
}

/// The broadcast frames go from our own radar to our infantry 3, infantry 4
/// and aerial, in that order (3, 4, 6 on the red side, 103, 104, 106 on the
/// blue side), as consecutively numbered 0x0301 frames with sub-command
/// 0x0200, each carrying the broadcast data cut or zero-padded to 112 bytes.
pub proof fn law_broadcast_frames_reach_our_robots(d: SharedData, seq: u8, k: int)
    requires
        0 <= k < 3,
    ensures
        ({
            let fs = frames_for(IDX_ROBOT_INTERACTION, d, seq);
            let f = fs[k];
            let blue = d.radar_side@ == "blue"@;
            let sub = d.robot_interaction.subcontext_data@;
            &&& fs.len() == 3
            &&& f.len() == 127
            &&& f[3] as int == (seq + k) % 256
            &&& f[5] == 0x01 && f[6] == 0x03
            &&& f[7] == 0x00 && f[8] == 0x02
            &&& f[9] == (if blue { 109u8 } else { 9u8 }) && f[10] == 0
            &&& f[11] as int == (if blue { 100int } else { 0int }) + (if k == 0 { 3int } else if k == 1 { 4int } else { 6int })
            &&& f[12] == 0
            &&& forall|j: int| 0 <= j < 112 ==> #[trigger] f[13 + j] == (if j < sub.len() { sub[j] } else { 0u8 })
        }),
{
    let t = broadcast_targets(d);
    let s = if k == 0 { seq } else if k == 1 { next_seq(seq) } else { next_seq(next_seq(seq)) };
    let p = broadcast_payload(d, t[k]);
    lemma_le2_bytes(0x0200);
    lemma_le2_bytes(device_number(radar_device(d)) as nat);
    lemma_le2_bytes(device_number(t[k]) as nat);
    law_frame_bytes(ROBOT_INTERACTION_CMD_ID, p, s);
    let f = frame_bytes(ROBOT_INTERACTION_CMD_ID, p, s);
    assert(frames_for(IDX_ROBOT_INTERACTION, d, seq)[k] == f);
    assert(p.len() == 118);
    assert(f[7 + 0int] == p[0]);
    assert(f[7 + 1int] == p[1]);
    assert(f[7 + 2int] == p[2]);
    assert(f[7 + 3int] == p[3]);
    assert(f[7 + 4int] == p[4]);
    assert(f[7 + 5int] == p[5]);
    let sub = d.robot_interaction.subcontext_data@;
    assert forall|j: int| 0 <= j < 112 implies #[trigger] f[13 + j] == (if j < sub.len() { sub[j] } else { 0u8 }) by {
        assert(f[7 + (6 + j)] == p[6 + j]);
    }
}

/// The minimap frame is a 0x0305 frame whose payload lists, two bytes per
/// coordinate (least significant first), x then y of the enemy's hero,
/// engineer, infantry 3, infantry 4, aerial and sentry, then the same for our
/// robots, as the shared minimap record holds them.
#[verifier::rlimit(60)]
pub proof fn law_minimap_frame_lists_every_robot(d: SharedData, seq: u8, r: RobotRole)
    ensures
        ({
            let fs = frames_for(IDX_MINIMAP_RECEIVE_RADAR, d, seq);
            let f = fs[0];
            let k = role_index(r);
            let mr = d.minimap_receive;
            &&& fs.len() == 1
            &&& f.len() == 57
            &&& f[5] == 0x05 && f[6] == 0x03
            &&& f[7 + 4 * k] + 256 * f[8 + 4 * k] == opponent_minimap(mr, r).0
            &&& f[9 + 4 * k] + 256 * f[10 + 4 * k] == opponent_minimap(mr, r).1
            &&& f[31 + 4 * k] + 256 * f[32 + 4 * k] == ally_minimap(mr, r).0
            &&& f[33 + 4 * k] + 256 * f[34 + 4 * k] == ally_minimap(mr, r).1
        }),
{
    let mr = d.minimap_receive;
    let e = mr.spec_encode();
    mr.lemma_roundtrip();
    law_minimap_receive_radar_layout(e);
    law_frame_bytes(MINIMAP_RECEIVE_RADAR_CMD_ID, e, seq);
    let f = frame_bytes(MINIMAP_RECEIVE_RADAR_CMD_ID, e, seq);
    let k = role_index(r);
    assert(f[7 + (4 * k)] == e[4 * k]);
    assert(f[7 + (4 * k + 1)] == e[4 * k + 1]);
    assert(f[7 + (4 * k + 2)] == e[4 * k + 2]);
    assert(f[7 + (4 * k + 3)] == e[4 * k + 3]);
    assert(f[7 + (24 + 4 * k)] == e[24 + 4 * k]);
    assert(f[7 + (25 + 4 * k)] == e[25 + 4 * k]);
    assert(f[7 + (26 + 4 * k)] == e[26 + 4 * k]);
    assert(f[7 + (27 + 4 * k)] == e[27 + 4 * k]);
}

}
