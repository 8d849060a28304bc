//! What the ZMQ bridge does with the messages it carries.
//!
//! The subscriber receives SDR messages (enemy positions, hit points,
//! ammunition, economy, gains and jamming key) and lidar location messages
//! (positions of all twelve robots); each updates the shared state and
//! raises notifications for the serial transmitter. The publisher answers
//! the serial parser's notifications with one message each.

use vstd::prelude::*;
use crate::robot_interaction_id::DeviceId;
use crate::shared_data::{
    GameStateData, MinimapReceiveRadarData, Position, RadarAutonomousDecisionData,
    RadarAutonomousDecisionSyncData, RadarMarkProcessData, RobotInteractionData,
    SdrEnemyRobotBloodData, SdrEnemyRobotGainData, SdrEnemyRobotOverallStateData,
    SdrEnemyRobotPositionData, SdrEnemyRobotRemainingAmmoData, SdrJammingKeyData, SharedData,
    IDX_GAME_STATE, IDX_MINIMAP_RECEIVE_RADAR, IDX_RADAR_AUTONOMOUS_DECISION_SYNC,
    IDX_RADAR_MARK_PROCESS, IDX_ROBOT_INTERACTION, RADAR_INTERACTION_SUBCONTEXT_CMD_ID,
};
use crate::wire::write_bytes;
use crate::robot_fields::{
    ally_minimap, ally_position, as_signed, enemy_position, lemma_as_signed, lidar_ally,
    lidar_opponent, nonnegative, opponent_minimap, sdr_ammo, sdr_blood, sdr_position,
};
use crate::widgets::minimap::RobotRole;

verus! {

/// First byte of the SDR broadcast payload: its message type.
pub const SDR_MESSAGE_TYPE: u8 = 0x03;

/// Least time between two minimap notifications, in milliseconds (at most 5 Hz).
pub const MINIMAP_MIN_INTERVAL_MS: u64 = 200;

/// An SDR bridge message (JSON `cmd_id` 0x2002).
#[derive(Debug, Clone, Copy, Default)]
pub struct SdrMessage {
    pub cmd_id: u16,
    pub position: SdrEnemyRobotPositionData,
    pub blood: SdrEnemyRobotBloodData,
    pub ammo: SdrEnemyRobotRemainingAmmoData,
    pub state: SdrEnemyRobotOverallStateData,
    pub gain: SdrEnemyRobotGainData,
    pub key: SdrJammingKeyData,
}

/// A lidar location message (JSON `cmd_id` 0x2001): positions of all twelve robots.
#[derive(Debug, Clone, Copy, Default)]
pub struct LidarMessage {
    pub cmd_id: u16,
    pub opponent_hero_x: u16,
    pub opponent_hero_y: u16,
    pub opponent_engineer_x: u16,
    pub opponent_engineer_y: u16,
    pub opponent_infantry_3_x: u16,
    pub opponent_infantry_3_y: u16,
    pub opponent_infantry_4_x: u16,
    pub opponent_infantry_4_y: u16,
    pub opponent_aerial_x: u16,
    pub opponent_aerial_y: u16,
    pub opponent_sentry_x: u16,
    pub opponent_sentry_y: u16,
    pub ally_hero_x: u16,
    pub ally_hero_y: u16,
    pub ally_engineer_x: u16,
    pub ally_engineer_y: u16,
    pub ally_infantry_3_x: u16,
    pub ally_infantry_3_y: u16,
    pub ally_infantry_4_x: u16,
    pub ally_infantry_4_y: u16,
    pub ally_aerial_x: u16,
    pub ally_aerial_y: u16,
    pub ally_sentry_x: u16,
    pub ally_sentry_y: u16,
}

/// A coordinate clamped at zero, as the minimap frame carries only non-negative ones.
pub open spec fn clamp_to_u16(v: i16) -> u16 {
    if v < 0 {
        0
    } else {
        v as u16
    }
}

/// The bytes the SDR data is broadcast with: message type, hit points,
/// ammunition, economy (left out when a bit field is too wide) and gains.
pub open spec fn sdr_payload(m: SdrMessage) -> Seq<u8> {
    seq![SDR_MESSAGE_TYPE] + m.blood.spec_encode() + m.ammo.spec_encode() + (if m.state.fits() {
        m.state.spec_encode()
    } else {
        Seq::empty()
    }) + m.gain.spec_encode()
}

/// The shared state after an SDR message, apart from the broadcast payload's
/// byte vector (whose contents `sdr_payload` gives).
pub open spec fn sdr_update(d: SharedData, m: SdrMessage) -> SharedData {
    SharedData {
        enemy_hero: Position { x: m.position.hero_x, y: m.position.hero_y },
        enemy_engineer: Position { x: m.position.engineer_x, y: m.position.engineer_y },
        enemy_infantry_3: Position { x: m.position.infantry_3_x, y: m.position.infantry_3_y },
        enemy_infantry_4: Position { x: m.position.infantry_4_x, y: m.position.infantry_4_y },
        enemy_aerial: Position { x: m.position.aerial_x, y: m.position.aerial_y },
        enemy_sentry: Position { x: m.position.sentry_x, y: m.position.sentry_y },
        minimap_receive: MinimapReceiveRadarData {
            opponent_hero_x: clamp_to_u16(m.position.hero_x),
            opponent_hero_y: clamp_to_u16(m.position.hero_y),
            opponent_engineer_x: clamp_to_u16(m.position.engineer_x),
            opponent_engineer_y: clamp_to_u16(m.position.engineer_y),
            opponent_infantry_3_x: clamp_to_u16(m.position.infantry_3_x),
            opponent_infantry_3_y: clamp_to_u16(m.position.infantry_3_y),
            opponent_infantry_4_x: clamp_to_u16(m.position.infantry_4_x),
            opponent_infantry_4_y: clamp_to_u16(m.position.infantry_4_y),
            opponent_aerial_x: clamp_to_u16(m.position.aerial_x),
            opponent_aerial_y: clamp_to_u16(m.position.aerial_y),
            opponent_sentry_x: clamp_to_u16(m.position.sentry_x),
            opponent_sentry_y: clamp_to_u16(m.position.sentry_y),
            ..d.minimap_receive
        },
        sdr_blood: m.blood,
        sdr_ammo: m.ammo,
        sdr_state: m.state,
        sdr_gain: m.gain,
        sdr_jamming_key: m.key,
        radar_autonomous_decision: RadarAutonomousDecisionData { password: m.key.key, ..d.radar_autonomous_decision },
        robot_interaction: RobotInteractionData {
            subcontext_cmd_id: RADAR_INTERACTION_SUBCONTEXT_CMD_ID,
            sender_id: DeviceId::Unknown,
            receiver_id: DeviceId::Unknown,
            ..d.robot_interaction
        },
        ..d
    }
}

/// The shared state after a lidar location message.
pub open spec fn lidar_update(d: SharedData, m: LidarMessage) -> SharedData {
    SharedData {
        enemy_hero: Position { x: m.opponent_hero_x as i16, y: m.opponent_hero_y as i16 },
        enemy_engineer: Position { x: m.opponent_engineer_x as i16, y: m.opponent_engineer_y as i16 },
        enemy_infantry_3: Position { x: m.opponent_infantry_3_x as i16, y: m.opponent_infantry_3_y as i16 },
        enemy_infantry_4: Position { x: m.opponent_infantry_4_x as i16, y: m.opponent_infantry_4_y as i16 },
        enemy_aerial: Position { x: m.opponent_aerial_x as i16, y: m.opponent_aerial_y as i16 },
        enemy_sentry: Position { x: m.opponent_sentry_x as i16, y: m.opponent_sentry_y as i16 },
        ally_hero: Position { x: m.ally_hero_x as i16, y: m.ally_hero_y as i16 },
        ally_engineer: Position { x: m.ally_engineer_x as i16, y: m.ally_engineer_y as i16 },
        ally_infantry_3: Position { x: m.ally_infantry_3_x as i16, y: m.ally_infantry_3_y as i16 },
        ally_infantry_4: Position { x: m.ally_infantry_4_x as i16, y: m.ally_infantry_4_y as i16 },
        ally_aerial: Position { x: m.ally_aerial_x as i16, y: m.ally_aerial_y as i16 },
        ally_sentry: Position { x: m.ally_sentry_x as i16, y: m.ally_sentry_y as i16 },
        minimap_receive: MinimapReceiveRadarData {
            opponent_hero_x: m.opponent_hero_x,
            opponent_hero_y: m.opponent_hero_y,
            opponent_engineer_x: m.opponent_engineer_x,
            opponent_engineer_y: m.opponent_engineer_y,
            opponent_infantry_3_x: m.opponent_infantry_3_x,
            opponent_infantry_3_y: m.opponent_infantry_3_y,
            opponent_infantry_4_x: m.opponent_infantry_4_x,
            opponent_infantry_4_y: m.opponent_infantry_4_y,
            opponent_aerial_x: m.opponent_aerial_x,
            opponent_aerial_y: m.opponent_aerial_y,
            opponent_sentry_x: m.opponent_sentry_x,
            opponent_sentry_y: m.opponent_sentry_y,
            ally_hero_x: m.ally_hero_x,
            ally_hero_y: m.ally_hero_y,
            ally_engineer_x: m.ally_engineer_x,
            ally_engineer_y: m.ally_engineer_y,
            ally_infantry_3_x: m.ally_infantry_3_x,
            ally_infantry_3_y: m.ally_infantry_3_y,
            ally_infantry_4_x: m.ally_infantry_4_x,
            ally_infantry_4_y: m.ally_infantry_4_y,
            ally_aerial_x: m.ally_aerial_x,
            ally_aerial_y: m.ally_aerial_y,
            ally_sentry_x: m.ally_sentry_x,
            ally_sentry_y: m.ally_sentry_y,
        },
        ..d
    }
}

fn clamp_nonnegative(v: i16) -> (r: u16)
    ensures
        r == clamp_to_u16(v),
{
    if v < 0 {
        0
    } else {
        v as u16
    }
}

/// Whether a minimap notification is due at `now_ms`, given when the last
/// one was sent: when none was sent yet, or the last is at least
/// `MINIMAP_MIN_INTERVAL_MS` old (a clock that went backwards counts as no
/// time passed).
pub open spec fn minimap_due(last_sent_ms: Option<u64>, now_ms: u64) -> bool {
    match last_sent_ms {
        None => true,
        Some(t) => now_ms >= t && now_ms - t >= MINIMAP_MIN_INTERVAL_MS,
    }
}

/// Two minimap notifications are never closer than
/// `MINIMAP_MIN_INTERVAL_MS`: after one is sent at `sent_ms`, the next is due
/// only at least that long later, so at most five go out per second.
pub proof fn law_minimap_notifications_are_spaced(sent_ms: u64, now_ms: u64)
    ensures
        minimap_due(Some(sent_ms), now_ms) ==> now_ms >= sent_ms + MINIMAP_MIN_INTERVAL_MS,
        now_ms >= sent_ms + MINIMAP_MIN_INTERVAL_MS ==> minimap_due(Some(sent_ms), now_ms),
{
}

/// Limits how often minimap frames are requested.
#[derive(Debug, Clone, Copy, Default)]
pub struct MinimapThrottle {
    pub last_sent_ms: Option<u64>,
}

impl MinimapThrottle {
    /// A minimap notification is due at `now_ms` when none was sent yet or
    /// the last one is at least `MINIMAP_MIN_INTERVAL_MS` old; a due one is
    /// recorded as sent now. A clock that went backwards counts as no time passed.
    pub fn try_acquire(&mut self, now_ms: u64) -> (due: bool)
        ensures
            due == minimap_due(old(self).last_sent_ms, now_ms),
            due ==> final(self).last_sent_ms == Some(now_ms),
            !due ==> *final(self) == *old(self),
    {
        let due = match self.last_sent_ms {
            None => true,
            Some(t) => now_ms >= t && now_ms - t >= MINIMAP_MIN_INTERVAL_MS,
        };
        if due {
            self.last_sent_ms = Some(now_ms);
        }
        due
    }
}

fn sdr_payload_exec(msg: &SdrMessage) -> (r: Vec<u8>)
    ensures
        r@ == sdr_payload(*msg),
{
    let mut out: Vec<u8> = Vec::new();
    out.push(SDR_MESSAGE_TYPE);
    write_bytes(&mut out, msg.blood.to_bytes().as_slice());
    write_bytes(&mut out, msg.ammo.to_bytes().as_slice());
    match msg.state.to_bytes() {
        Some(state) => write_bytes(&mut out, state.as_slice()),
        None => {},
    }
    write_bytes(&mut out, msg.gain.to_bytes().as_slice());
    assert(out@ =~= sdr_payload(*msg));
    out
}

/// Applies an SDR message to the shared state: enemy positions (and the
/// minimap's opponent coordinates, clamped at zero), hit points, ammunition,
/// economy, gains, the jamming key (which also becomes the decision
/// password), and the broadcast payload. Returns the notifications raised:
/// the broadcast always, the minimap when the throttle lets it through at `now_ms`.
pub fn apply_sdr_message(
    shared: &mut SharedData,
    msg: &SdrMessage,
    throttle: &mut MinimapThrottle,
    now_ms: u64,
) -> (r: Vec<usize>)
    ensures
        ({
            let u = sdr_update(*old(shared), *msg);
            &&& *final(shared) == SharedData {
                robot_interaction: RobotInteractionData {
                    subcontext_data: final(shared).robot_interaction.subcontext_data,
                    ..u.robot_interaction
                },
                ..u
            }
            &&& final(shared).robot_interaction.subcontext_data@ == sdr_payload(*msg)
        }),
        ({
            r@ == (if minimap_due(old(throttle).last_sent_ms, now_ms) {
                seq![IDX_ROBOT_INTERACTION, IDX_MINIMAP_RECEIVE_RADAR]
            } else {
                seq![IDX_ROBOT_INTERACTION]
            })
        }),
{
    let sub_data = sdr_payload_exec(msg);
    shared.enemy_hero = Position { x: msg.position.hero_x, y: msg.position.hero_y };
    shared.enemy_engineer = Position { x: msg.position.engineer_x, y: msg.position.engineer_y };
    shared.enemy_infantry_3 = Position { x: msg.position.infantry_3_x, y: msg.position.infantry_3_y };
    shared.enemy_infantry_4 = Position { x: msg.position.infantry_4_x, y: msg.position.infantry_4_y };
    shared.enemy_aerial = Position { x: msg.position.aerial_x, y: msg.position.aerial_y };
    shared.enemy_sentry = Position { x: msg.position.sentry_x, y: msg.position.sentry_y };
    shared.minimap_receive.opponent_hero_x = clamp_nonnegative(msg.position.hero_x);
    shared.minimap_receive.opponent_hero_y = clamp_nonnegative(msg.position.hero_y);
    shared.minimap_receive.opponent_engineer_x = clamp_nonnegative(msg.position.engineer_x);
    shared.minimap_receive.opponent_engineer_y = clamp_nonnegative(msg.position.engineer_y);
    shared.minimap_receive.opponent_infantry_3_x = clamp_nonnegative(msg.position.infantry_3_x);
    shared.minimap_receive.opponent_infantry_3_y = clamp_nonnegative(msg.position.infantry_3_y);
    shared.minimap_receive.opponent_infantry_4_x = clamp_nonnegative(msg.position.infantry_4_x);
    shared.minimap_receive.opponent_infantry_4_y = clamp_nonnegative(msg.position.infantry_4_y);
    shared.minimap_receive.opponent_aerial_x = clamp_nonnegative(msg.position.aerial_x);
    shared.minimap_receive.opponent_aerial_y = clamp_nonnegative(msg.position.aerial_y);
    shared.minimap_receive.opponent_sentry_x = clamp_nonnegative(msg.position.sentry_x);
    shared.minimap_receive.opponent_sentry_y = clamp_nonnegative(msg.position.sentry_y);
    shared.sdr_blood = msg.blood;
    shared.sdr_ammo = msg.ammo;
    shared.sdr_state = msg.state;
    shared.sdr_gain = msg.gain;
    shared.sdr_jamming_key = msg.key;
    shared.radar_autonomous_decision.password = msg.key.key;
    shared.robot_interaction = RobotInteractionData {
        subcontext_cmd_id: RADAR_INTERACTION_SUBCONTEXT_CMD_ID,
        sender_id: DeviceId::Unknown,
        receiver_id: DeviceId::Unknown,
        subcontext_data: sub_data,
    };
    let mut notes: Vec<usize> = Vec::new();
    notes.push(IDX_ROBOT_INTERACTION);
    if throttle.try_acquire(now_ms) {
        notes.push(IDX_MINIMAP_RECEIVE_RADAR);
    }
    notes
}

/// Applies a lidar location message: all twelve positions (unsigned
/// coordinates read as signed 16-bit values) and the whole minimap record.
/// Returns the minimap notification.
pub fn apply_lidar_message(shared: &mut SharedData, msg: &LidarMessage) -> (r: Vec<usize>)
    ensures
        *final(shared) == lidar_update(*old(shared), *msg),
        r@ == seq![IDX_MINIMAP_RECEIVE_RADAR],
{
    shared.enemy_hero = Position { x: #[verifier::truncate] (msg.opponent_hero_x as i16), y: #[verifier::truncate] (msg.opponent_hero_y as i16) };
    shared.enemy_engineer = Position { x: #[verifier::truncate] (msg.opponent_engineer_x as i16), y: #[verifier::truncate] (msg.opponent_engineer_y as i16) };
    shared.enemy_infantry_3 = Position { x: #[verifier::truncate] (msg.opponent_infantry_3_x as i16), y: #[verifier::truncate] (msg.opponent_infantry_3_y as i16) };
    shared.enemy_infantry_4 = Position { x: #[verifier::truncate] (msg.opponent_infantry_4_x as i16), y: #[verifier::truncate] (msg.opponent_infantry_4_y as i16) };
    shared.enemy_aerial = Position { x: #[verifier::truncate] (msg.opponent_aerial_x as i16), y: #[verifier::truncate] (msg.opponent_aerial_y as i16) };
    shared.enemy_sentry = Position { x: #[verifier::truncate] (msg.opponent_sentry_x as i16), y: #[verifier::truncate] (msg.opponent_sentry_y as i16) };
    shared.ally_hero = Position { x: #[verifier::truncate] (msg.ally_hero_x as i16), y: #[verifier::truncate] (msg.ally_hero_y as i16) };
    shared.ally_engineer = Position { x: #[verifier::truncate] (msg.ally_engineer_x as i16), y: #[verifier::truncate] (msg.ally_engineer_y as i16) };
    shared.ally_infantry_3 = Position { x: #[verifier::truncate] (msg.ally_infantry_3_x as i16), y: #[verifier::truncate] (msg.ally_infantry_3_y as i16) };
    shared.ally_infantry_4 = Position { x: #[verifier::truncate] (msg.ally_infantry_4_x as i16), y: #[verifier::truncate] (msg.ally_infantry_4_y as i16) };
    shared.ally_aerial = Position { x: #[verifier::truncate] (msg.ally_aerial_x as i16), y: #[verifier::truncate] (msg.ally_aerial_y as i16) };
    shared.ally_sentry = Position { x: #[verifier::truncate] (msg.ally_sentry_x as i16), y: #[verifier::truncate] (msg.ally_sentry_y as i16) };
    shared.minimap_receive = MinimapReceiveRadarData {
        opponent_hero_x: msg.opponent_hero_x,
        opponent_hero_y: msg.opponent_hero_y,
        opponent_engineer_x: msg.opponent_engineer_x,
        opponent_engineer_y: msg.opponent_engineer_y,
        opponent_infantry_3_x: msg.opponent_infantry_3_x,
        opponent_infantry_3_y: msg.opponent_infantry_3_y,
        opponent_infantry_4_x: msg.opponent_infantry_4_x,
        opponent_infantry_4_y: msg.opponent_infantry_4_y,
        opponent_aerial_x: msg.opponent_aerial_x,
        opponent_aerial_y: msg.opponent_aerial_y,
        opponent_sentry_x: msg.opponent_sentry_x,
        opponent_sentry_y: msg.opponent_sentry_y,
        ally_hero_x: msg.ally_hero_x,
        ally_hero_y: msg.ally_hero_y,
        ally_engineer_x: msg.ally_engineer_x,
        ally_engineer_y: msg.ally_engineer_y,
        ally_infantry_3_x: msg.ally_infantry_3_x,
        ally_infantry_3_y: msg.ally_infantry_3_y,
        ally_infantry_4_x: msg.ally_infantry_4_x,
        ally_infantry_4_y: msg.ally_infantry_4_y,
        ally_aerial_x: msg.ally_aerial_x,
        ally_aerial_y: msg.ally_aerial_y,
        ally_sentry_x: msg.ally_sentry_x,
        ally_sentry_y: msg.ally_sentry_y,
    };
    let mut notes: Vec<usize> = Vec::new();
    notes.push(IDX_MINIMAP_RECEIVE_RADAR);
    notes
}

/// An SDR message moves each enemy robot to the position the message gives
/// for that same robot, axis by axis, and writes those coordinates (a
/// negative one as zero) into the minimap record for the referee; our own
/// robots keep their positions and minimap coordinates. The robot's hit
/// points and ammunition become the message's.
pub proof fn law_sdr_message_places_each_enemy(d: SharedData, m: SdrMessage, r: RobotRole)
    ensures
        ({
            let u = sdr_update(d, m);
            let p = sdr_position(m.position, r);
            &&& enemy_position(u, r).x == p.0
            &&& enemy_position(u, r).y == p.1
            &&& opponent_minimap(u.minimap_receive, r).0 as int == nonnegative(p.0)
            &&& opponent_minimap(u.minimap_receive, r).1 as int == nonnegative(p.1)
            &&& ally_position(u, r) == ally_position(d, r)
            &&& ally_minimap(u.minimap_receive, r) == ally_minimap(d.minimap_receive, r)
            &&& sdr_blood(u.sdr_blood, r) == sdr_blood(m.blood, r)
            &&& sdr_ammo(u.sdr_ammo, r) == sdr_ammo(m.ammo, r)
        }),
{
}

/// An SDR message stores the economy, gains and jamming key it carries, the
/// key also as the decision password, and leaves the referee's records (game
/// state, result, events, marks, decision counter) alone.
pub proof fn law_sdr_message_keeps_referee_records(d: SharedData, m: SdrMessage)
    ensures
        ({
            let u = sdr_update(d, m);
            &&& u.sdr_state == m.state
            &&& u.sdr_gain == m.gain
            &&& u.sdr_jamming_key == m.key
            &&& u.radar_autonomous_decision.password == m.key.key
            &&& u.radar_autonomous_decision.radar_cmd == d.radar_autonomous_decision.radar_cmd
            &&& u.radar_autonomous_decision.password_cmd == d.radar_autonomous_decision.password_cmd
            &&& u.game_state == d.game_state
            &&& u.game_result == d.game_result
            &&& u.site_event == d.site_event
            &&& u.dart_launch == d.dart_launch
            &&& u.radar_mark_process == d.radar_mark_process
            &&& u.radar_autonomous_decision_sync == d.radar_autonomous_decision_sync
        }),
{
}

/// A lidar message moves every robot, ours and the enemy's, to the position
/// the message gives for that same robot, axis by axis (a coordinate above
/// 32767 read as a negative 16-bit one), and the minimap record for the
/// referee carries the message's coordinates unchanged; nothing else moves.
pub proof fn law_lidar_message_places_every_robot(d: SharedData, m: LidarMessage, r: RobotRole)
    ensures
        ({
            let u = lidar_update(d, m);
            &&& enemy_position(u, r).x as int == as_signed(lidar_opponent(m, r).0)
            &&& enemy_position(u, r).y as int == as_signed(lidar_opponent(m, r).1)
            &&& ally_position(u, r).x as int == as_signed(lidar_ally(m, r).0)
            &&& ally_position(u, r).y as int == as_signed(lidar_ally(m, r).1)
            &&& opponent_minimap(u.minimap_receive, r) == lidar_opponent(m, r)
            &&& ally_minimap(u.minimap_receive, r) == lidar_ally(m, r)
            &&& u.sdr_blood == d.sdr_blood
            &&& u.sdr_ammo == d.sdr_ammo
            &&& u.game_state == d.game_state
            &&& u.radar_autonomous_decision == d.radar_autonomous_decision
        }),
{
    lemma_as_signed(lidar_opponent(m, r).0);
    lemma_as_signed(lidar_opponent(m, r).1);
    lemma_as_signed(lidar_ally(m, r).0);
    lemma_as_signed(lidar_ally(m, r).1);
}

/// The broadcast payload of an SDR message: message type 3, then the hit
/// points (12 bytes), the ammunition (10 bytes), the economy (8 bytes, left
/// out when one of its bit fields is too wide) and the gains (41 bytes),
/// each record reading back as the message's own.
pub proof fn law_sdr_payload_carries_each_record(m: SdrMessage)
    ensures
        ({
            let p = sdr_payload(m);
            let g = if m.state.fits() { 31int } else { 23int };
            &&& p.len() == g + 41
            &&& p[0] == 3
            &&& SdrEnemyRobotBloodData::spec_decode(p.subrange(1, 13)) == m.blood
            &&& SdrEnemyRobotRemainingAmmoData::spec_decode(p.subrange(13, 23)) == m.ammo
            &&& m.state.fits() ==> SdrEnemyRobotOverallStateData::spec_decode(p.subrange(23, 31)) == m.state
            &&& SdrEnemyRobotGainData::spec_decode(p.subrange(g, g + 41)) == m.gain
        }),
{
    m.blood.lemma_roundtrip();
    m.ammo.lemma_roundtrip();
    m.gain.lemma_roundtrip();
    let p = sdr_payload(m);
    let st = if m.state.fits() { m.state.spec_encode() } else { Seq::empty() };
    if m.state.fits() {
        m.state.lemma_roundtrip();
    }
    let g = if m.state.fits() { 31int } else { 23int };
    assert(st.len() == g - 23);
    assert(p.subrange(1, 13) =~= m.blood.spec_encode());
    assert(p.subrange(13, 23) =~= m.ammo.spec_encode());
    if m.state.fits() {
        assert(p.subrange(23, 31) =~= m.state.spec_encode());
    }
    assert(p.subrange(g, g + 41) =~= m.gain.spec_encode());
}

/// The publisher answers notification 0 with the game state, 4 with the
/// radar marks and 5 with the decision sync, each as the shared state holds
/// it; every other notification publishes nothing.
pub proof fn law_publisher_answers_its_notifications(idx: usize, d: SharedData)
    ensures
        idx == 0 ==> spec_pub_message(idx, d) == Some(PubMessage::GameState(d.game_state)),
        idx == 4 ==> spec_pub_message(idx, d) == Some(PubMessage::RadarMarkProcess(d.radar_mark_process)),
        idx == 5 ==> spec_pub_message(idx, d) == Some(
            PubMessage::RadarAutonomousDecisionSync(d.radar_autonomous_decision_sync),
        ),
        !(idx == 0 || idx == 4 || idx == 5) ==> spec_pub_message(idx, d) is None,
{
}

/// One message for the ZMQ publisher.
#[derive(Debug, Clone, Copy)]
pub enum PubMessage {
    GameState(GameStateData),
    RadarMarkProcess(RadarMarkProcessData),
    RadarAutonomousDecisionSync(RadarAutonomousDecisionSyncData),
}

/// The message published for notification `idx`, from the current state.
pub open spec fn spec_pub_message(idx: usize, d: SharedData) -> Option<PubMessage> {
    if idx == IDX_GAME_STATE {
        Some(PubMessage::GameState(d.game_state))
    } else if idx == IDX_RADAR_MARK_PROCESS {
        Some(PubMessage::RadarMarkProcess(d.radar_mark_process))
    } else if idx == IDX_RADAR_AUTONOMOUS_DECISION_SYNC {
        Some(PubMessage::RadarAutonomousDecisionSync(d.radar_autonomous_decision_sync))
    } else {
        None
    }
}

/// Chooses what the publisher sends for notification `idx`; other indices publish nothing.
pub fn pub_message(idx: usize, shared: &SharedData) -> (r: Option<PubMessage>)
    ensures
        r == spec_pub_message(idx, *shared),
{
    if idx == IDX_GAME_STATE {
        Some(PubMessage::GameState(shared.game_state))
    } else if idx == IDX_RADAR_MARK_PROCESS {
        Some(PubMessage::RadarMarkProcess(shared.radar_mark_process))
    } else if idx == IDX_RADAR_AUTONOMOUS_DECISION_SYNC {
        Some(PubMessage::RadarAutonomousDecisionSync(shared.radar_autonomous_decision_sync))
    } else {
        None
    }
}

}
