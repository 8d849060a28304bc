//! Where each robot's data sits in the records: one accessor per record,
//! indexed by the robot's role, so that laws can say "the same robot" and
//! "the same axis" across records.

use vstd::prelude::*;
use crate::shared_data::{
    MinimapReceiveRadarData, Position, SdrEnemyRobotBloodData, SdrEnemyRobotPositionData,
    SdrEnemyRobotRemainingAmmoData, SharedData,
};
use crate::widgets::minimap::RobotRole;
use crate::zmq::zmq::LidarMessage;

verus! {

/// The last known position of an enemy robot.
pub open spec fn enemy_position(d: SharedData, r: RobotRole) -> Position {
    match r {
        RobotRole::Hero => d.enemy_hero,
        RobotRole::Engineer => d.enemy_engineer,
        RobotRole::Infantry3 => d.enemy_infantry_3,
        RobotRole::Infantry4 => d.enemy_infantry_4,
        RobotRole::Aerial => d.enemy_aerial,
        RobotRole::Sentry => d.enemy_sentry,
    }
}

/// The last known position of one of our robots.
pub open spec fn ally_position(d: SharedData, r: RobotRole) -> Position {
    match r {
        RobotRole::Hero => d.ally_hero,
        RobotRole::Engineer => d.ally_engineer,
        RobotRole::Infantry3 => d.ally_infantry_3,
        RobotRole::Infantry4 => d.ally_infantry_4,
        RobotRole::Aerial => d.ally_aerial,
        RobotRole::Sentry => d.ally_sentry,
    }
}

/// The (x, y) of an enemy robot in the minimap record sent to the referee.
pub open spec fn opponent_minimap(m: MinimapReceiveRadarData, r: RobotRole) -> (u16, u16) {
    match r {
        RobotRole::Hero => (m.opponent_hero_x, m.opponent_hero_y),
        RobotRole::Engineer => (m.opponent_engineer_x, m.opponent_engineer_y),
        RobotRole::Infantry3 => (m.opponent_infantry_3_x, m.opponent_infantry_3_y),
        RobotRole::Infantry4 => (m.opponent_infantry_4_x, m.opponent_infantry_4_y),
        RobotRole::Aerial => (m.opponent_aerial_x, m.opponent_aerial_y),
        RobotRole::Sentry => (m.opponent_sentry_x, m.opponent_sentry_y),
    }
}

/// The (x, y) of one of our robots in the minimap record sent to the referee.
pub open spec fn ally_minimap(m: MinimapReceiveRadarData, r: RobotRole) -> (u16, u16) {
    match r {
        RobotRole::Hero => (m.ally_hero_x, m.ally_hero_y),
        RobotRole::Engineer => (m.ally_engineer_x, m.ally_engineer_y),
        RobotRole::Infantry3 => (m.ally_infantry_3_x, m.ally_infantry_3_y),
        RobotRole::Infantry4 => (m.ally_infantry_4_x, m.ally_infantry_4_y),
        RobotRole::Aerial => (m.ally_aerial_x, m.ally_aerial_y),
        RobotRole::Sentry => (m.ally_sentry_x, m.ally_sentry_y),
    }
}

/// The (x, y) of an enemy robot as the SDR link reports it.
pub open spec fn sdr_position(p: SdrEnemyRobotPositionData, r: RobotRole) -> (i16, i16) {
    match r {
        RobotRole::Hero => (p.hero_x, p.hero_y),
        RobotRole::Engineer => (p.engineer_x, p.engineer_y),
        RobotRole::Infantry3 => (p.infantry_3_x, p.infantry_3_y),
        RobotRole::Infantry4 => (p.infantry_4_x, p.infantry_4_y),
        RobotRole::Aerial => (p.aerial_x, p.aerial_y),
        RobotRole::Sentry => (p.sentry_x, p.sentry_y),
    }
}

/// The (x, y) of an enemy robot in a lidar location message.
pub open spec fn lidar_opponent(m: LidarMessage, r: RobotRole) -> (u16, u16) {
    match r {
        RobotRole::Hero => (m.opponent_hero_x, m.opponent_hero_y),
        RobotRole::Engineer => (m.opponent_engineer_x, m.opponent_engineer_y),
        RobotRole::Infantry3 => (m.opponent_infantry_3_x, m.opponent_infantry_3_y),
        RobotRole::Infantry4 => (m.opponent_infantry_4_x, m.opponent_infantry_4_y),
        RobotRole::Aerial => (m.opponent_aerial_x, m.opponent_aerial_y),
        RobotRole::Sentry => (m.opponent_sentry_x, m.opponent_sentry_y),
    }
}

/// The (x, y) of one of our robots in a lidar location message.
pub open spec fn lidar_ally(m: LidarMessage, r: RobotRole) -> (u16, u16) {
    match r {
        RobotRole::Hero => (m.ally_hero_x, m.ally_hero_y),
        RobotRole::Engineer => (m.ally_engineer_x, m.ally_engineer_y),
        RobotRole::Infantry3 => (m.ally_infantry_3_x, m.ally_infantry_3_y),
        RobotRole::Infantry4 => (m.ally_infantry_4_x, m.ally_infantry_4_y),
        RobotRole::Aerial => (m.ally_aerial_x, m.ally_aerial_y),
        RobotRole::Sentry => (m.ally_sentry_x, m.ally_sentry_y),
    }
}

/// The hit points the SDR link reports for an enemy robot; none for the
/// aerial, whose slot the record leaves reserved.
pub open spec fn sdr_blood(b: SdrEnemyRobotBloodData, r: RobotRole) -> Option<u16> {
    match r {
        RobotRole::Hero => Some(b.hero_blood),
        RobotRole::Engineer => Some(b.engineer_blood),
        RobotRole::Infantry3 => Some(b.infantry_3_blood),
        RobotRole::Infantry4 => Some(b.infantry_4_blood),
        RobotRole::Aerial => None,
        RobotRole::Sentry => Some(b.sentry_blood),
    }
}

/// The ammunition the SDR link reports for an enemy robot; none for the
/// engineer, which carries no launcher.
pub open spec fn sdr_ammo(a: SdrEnemyRobotRemainingAmmoData, r: RobotRole) -> Option<u16> {
    match r {
        RobotRole::Hero => Some(a.hero_ammo),
        RobotRole::Engineer => None,
        RobotRole::Infantry3 => Some(a.infantry_3_ammo),
        RobotRole::Infantry4 => Some(a.infantry_4_ammo),
        RobotRole::Aerial => Some(a.aerial_ammo),
        RobotRole::Sentry => Some(a.sentry_ammo),
    }
}

/// The full hit points of a robot of this role: 400 for the sentry, 200 otherwise.
pub open spec fn full_hp(r: RobotRole) -> u16 {
    if r == RobotRole::Sentry {
        400
    } else {
        200
    }
}

/// The place of a role in the records that list the six robots of a side:
/// hero, engineer, infantry 3, infantry 4, aerial, sentry.
pub open spec fn role_index(r: RobotRole) -> int {
    match r {
        RobotRole::Hero => 0,
        RobotRole::Engineer => 1,
        RobotRole::Infantry3 => 2,
        RobotRole::Infantry4 => 3,
        RobotRole::Aerial => 4,
        RobotRole::Sentry => 5,
    }
}

/// The role's name on the minimap.
pub open spec fn role_label(r: RobotRole) -> Seq<char> {
    match r {
        RobotRole::Hero => "英雄"@,
        RobotRole::Engineer => "工程"@,
        RobotRole::Infantry3 => "步兵3"@,
        RobotRole::Infantry4 => "步兵4"@,
        RobotRole::Aerial => "无人机"@,
        RobotRole::Sentry => "哨兵"@,
    }
}

/// A 16-bit coordinate read as a signed one: above 32767 it wraps below zero.
pub open spec fn as_signed(v: u16) -> int {
    if v < 0x8000 {
        v as int
    } else {
        v as int - 0x10000
    }
}

/// A coordinate as the minimap record can carry it: negative ones become zero.
pub open spec fn nonnegative(v: i16) -> int {
    if v < 0 {
        0
    } else {
        v as int
    }
}

/// Reading a 16-bit word as signed agrees with `as_signed`.
pub proof fn lemma_as_signed(v: u16)
    ensures
        (v as i16) as int == as_signed(v),
{
    if v >= 0x8000 {
        assert(v >= 0x8000 ==> (v as i16) < 0) by (bit_vector);
        assert(v >= 0x8000 ==> (v as i16) as int + 0x10000 == v as int) by (bit_vector);
    }
}

} // verus!
