//! What the minimap shows: one marker per robot of both teams, the health
//! band of its ring, and which marker is selected.

use vstd::prelude::*;
use crate::services::script_runner::{spec_enemy, TeamSide};
use crate::shared_data::SharedData;
use crate::robot_fields::{ally_position, enemy_position, full_hp, role_label, sdr_ammo, sdr_blood};

verus! {

/// The minimap's display switches and selected marker.
#[derive(Clone, Copy, Debug)]
pub struct MinimapOptions {
    pub show_grid: bool,
    pub show_labels: bool,
    pub show_hp_ring: bool,
    pub selected: usize,
}

impl Default for MinimapOptions {
    fn default() -> (r: MinimapOptions)
        ensures
            r.show_grid && r.show_labels && r.show_hp_ring && r.selected == 0,
    {
        MinimapOptions { show_grid: true, show_labels: true, show_hp_ring: true, selected: 0 }
    }
}

/// The minimap widget.
pub struct MinimapWidget;

impl MinimapWidget {
    /// The widget.
    pub fn new() -> (r: MinimapWidget) {
        MinimapWidget
    }
}

/// The health of a robot and its maximum.
#[derive(Clone, Copy, Debug, PartialEq, Eq)]
pub struct RobotHealth {
    pub hp: u16,
    pub hp_max: u16,
}

/// The colour band of a health ring.
#[derive(Clone, Copy, Debug, PartialEq, Eq)]
pub enum HpBand {
    Green,
    Yellow,
    Red,
}

/// The band of a health ring: none for a dead robot or an unknown maximum;
/// green above 60 % of the maximum, yellow above 30 %, red otherwise.
pub open spec fn hp_band_of(h: RobotHealth) -> Option<HpBand> {
    if h.hp == 0 || h.hp_max == 0 {
        None
    } else if 5 * h.hp > 3 * h.hp_max {
        Some(HpBand::Green)
    } else if 10 * h.hp > 3 * h.hp_max {
        Some(HpBand::Yellow)
    } else {
        Some(HpBand::Red)
    }
}

/// The band of a health ring.
pub fn hp_band(health: RobotHealth) -> (r: Option<HpBand>)
    ensures
        r == hp_band_of(health),
{
    if health.hp == 0 || health.hp_max == 0 {
        return None;
    }
    let hp = health.hp as u32;
    let max = health.hp_max as u32;
    if 5 * hp > 3 * max {
        Some(HpBand::Green)
    } else if 10 * hp > 3 * max {
        Some(HpBand::Yellow)
    } else {
        Some(HpBand::Red)
    }
}

/// Keeps a selection within the markers: at most the last one, and zero
/// when there are none.
pub fn clamp_marker_selection(selected: usize, marker_count: usize) -> (r: usize)
    ensures
        marker_count == 0 ==> r == 0,
        marker_count > 0 ==> r == if selected < marker_count - 1 {
            selected
        } else {
            (marker_count - 1) as usize
        },
{
    let last = if marker_count > 0 {
        marker_count - 1
    } else {
        0
    };
    if selected < last {
        selected
    } else {
        last
    }
}

/// Whose robot a marker shows.
#[derive(Clone, Copy, Debug, PartialEq, Eq)]
pub enum MarkerSide {
    Ally,
    Enemy,
}

/// The role of a robot, which picks its marker colour.
#[derive(Clone, Copy, Debug, PartialEq, Eq)]
pub enum RobotRole {
    Hero,
    Engineer,
    Infantry3,
    Infantry4,
    Aerial,
    Sentry,
}

/// One marker of the minimap; `team` is the colour of the robot's team.
#[derive(Clone, Copy, Debug)]
pub struct RobotMarker {
    pub name: &'static str,
    pub role_name: &'static str,
    pub role: RobotRole,
    pub side: MarkerSide,
    pub pos: [i16; 2],
    pub team: TeamSide,
    pub health: Option<RobotHealth>,
    pub ammo: Option<u16>,
}

/// A marker as a value.
pub struct MarkerModel {
    pub name: Seq<char>,
    pub role_name: Seq<char>,
    pub role: RobotRole,
    pub side: MarkerSide,
    pub pos: Seq<i16>,
    pub team: TeamSide,
    pub health: Option<RobotHealth>,
    pub ammo: Option<u16>,
}

impl View for RobotMarker {
    type V = MarkerModel;

    open spec fn view(&self) -> MarkerModel {
        MarkerModel {
            name: self.name@,
            role_name: self.role_name@,
            role: self.role,
            side: self.side,
            pos: self.pos@,
            team: self.team,
            health: self.health,
            ammo: self.ammo,
        }
    }
}

/// The marker of one robot.
pub open spec fn marker(
    name: Seq<char>,
    role_name: Seq<char>,
    role: RobotRole,
    side: MarkerSide,
    x: i16,
    y: i16,
    team: TeamSide,
    health: Option<RobotHealth>,
    ammo: Option<u16>,
) -> MarkerModel {
    MarkerModel { name, role_name, role, side, pos: seq![x, y], team, health, ammo }
}

/// The twelve markers: our hero, engineer, two infantry, aerial and sentry,
/// then the enemy's, each at its last known position; enemy markers carry
/// the health (out of 200, 400 for the sentry) and ammunition that the SDR
/// link reports for the robots it covers.
pub open spec fn markers_of(info: SharedData, our_side: TeamSide) -> Seq<MarkerModel> {
    let ally = our_side;
    let enemy = spec_enemy(our_side);
    seq![
        marker("我方 · 英雄"@, "英雄"@, RobotRole::Hero, MarkerSide::Ally, info.ally_hero.x, info.ally_hero.y, ally, None, None),
        marker("我方 · 工程"@, "工程"@, RobotRole::Engineer, MarkerSide::Ally, info.ally_engineer.x, info.ally_engineer.y, ally, None, None),
        marker("我方 · 步兵3"@, "步兵3"@, RobotRole::Infantry3, MarkerSide::Ally, info.ally_infantry_3.x, info.ally_infantry_3.y, ally, None, None),
        marker("我方 · 步兵4"@, "步兵4"@, RobotRole::Infantry4, MarkerSide::Ally, info.ally_infantry_4.x, info.ally_infantry_4.y, ally, None, None),
        marker("我方 · 无人机"@, "无人机"@, RobotRole::Aerial, MarkerSide::Ally, info.ally_aerial.x, info.ally_aerial.y, ally, None, None),
        marker("我方 · 哨兵"@, "哨兵"@, RobotRole::Sentry, MarkerSide::Ally, info.ally_sentry.x, info.ally_sentry.y, ally, None, None),
        marker("敌方 · 英雄"@, "英雄"@, RobotRole::Hero, MarkerSide::Enemy, info.enemy_hero.x, info.enemy_hero.y, enemy,
            Some(RobotHealth { hp: info.sdr_blood.hero_blood, hp_max: 200 }), Some(info.sdr_ammo.hero_ammo)),
        marker("敌方 · 工程"@, "工程"@, RobotRole::Engineer, MarkerSide::Enemy, info.enemy_engineer.x, info.enemy_engineer.y, enemy,
            Some(RobotHealth { hp: info.sdr_blood.engineer_blood, hp_max: 200 }), None),
        marker("敌方 · 步兵3"@, "步兵3"@, RobotRole::Infantry3, MarkerSide::Enemy, info.enemy_infantry_3.x, info.enemy_infantry_3.y, enemy,
            Some(RobotHealth { hp: info.sdr_blood.infantry_3_blood, hp_max: 200 }), Some(info.sdr_ammo.infantry_3_ammo)),
        marker("敌方 · 步兵4"@, "步兵4"@, RobotRole::Infantry4, MarkerSide::Enemy, info.enemy_infantry_4.x, info.enemy_infantry_4.y, enemy,
            Some(RobotHealth { hp: info.sdr_blood.infantry_4_blood, hp_max: 200 }), Some(info.sdr_ammo.infantry_4_ammo)),
        marker("敌方 · 无人机"@, "无人机"@, RobotRole::Aerial, MarkerSide::Enemy, info.enemy_aerial.x, info.enemy_aerial.y, enemy,
            None, Some(info.sdr_ammo.aerial_ammo)),
        marker("敌方 · 哨兵"@, "哨兵"@, RobotRole::Sentry, MarkerSide::Enemy, info.enemy_sentry.x, info.enemy_sentry.y, enemy,
            Some(RobotHealth { hp: info.sdr_blood.sentry_blood, hp_max: 400 }), Some(info.sdr_ammo.sentry_ammo)),
    ]
}

/// The twelve markers of the minimap for our side.
pub fn build_robot_markers(info: &SharedData, our_side: TeamSide) -> (r: [RobotMarker; 12])
    ensures
        r@.map_values(|m: RobotMarker| m@) == markers_of(*info, our_side),
{
    let ally = our_side;
    let enemy = our_side.enemy();
    let r = [
        RobotMarker { name: "我方 · 英雄", role_name: "英雄", role: RobotRole::Hero, side: MarkerSide::Ally,
            pos: [info.ally_hero.x, info.ally_hero.y], team: ally, health: None, ammo: None },
        RobotMarker { name: "我方 · 工程", role_name: "工程", role: RobotRole::Engineer, side: MarkerSide::Ally,
            pos: [info.ally_engineer.x, info.ally_engineer.y], team: ally, health: None, ammo: None },
        RobotMarker { name: "我方 · 步兵3", role_name: "步兵3", role: RobotRole::Infantry3, side: MarkerSide::Ally,
            pos: [info.ally_infantry_3.x, info.ally_infantry_3.y], team: ally, health: None, ammo: None },
        RobotMarker { name: "我方 · 步兵4", role_name: "步兵4", role: RobotRole::Infantry4, side: MarkerSide::Ally,
            pos: [info.ally_infantry_4.x, info.ally_infantry_4.y], team: ally, health: None, ammo: None },
        RobotMarker { name: "我方 · 无人机", role_name: "无人机", role: RobotRole::Aerial, side: MarkerSide::Ally,
            pos: [info.ally_aerial.x, info.ally_aerial.y], team: ally, health: None, ammo: None },
        RobotMarker { name: "我方 · 哨兵", role_name: "哨兵", role: RobotRole::Sentry, side: MarkerSide::Ally,
            pos: [info.ally_sentry.x, info.ally_sentry.y], team: ally, health: None, ammo: None },
        RobotMarker { name: "敌方 · 英雄", role_name: "英雄", role: RobotRole::Hero, side: MarkerSide::Enemy,
            pos: [info.enemy_hero.x, info.enemy_hero.y], team: enemy,
            health: Some(RobotHealth { hp: info.sdr_blood.hero_blood, hp_max: 200 }), ammo: Some(info.sdr_ammo.hero_ammo) },
        RobotMarker { name: "敌方 · 工程", role_name: "工程", role: RobotRole::Engineer, side: MarkerSide::Enemy,
            pos: [info.enemy_engineer.x, info.enemy_engineer.y], team: enemy,
            health: Some(RobotHealth { hp: info.sdr_blood.engineer_blood, hp_max: 200 }), ammo: None },
        RobotMarker { name: "敌方 · 步兵3", role_name: "步兵3", role: RobotRole::Infantry3, side: MarkerSide::Enemy,
            pos: [info.enemy_infantry_3.x, info.enemy_infantry_3.y], team: enemy,
            health: Some(RobotHealth { hp: info.sdr_blood.infantry_3_blood, hp_max: 200 }), ammo: Some(info.sdr_ammo.infantry_3_ammo) },
        RobotMarker { name: "敌方 · 步兵4", role_name: "步兵4", role: RobotRole::Infantry4, side: MarkerSide::Enemy,
            pos: [info.enemy_infantry_4.x, info.enemy_infantry_4.y], team: enemy,
            health: Some(RobotHealth { hp: info.sdr_blood.infantry_4_blood, hp_max: 200 }), ammo: Some(info.sdr_ammo.infantry_4_ammo) },
        RobotMarker { name: "敌方 · 无人机", role_name: "无人机", role: RobotRole::Aerial, side: MarkerSide::Enemy,
            pos: [info.enemy_aerial.x, info.enemy_aerial.y], team: enemy,
            health: None, ammo: Some(info.sdr_ammo.aerial_ammo) },
        RobotMarker { name: "敌方 · 哨兵", role_name: "哨兵", role: RobotRole::Sentry, side: MarkerSide::Enemy,
            pos: [info.enemy_sentry.x, info.enemy_sentry.y], team: enemy,
            health: Some(RobotHealth { hp: info.sdr_blood.sentry_blood, hp_max: 400 }), ammo: Some(info.sdr_ammo.sentry_ammo) },
    ];
    assert(r@.map_values(|m: RobotMarker| m@) =~= markers_of(*info, our_side));
    r
}

/// Every marker of our robots has our colour and every enemy marker the
/// other colour, whichever side we play; only enemy markers carry health.
pub proof fn law_marker_colours_follow_the_side(info: SharedData, our_side: TeamSide, i: int)
    requires
        0 <= i < 12,
    ensures
        markers_of(info, our_side)[i].side == MarkerSide::Ally ==> markers_of(info, our_side)[i].team == our_side,
        markers_of(info, our_side)[i].side == MarkerSide::Enemy ==> markers_of(info, our_side)[i].team == spec_enemy(our_side),
        markers_of(info, our_side)[i].side == MarkerSide::Ally <==> i < 6,
        markers_of(info, our_side)[i].health is Some ==> markers_of(info, our_side)[i].side == MarkerSide::Enemy,
{
}

/// Every marker shows its own robot's data: its name is the side's prefix
/// and the role's name; an ally marker sits at that robot's position and
/// carries no health or ammunition; an enemy marker sits at that enemy
/// robot's position and carries the hit points (out of the role's full hit
/// points) and ammunition that the SDR link reports for that very role.
pub proof fn law_markers_carry_each_robots_own_data(info: SharedData, our_side: TeamSide, i: int)
    requires
        0 <= i < 12,
    ensures
        ({
            let mk = markers_of(info, our_side)[i];
            &&& mk.role_name == role_label(mk.role)
            &&& mk.name == (if mk.side == MarkerSide::Ally { "我方 · "@ } else { "敌方 · "@ }) + role_label(mk.role)
            &&& mk.side == MarkerSide::Ally ==> {
                &&& mk.pos == seq![ally_position(info, mk.role).x, ally_position(info, mk.role).y]
                &&& mk.health is None
                &&& mk.ammo is None
            }
            &&& mk.side == MarkerSide::Enemy ==> {
                &&& mk.pos == seq![enemy_position(info, mk.role).x, enemy_position(info, mk.role).y]
                &&& mk.health == (match sdr_blood(info.sdr_blood, mk.role) {
                    Some(hp) => Some(RobotHealth { hp, hp_max: full_hp(mk.role) }),
                    None => None,
                })
                &&& mk.ammo == sdr_ammo(info.sdr_ammo, mk.role)
            }
        }),
{
    reveal_strlit("我方 · ");
    reveal_strlit("敌方 · ");
    reveal_strlit("英雄");
    reveal_strlit("工程");
    reveal_strlit("步兵3");
    reveal_strlit("步兵4");
    reveal_strlit("无人机");
    reveal_strlit("哨兵");
    reveal_strlit("我方 · 英雄");
    reveal_strlit("我方 · 工程");
    reveal_strlit("我方 · 步兵3");
    reveal_strlit("我方 · 步兵4");
    reveal_strlit("我方 · 无人机");
    reveal_strlit("我方 · 哨兵");
    reveal_strlit("敌方 · 英雄");
    reveal_strlit("敌方 · 工程");
    reveal_strlit("敌方 · 步兵3");
    reveal_strlit("敌方 · 步兵4");
    reveal_strlit("敌方 · 无人机");
    reveal_strlit("敌方 · 哨兵");
    let mk = markers_of(info, our_side)[i];
    let prefix = if mk.side == MarkerSide::Ally { "我方 · "@ } else { "敌方 · "@ };
    assert(mk.name =~= prefix + role_label(mk.role));
}

/// Each robot has exactly one marker: no two markers show the same robot of
/// the same side, and the six ally markers and the six enemy markers cover
/// the same six roles in the same order.
pub proof fn law_each_robot_has_one_marker(info: SharedData, our_side: TeamSide, i: int, j: int)
    requires
        0 <= i < 12,
        0 <= j < 12,
        i != j,
    ensures
        ({
            let ms = markers_of(info, our_side);
            &&& ms.len() == 12
            &&& !(ms[i].role == ms[j].role && ms[i].side == ms[j].side)
            &&& i < 6 ==> ms[i].role == ms[i + 6].role
        }),
{
}

/// A health ring is shown for a living robot with a known maximum only; it
/// is green above 60 % of the maximum, yellow above 30 % up to 60 %, and red
/// at 30 % or below.
pub proof fn law_hp_band_thresholds(h: RobotHealth)
    ensures
        hp_band_of(h) is None <==> (h.hp == 0 || h.hp_max == 0),
        h.hp > 0 && h.hp_max > 0 ==> {
            &&& hp_band_of(h) == Some(HpBand::Green) <==> 100 * h.hp > 60 * h.hp_max
            &&& hp_band_of(h) == Some(HpBand::Yellow) <==> 30 * h.hp_max < 100 * h.hp <= 60 * h.hp_max
            &&& hp_band_of(h) == Some(HpBand::Red) <==> 100 * h.hp <= 30 * h.hp_max
        },
{
}

/// The rank of a band, from the worst to the best.
pub open spec fn band_rank(b: Option<HpBand>) -> int {
    match b {
        None => 0,
        Some(HpBand::Red) => 1,
        Some(HpBand::Yellow) => 2,
        Some(HpBand::Green) => 3,
    }
}

/// More health against the same maximum never shows a worse band.
pub proof fn law_hp_band_grows_with_health(hp1: u16, hp2: u16, hp_max: u16)
    requires
        hp1 <= hp2,
    ensures
        band_rank(hp_band_of(RobotHealth { hp: hp1, hp_max })) <= band_rank(hp_band_of(RobotHealth { hp: hp2, hp_max })),
{
}

} // verus!
