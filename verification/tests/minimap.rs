use radar_egui::services::script_runner::TeamSide;
use radar_egui::shared_data::SharedData;
use radar_egui::widgets::minimap::{
    build_robot_markers, clamp_marker_selection, hp_band, HpBand, MarkerSide, MinimapOptions,
    RobotHealth, RobotRole,
};

#[test]
fn marker_selection_clamps_to_twelve_marker_boundary() {
    assert_eq!(clamp_marker_selection(99, 12), 11);
    assert_eq!(clamp_marker_selection(5, 12), 5);
    assert_eq!(clamp_marker_selection(3, 0), 0);
}

#[test]
fn red_team_builds_twelve_markers_with_red_allies_and_blue_enemies() {
    let mut data = SharedData::default();
    data.ally_hero.x = 100;
    data.enemy_hero.x = 900;
    data.sdr_blood.hero_blood = 150;
    data.sdr_ammo.hero_ammo = 42;

    let markers = build_robot_markers(&data, TeamSide::Red);
    assert_eq!(markers.len(), 12);
    assert_eq!(markers[0].side, MarkerSide::Ally);
    assert_eq!(markers[0].team, TeamSide::Red);
    assert_eq!(markers[0].pos, [100, 0]);
    assert!(markers[0].health.is_none());
    assert!(markers[0].ammo.is_none());
    assert_eq!(markers[6].side, MarkerSide::Enemy);
    assert_eq!(markers[6].team, TeamSide::Blue);
    assert_eq!(markers[6].pos, [900, 0]);
    assert_eq!(markers[6].health.unwrap().hp, 150);
    assert_eq!(markers[6].ammo, Some(42));
}

#[test]
fn blue_team_swaps_ally_and_enemy_ring_colors() {
    let markers = build_robot_markers(&SharedData::default(), TeamSide::Blue);
    assert_eq!(markers[0].team, TeamSide::Blue);
    assert_eq!(markers[6].team, TeamSide::Red);
}

#[test]
fn hp_arc_clamps_ratio_and_uses_green_yellow_red_thresholds() {
    assert_eq!(hp_band(RobotHealth { hp: 250, hp_max: 200 }), Some(HpBand::Green));
    assert_eq!(hp_band(RobotHealth { hp: 150, hp_max: 200 }), Some(HpBand::Green));
    assert_eq!(hp_band(RobotHealth { hp: 100, hp_max: 200 }), Some(HpBand::Yellow));
    assert_eq!(hp_band(RobotHealth { hp: 40, hp_max: 200 }), Some(HpBand::Red));
    assert!(hp_band(RobotHealth { hp: 0, hp_max: 200 }).is_none());
    assert!(hp_band(RobotHealth { hp: 20, hp_max: 0 }).is_none());
}

#[test]
fn hp_band_boundaries_are_exclusive() {
    assert_eq!(hp_band(RobotHealth { hp: 120, hp_max: 200 }), Some(HpBand::Yellow));
    assert_eq!(hp_band(RobotHealth { hp: 121, hp_max: 200 }), Some(HpBand::Green));
    assert_eq!(hp_band(RobotHealth { hp: 60, hp_max: 200 }), Some(HpBand::Red));
    assert_eq!(hp_band(RobotHealth { hp: 61, hp_max: 200 }), Some(HpBand::Yellow));
}

#[test]
fn enemy_markers_carry_sdr_health_and_ammo() {
    let mut data = SharedData::default();
    data.sdr_blood.sentry_blood = 333;
    data.sdr_ammo.aerial_ammo = 7;
    data.enemy_sentry.y = -5;
    let markers = build_robot_markers(&data, TeamSide::Red);
    assert_eq!(markers[11].name, "敌方 · 哨兵");
    assert_eq!(markers[11].role, RobotRole::Sentry);
    assert_eq!(markers[11].health, Some(RobotHealth { hp: 333, hp_max: 400 }));
    assert_eq!(markers[11].pos, [0, -5]);
    assert_eq!(markers[10].health, None);
    assert_eq!(markers[10].ammo, Some(7));
    assert_eq!(markers[7].ammo, None);
    assert_eq!(markers[4].role_name, "无人机");
}

#[test]
fn minimap_options_show_everything_by_default() {
    let options = MinimapOptions::default();
    assert!(options.show_grid && options.show_labels && options.show_hp_ring);
    assert_eq!(options.selected, 0);
}
