use radar_egui::shared_data::{
    SdrEnemyRobotBloodData, SdrEnemyRobotGainData, SdrEnemyRobotOverallStateData,
    SdrEnemyRobotPositionData, SdrEnemyRobotRemainingAmmoData, SdrJammingKeyData, SharedData,
    IDX_GAME_STATE, IDX_MINIMAP_RECEIVE_RADAR, IDX_RADAR_MARK_PROCESS, IDX_ROBOT_INTERACTION,
};
use radar_egui::zmq::zmq::{
    apply_lidar_message, apply_sdr_message, pub_message, LidarMessage, MinimapThrottle,
    PubMessage, SdrMessage,
};

fn sdr_message() -> SdrMessage {
    SdrMessage {
        cmd_id: 0x2002,
        position: SdrEnemyRobotPositionData {
            hero_x: 100,
            hero_y: 200,
            engineer_x: 300,
            engineer_y: 400,
            infantry_3_x: 500,
            infantry_3_y: 600,
            infantry_4_x: 700,
            infantry_4_y: 800,
            aerial_x: 900,
            aerial_y: 1000,
            sentry_x: -1100,
            sentry_y: 1200,
        },
        blood: SdrEnemyRobotBloodData {
            hero_blood: 1000,
            engineer_blood: 2000,
            infantry_3_blood: 3000,
            infantry_4_blood: 4000,
            reserved: 0,
            sentry_blood: 5000,
        },
        ammo: SdrEnemyRobotRemainingAmmoData {
            hero_ammo: 10,
            infantry_3_ammo: 20,
            infantry_4_ammo: 30,
            aerial_ammo: 40,
            sentry_ammo: 50,
        },
        state: SdrEnemyRobotOverallStateData {
            remaining_gold: 100,
            total_gold: 500,
            ..Default::default()
        },
        gain: SdrEnemyRobotGainData { hero_hp_recovery: 1, ..Default::default() },
        key: SdrJammingKeyData { key: [1, 2, 3, 4, 5, 6] },
    }
}

#[test]
fn sdr_message_populates_enemy_fields_and_broadcast_payload() {
    let mut shared = SharedData::default();
    let mut throttle = MinimapThrottle::default();
    let notes = apply_sdr_message(&mut shared, &sdr_message(), &mut throttle, 1_000);

    assert_eq!(notes, vec![IDX_ROBOT_INTERACTION, IDX_MINIMAP_RECEIVE_RADAR]);
    assert_eq!(shared.sdr_blood.hero_blood, 1000, "hero_blood");
    assert_eq!(shared.sdr_blood.sentry_blood, 5000, "sentry_blood");
    assert_eq!(shared.sdr_ammo.hero_ammo, 10, "hero_ammo");
    assert_eq!(shared.sdr_ammo.sentry_ammo, 50, "sentry_ammo");
    assert_eq!(shared.sdr_state.remaining_gold, 100, "remaining_gold");
    assert_eq!(shared.sdr_gain.hero_hp_recovery, 1, "hero_hp_recovery");
    assert_eq!(shared.sdr_jamming_key.key, [1, 2, 3, 4, 5, 6], "key");
    assert_eq!(shared.radar_autonomous_decision.password, [1, 2, 3, 4, 5, 6]);
    assert_eq!(shared.enemy_hero.x, 100, "enemy_hero.x");
    assert_eq!(shared.enemy_hero.y, 200, "enemy_hero.y");
    assert_eq!(shared.enemy_sentry.x, -1100);
    assert_eq!(shared.minimap_receive.opponent_sentry_x, 0);
    assert_eq!(shared.minimap_receive.opponent_sentry_y, 1200);
    assert_eq!(shared.robot_interaction.subcontext_cmd_id, 0x0200, "subcontext_cmd_id");
    let sub = &shared.robot_interaction.subcontext_data;
    assert!(!sub.is_empty(), "subcontext_data not empty");
    assert_eq!(sub[0], 0x03, "msg_type at [0]");
    assert_eq!(u16::from_le_bytes([sub[1], sub[2]]), 1000);
}

#[test]
fn minimap_notifications_are_throttled_to_five_per_second() {
    let mut shared = SharedData::default();
    let mut throttle = MinimapThrottle::default();
    let message = sdr_message();
    assert_eq!(apply_sdr_message(&mut shared, &message, &mut throttle, 1_000).len(), 2);
    assert_eq!(apply_sdr_message(&mut shared, &message, &mut throttle, 1_150), vec![IDX_ROBOT_INTERACTION]);
    assert_eq!(apply_sdr_message(&mut shared, &message, &mut throttle, 1_200).len(), 2);
    assert!(!throttle.try_acquire(900));
}

#[test]
fn lidar_message_populates_positions() {
    let mut shared = SharedData::default();
    let message = LidarMessage {
        cmd_id: 0x2001,
        opponent_hero_x: 10,
        opponent_hero_y: 20,
        opponent_sentry_x: 110,
        opponent_sentry_y: 120,
        ally_hero_x: 1000,
        ally_hero_y: 2000,
        ally_sentry_x: 11000,
        ally_sentry_y: 12000,
        ..Default::default()
    };
    let notes = apply_lidar_message(&mut shared, &message);

    assert_eq!(notes, vec![IDX_MINIMAP_RECEIVE_RADAR]);
    assert_eq!(shared.enemy_hero.x, 10, "enemy_hero.x");
    assert_eq!(shared.enemy_hero.y, 20, "enemy_hero.y");
    assert_eq!(shared.enemy_sentry.x, 110, "enemy_sentry.x");
    assert_eq!(shared.enemy_sentry.y, 120, "enemy_sentry.y");
    assert_eq!(shared.ally_hero.x, 1000, "ally_hero.x");
    assert_eq!(shared.ally_hero.y, 2000, "ally_hero.y");
    assert_eq!(shared.ally_sentry.x, 11000, "ally_sentry.x");
    assert_eq!(shared.ally_sentry.y, 12000, "ally_sentry.y");
    assert_eq!(shared.minimap_receive.ally_sentry_y, 12000);
}

#[test]
fn publisher_answers_game_state_and_mark_notifications() {
    let mut shared = SharedData::default();
    shared.game_state.stage_remain_time = 420;
    shared.radar_mark_process.opponent_hero_vulnerable = 1;
    match pub_message(IDX_GAME_STATE, &shared) {
        Some(PubMessage::GameState(state)) => assert_eq!(state.stage_remain_time, 420),
        other => panic!("unexpected {other:?}"),
    }
    match pub_message(IDX_RADAR_MARK_PROCESS, &shared) {
        Some(PubMessage::RadarMarkProcess(mark)) => assert_eq!(mark.opponent_hero_vulnerable, 1),
        other => panic!("unexpected {other:?}"),
    }
    assert!(pub_message(IDX_MINIMAP_RECEIVE_RADAR, &shared).is_none());
}
