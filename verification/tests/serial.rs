use radar_egui::robot_interaction_id::DeviceId;
use radar_egui::serial::serial::frames_for_notification;
use radar_egui::serial::serial_crc;
use radar_egui::serial::serial_package::{serial_package, FrameSequencer};
use radar_egui::serial::serial_parser::SerialParser;
use radar_egui::shared_data::{GameResultData, GameStateData, GAME_RESULT_CMD_ID, GAME_STATE_CMD_ID, IDX_GAME_STATE};
use radar_egui::shared_data::{
    MinimapReceiveRadarData, RadarAutonomousDecisionSyncData, RobotInteractionData, SharedData,
    CMD_ID_LENGTH, CRC16_LENGTH, FRAME_HEADER_LENGTH, FRAME_HEADER_SOF, IDX_MINIMAP_RECEIVE_RADAR,
    IDX_RADAR_AUTONOMOUS_DECISION_SYNC, IDX_ROBOT_INTERACTION, IDX_ROBOT_INTERACTION_DECISION,
    MINIMAP_RECEIVE_RADAR_CMD_ID, RADAR_AUTONOMOUS_DECISION_DATA_CMD_ID,
    RADAR_AUTONOMOUS_DECISION_SYNC_CMD_ID, RADAR_INTERACTION_SUBCONTEXT_CMD_ID,
    ROBOT_INTERACTION_CMD_ID,
};

fn build_020e_frame(chance: u8, active: u8) -> Vec<u8> {
    let data = RadarAutonomousDecisionSyncData {
        double_weakness_chance: chance,
        double_weakness_active: active,
        ..Default::default()
    }
    .to_bytes()
    .unwrap();
    let total = FRAME_HEADER_LENGTH + CMD_ID_LENGTH + data.len() + CRC16_LENGTH;
    let mut frame = vec![0u8; total];
    frame[0] = FRAME_HEADER_SOF;
    frame[1] = data.len() as u8;
    frame[3] = 0;
    frame[5] = (RADAR_AUTONOMOUS_DECISION_SYNC_CMD_ID & 0xff) as u8;
    frame[6] = (RADAR_AUTONOMOUS_DECISION_SYNC_CMD_ID >> 8) as u8;
    frame[FRAME_HEADER_LENGTH + CMD_ID_LENGTH..FRAME_HEADER_LENGTH + CMD_ID_LENGTH + data.len()]
        .copy_from_slice(&data);
    let mut header = frame[..FRAME_HEADER_LENGTH].to_vec();
    serial_crc::append_crc8(&mut header).unwrap();
    frame[..FRAME_HEADER_LENGTH].copy_from_slice(&header);
    serial_crc::append_crc16(&mut frame).unwrap();
    frame
}

fn parse_020e(parser: &mut SerialParser, shared: &mut SharedData, chance: u8, active: u8) -> Vec<usize> {
    let mut buffer = build_020e_frame(chance, active);
    let outcome = parser.parser(&mut buffer, shared);
    assert!(buffer.is_empty());
    outcome.notifications
}

#[test]
fn parser_020e_decision_eval_varies_with_chance_and_active() {
    let mut shared = SharedData::default();
    shared.game_state.game_progress = 4;
    let mut parser = SerialParser::new();
    let decision_idx = IDX_ROBOT_INTERACTION_DECISION;

    let notifs = parse_020e(&mut parser, &mut shared, 1, 0);
    assert!(notifs.contains(&decision_idx), "active=0 chance>0 应触发首次双倍易伤");
    assert_eq!(shared.radar_autonomous_decision.radar_cmd, 1);

    parse_020e(&mut parser, &mut shared, 1, 0);
    assert_eq!(shared.radar_autonomous_decision.radar_cmd, 2);

    let notifs = parse_020e(&mut parser, &mut shared, 1, 1);
    assert!(notifs.contains(&decision_idx));
    assert_eq!(shared.radar_autonomous_decision.radar_cmd, 2);

    let notifs = parse_020e(&mut parser, &mut shared, 0, 1);
    assert!(notifs.contains(&decision_idx), "chance=0 仍发 0x0121（key 传输）");
    assert_eq!(shared.radar_autonomous_decision.radar_cmd, 2);

    shared.game_state.game_progress = 5;
    let notifs = parse_020e(&mut parser, &mut shared, 2, 1);
    assert!(!notifs.contains(&decision_idx), "progress=5 不发 0x0121");
    assert_eq!(
        shared.radar_autonomous_decision_sync.double_weakness_chance, 0,
        "progress=5 清零 chance"
    );
    assert_eq!(
        shared.radar_autonomous_decision.radar_cmd, 0,
        "progress=5 重置 radar_cmd（下一局开局为 0）"
    );

    shared.game_state.game_progress = 4;
    let notifs = parse_020e(&mut parser, &mut shared, 1, 0);
    assert!(notifs.contains(&decision_idx));
    assert_eq!(shared.radar_autonomous_decision.radar_cmd, 1);

    shared.game_state.game_progress = 1;
    let notifs = parse_020e(&mut parser, &mut shared, 1, 1);
    assert!(!notifs.contains(&decision_idx), "非比赛阶段不发 0x0121");
    assert_eq!(shared.radar_autonomous_decision.radar_cmd, 1, "非比赛阶段值不变");

    let notifs = parse_020e(&mut parser, &mut shared, 1, 1);
    assert!(notifs.contains(&IDX_RADAR_AUTONOMOUS_DECISION_SYNC));
}

fn build_frame(radar_side: &str, target: DeviceId, sdr_data: &[u8]) -> Vec<u8> {
    let radar_id = if radar_side == "blue" { DeviceId::BlueRadar } else { DeviceId::RedRadar };
    let mut sub = vec![0x03];
    sub.extend_from_slice(sdr_data);
    sub.resize(112, 0);
    let interaction = RobotInteractionData {
        subcontext_cmd_id: RADAR_INTERACTION_SUBCONTEXT_CMD_ID,
        sender_id: radar_id,
        receiver_id: target,
        subcontext_data: sub,
    };
    let data_bytes = interaction.to_bytes();
    let frame = serial_package(ROBOT_INTERACTION_CMD_ID, data_bytes, 0);
    frame.to_bytes()
}

fn print_frame(label: &str, frame: &[u8]) {
    let data_len = u16::from_le_bytes([frame[1], frame[2]]);
    let cmd_id = u16::from_le_bytes([frame[5], frame[6]]);
    let sub_cmd = u16::from_le_bytes([frame[7], frame[8]]);
    let sender = u16::from_le_bytes([frame[9], frame[10]]);
    let receiver = u16::from_le_bytes([frame[11], frame[12]]);
    let crc16 = u16::from_le_bytes([frame[frame.len() - 2], frame[frame.len() - 1]]);
    println!("{}", label);
    println!("  total bytes:  {}", frame.len());
    println!("  data_len:     {}  (expect 118)", data_len);
    println!("  cmd_id:       0x{:04X}  (expect 0301)", cmd_id);
    println!("  sub_cmd_id:   0x{:04X}  (expect 0200)", sub_cmd);
    println!("  sender_id:    {}  (RedRadar=9 / BlueRadar=109)", sender);
    println!("  receiver_id:  {}", receiver);
    println!("  crc16:        0x{:04X}", crc16);
    println!();
}

#[test]
fn test_detailed_frame_dump() {
    let sdr_data = vec![0xAA; 71];

    println!("\n========================================");
    println!("  5-FRAME ROBOT INTERACTION DUMP");
    println!("  subcontext: 1(msg_type) + 71(SDR) + 40(pad) = 112");
    println!("  subcmd_id:  0x0200");
    println!("========================================\n");

    let red_targets: &[(DeviceId, &str, u16)] = &[
        (DeviceId::RedHero, "RedHero", 1),
        (DeviceId::RedInfantry3, "RedInfantry3", 3),
        (DeviceId::RedInfantry4, "RedInfantry4", 4),
        (DeviceId::RedSentry, "RedSentry", 7),
        (DeviceId::RedAerial, "RedAerial", 6),
    ];

    for (i, (target, name, expected_id)) in red_targets.iter().enumerate() {
        let frame = build_frame("red", *target, &sdr_data);
        let receiver = u16::from_le_bytes([frame[11], frame[12]]);
        assert_eq!(receiver, *expected_id, "receiver_id mismatch for {}", name);
        print_frame(&format!("--- Frame #{} → {} (id={}) ---", i, name, expected_id), &frame);
    }
}

#[test]
fn transmitter_sends_minimap_on_notification() {
    let mut shared = SharedData::default();
    shared.minimap_receive = MinimapReceiveRadarData {
        opponent_hero_x: 10,
        opponent_hero_y: 20,
        ..Default::default()
    };
    let mut sequencer = FrameSequencer::default();
    let frames = frames_for_notification(IDX_MINIMAP_RECEIVE_RADAR, &shared, &mut sequencer);
    assert_eq!(frames.len(), 1);
    let frame = &frames[0];
    assert_eq!(frame.len(), 5 + 2 + 48 + 2);
    assert_eq!(frame[0], 0xA5, "SOF");
    let cmd_id = u16::from_le_bytes([frame[5], frame[6]]);
    assert_eq!(cmd_id, MINIMAP_RECEIVE_RADAR_CMD_ID, "cmd_id 0x0305");
    assert_eq!(u16::from_le_bytes([frame[7], frame[8]]), 10, "opponent_hero_x");
    assert_eq!(u16::from_le_bytes([frame[9], frame[10]]), 20, "opponent_hero_y");
    assert!(serial_crc::verify_crc8(&frame[..FRAME_HEADER_LENGTH]));
    assert!(serial_crc::verify_crc16(frame));
}

#[test]
fn broadcast_sends_three_interaction_frames() {
    let shared = SharedData::default();
    let mut sequencer = FrameSequencer::default();
    let frames = frames_for_notification(IDX_ROBOT_INTERACTION, &shared, &mut sequencer);

    assert_eq!(frames.len(), 3, "three broadcast frames only");
    let receivers = [3u16, 4, 6];
    for (i, frame) in frames.iter().enumerate() {
        assert_eq!(frame.len(), 127);
        assert_eq!(frame[0], 0xA5, "frame {} SOF", i);
        assert_eq!(frame[3] as usize, i, "frame {} seq", i);
        let cmd_id = u16::from_le_bytes([frame[5], frame[6]]);
        assert_eq!(cmd_id, ROBOT_INTERACTION_CMD_ID, "frame {} cmd_id 0x0301", i);
        let subcmd = u16::from_le_bytes([frame[7], frame[8]]);
        assert_eq!(subcmd, 0x0200, "frame {} subcmd 0x0200", i);
        assert_eq!(u16::from_le_bytes([frame[11], frame[12]]), receivers[i]);
    }
    assert_eq!(sequencer.next, 3);
}

#[test]
fn decision_notification_sends_single_0121_frame() {
    let mut shared = SharedData::default();
    shared.radar_autonomous_decision.radar_cmd = 3;
    shared.radar_autonomous_decision.password_cmd = 2;
    let mut sequencer = FrameSequencer::default();
    let frames = frames_for_notification(IDX_ROBOT_INTERACTION_DECISION, &shared, &mut sequencer);

    let decision_len = 5 + 2 + 14 + 2;
    assert_eq!(frames.len(), 1, "single decision frame");
    let decision = &frames[0];
    assert_eq!(decision.len(), decision_len);
    assert_eq!(decision[0], 0xA5, "decision SOF");
    let cmd_id = u16::from_le_bytes([decision[5], decision[6]]);
    assert_eq!(cmd_id, ROBOT_INTERACTION_CMD_ID, "decision cmd_id 0x0301");
    let subcmd = u16::from_le_bytes([decision[7], decision[8]]);
    assert_eq!(subcmd, RADAR_AUTONOMOUS_DECISION_DATA_CMD_ID, "decision subcmd 0x0121");
    let sender = u16::from_le_bytes([decision[9], decision[10]]);
    assert_eq!(sender, 9, "sender = RedRadar");
    let receiver = u16::from_le_bytes([decision[11], decision[12]]);
    assert_eq!(receiver, 0x8080, "receiver = RefereeServer");
    assert_eq!(decision[13], 3, "radar_cmd");
    assert_eq!(decision[14], 2, "password_cmd");
}

#[test]
fn blue_side_broadcasts_to_blue_robots_from_the_blue_radar() {
    let mut shared = SharedData::default();
    shared.radar_side = "blue".to_owned();
    let mut sequencer = FrameSequencer { next: 255 };
    let frames = frames_for_notification(IDX_ROBOT_INTERACTION, &shared, &mut sequencer);
    assert_eq!(frames.len(), 3);
    assert_eq!(frames[0][3], 255);
    assert_eq!(frames[1][3], 0);
    for (frame, receiver) in frames.iter().zip([103u16, 104, 106]) {
        assert_eq!(u16::from_le_bytes([frame[9], frame[10]]), 109);
        assert_eq!(u16::from_le_bytes([frame[11], frame[12]]), receiver);
    }
}

#[test]
fn parser_keeps_a_partial_frame_and_skips_noise() {
    let mut shared = SharedData::default();
    shared.game_state.game_progress = 4;
    let mut parser = SerialParser::new();
    let frame = build_020e_frame(1, 0);
    let mut buffer = vec![0x00, 0x13];
    buffer.extend_from_slice(&frame[..6]);
    let outcome = parser.parser(&mut buffer, &mut shared);
    assert!(!outcome.parsed_any);
    assert_eq!(buffer, frame[..6].to_vec());
    buffer.extend_from_slice(&frame[6..]);
    let outcome = parser.parser(&mut buffer, &mut shared);
    assert!(outcome.parsed_any);
    assert!(buffer.is_empty());
    assert_eq!(shared.radar_autonomous_decision.radar_cmd, 1);
}

#[test]
fn parser_drops_a_frame_with_a_bad_crc16() {
    let mut shared = SharedData::default();
    shared.game_state.game_progress = 4;
    let mut parser = SerialParser::new();
    let mut buffer = build_020e_frame(1, 0);
    let last = buffer.len() - 1;
    buffer[last] ^= 0xFF;
    let outcome = parser.parser(&mut buffer, &mut shared);
    assert!(!outcome.parsed_any);
    assert!(outcome.notifications.is_empty());
    assert_eq!(shared.radar_autonomous_decision.radar_cmd, 0);
}

#[test]
fn parser_applies_every_frame_between_noise_and_a_partial_tail() {
    let mut sequencer = FrameSequencer::default();
    let state = GameStateData { game_type: 1, game_progress: 4, stage_remain_time: 300, sync_timestamp: 7 };
    let first = sequencer.package(GAME_STATE_CMD_ID, state.to_bytes().unwrap()).to_bytes();
    let second = sequencer.package(GAME_RESULT_CMD_ID, GameResultData { winner: 2 }.to_bytes()).to_bytes();
    let tail_frame = sequencer.package(GAME_RESULT_CMD_ID, vec![1]).to_bytes();
    let tail = tail_frame[..7].to_vec();

    let mut buffer = vec![0x00, 0x13, 0x42];
    buffer.extend_from_slice(&first);
    buffer.extend_from_slice(&second);
    buffer.extend_from_slice(&tail);

    let mut shared = SharedData::default();
    let mut parser = SerialParser::new();
    let outcome = parser.parser(&mut buffer, &mut shared);
    assert!(outcome.parsed_any);
    assert_eq!(outcome.notifications, vec![IDX_GAME_STATE]);
    assert_eq!(shared.game_state, state);
    assert_eq!(shared.game_result.winner, 2);
    assert_eq!(buffer, tail);
}
