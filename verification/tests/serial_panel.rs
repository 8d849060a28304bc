use radar_egui::widgets::serial_panel::{bits_preview, last_cmd_hint, phase_label, winner_label};

#[test]
fn phase_labels_name_every_referee_phase() {
    assert_eq!(phase_label(0), "未开始");
    assert_eq!(phase_label(3), "比赛中");
    assert_eq!(phase_label(5), "比赛结束");
    assert_eq!(phase_label(9), "未知阶段");
}

#[test]
fn winner_labels_fall_back_to_the_raw_value() {
    assert_eq!(winner_label(0), "—");
    assert_eq!(winner_label(1), "红方");
    assert_eq!(winner_label(2), "蓝方");
    assert_eq!(winner_label(3), "平局");
    assert_eq!(winner_label(200), "200");
}

#[test]
fn bits_preview_shows_the_first_eight_flags() {
    let mut bits = [0u8; 15];
    bits[0] = 1;
    bits[3] = 9;
    bits[9] = 1;
    assert_eq!(bits_preview(&bits), "10010000…");
}

#[test]
fn last_cmd_hint_names_the_first_set_flag() {
    let mut bits = [0u8; 15];
    assert_eq!(last_cmd_hint(&bits), "—");
    bits[12] = 1;
    assert_eq!(last_cmd_hint(&bits), "—");
    bits[8] = 1;
    assert_eq!(last_cmd_hint(&bits), "0x0305");
    bits[4] = 1;
    assert_eq!(last_cmd_hint(&bits), "0x020C");
}
