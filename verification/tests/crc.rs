use radar_egui::robot_interaction_id::DeviceId;
use radar_egui::serial::serial_crc;
use radar_egui::shared_data::{GameResultData, SerialFrameHeader};

#[test]
fn crc8_check_value_of_the_standard_string() {
    assert_eq!(serial_crc::get_crc8(b"123456789"), 0x0B);
}

#[test]
fn crc16_check_value_of_the_standard_string() {
    assert_eq!(serial_crc::get_crc16(b"123456789"), 0x6F91);
}

#[test]
fn crc_of_nothing_is_the_initial_value() {
    assert_eq!(serial_crc::get_crc8(&[]), 0xFF);
    assert_eq!(serial_crc::get_crc16(&[]), 0xFFFF);
}

#[test]
fn append_crc8_closes_a_frame_header() {
    let mut header = vec![0xA5, 0x0B, 0x00, 0x00, 0x00];
    assert_eq!(serial_crc::append_crc8(&mut header), Some(0x02));
    assert_eq!(header, vec![0xA5, 0x0B, 0x00, 0x00, 0x02]);
    assert!(serial_crc::verify_crc8(&header));
    header[1] = 0x0C;
    assert!(!serial_crc::verify_crc8(&header));
}

#[test]
fn append_crc16_writes_little_endian() {
    let mut block = b"123456789".to_vec();
    block.push(0);
    block.push(0);
    assert_eq!(serial_crc::append_crc16(&mut block), Some(0x6F91));
    assert_eq!(&block[9..], &[0x91, 0x6F]);
    assert!(serial_crc::verify_crc16(&block));
}

#[test]
fn append_crc_refuses_blocks_too_short() {
    let mut empty: Vec<u8> = Vec::new();
    assert_eq!(serial_crc::append_crc8(&mut empty), None);
    assert!(empty.is_empty());
    let mut one = vec![7u8];
    assert_eq!(serial_crc::append_crc16(&mut one), None);
    assert_eq!(one, vec![7u8]);
    assert!(!serial_crc::verify_crc8(&[]));
    assert!(!serial_crc::verify_crc16(&[1]));
}

#[test]
fn device_numbers_match_the_protocol() {
    assert_eq!(u16::from(DeviceId::RedRadar), 9);
    assert_eq!(u16::from(DeviceId::BlueRadar), 109);
    assert_eq!(u16::from(DeviceId::RefereeServer), 0x8080);
    assert_eq!(DeviceId::from(107u16), DeviceId::BlueSentry);
    assert_eq!(DeviceId::from(12u16), DeviceId::Unknown);
}

#[test]
fn frame_header_roundtrips_through_bytes() {
    let header = SerialFrameHeader { sof: 0xA5, data_len: 0x0102, seq: 7, crc8: 0x33 };
    let bytes = header.to_bytes();
    assert_eq!(bytes, vec![0xA5, 0x02, 0x01, 0x07, 0x33]);
    assert_eq!(SerialFrameHeader::from_bytes(&bytes), Some(header));
    assert_eq!(SerialFrameHeader::from_bytes(&bytes[..4]), None);
}

#[test]
fn game_result_roundtrips_through_bytes() {
    let result = GameResultData { winner: 2 };
    assert_eq!(result.to_bytes(), vec![2]);
    assert_eq!(GameResultData::from_bytes(&[2, 9]), Some(result));
    assert_eq!(GameResultData::from_bytes(&[]), None);
}
