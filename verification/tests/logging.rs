use radar_egui::logging::{format_timestamp, log_file_for_target, log_line};

#[test]
fn routes_by_target() {
    assert_eq!(log_file_for_target("radar_egui::zmq::zmq"), "logs/zmq.log");
    assert_eq!(log_file_for_target("radar_egui::serial::parser"), "logs/serial.log");
    assert_eq!(log_file_for_target("radar_egui::app::radar_workspace"), "logs/app.log");
    assert_eq!(log_file_for_target(""), "logs/app.log");
}

#[test]
fn log_lines_pad_the_level_and_end_with_a_newline() {
    assert_eq!(
        log_line("2026-07-31 12:00:00.005", "INFO", "radar_egui::zmq::zmq", "zmq-line"),
        "[2026-07-31 12:00:00.005 INFO  radar_egui::zmq::zmq] zmq-line\n"
    );
    assert_eq!(log_line("t", "ERROR", "x", "m"), "[t ERROR x] m\n");
}

#[test]
fn timestamps_are_zero_padded() {
    assert_eq!(format_timestamp(2026, 7, 3, 4, 5, 6, 7), "2026-07-03 04:05:06.007");
    assert_eq!(format_timestamp(1970, 1, 1, 0, 0, 0, 0), "1970-01-01 00:00:00.000");
}
