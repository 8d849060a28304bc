use radar_egui::services::process_control::{
    daemon_config_options, has_pending_start_all, laser_start_options, resolve_radar_side,
    resolve_sdr_side, schedule_start_all_options, script_start_options, start_all_options,
    store_process_command_result, TeamSideInput,
};
use radar_egui::services::process_runtime::{
    ProcessPhase, ProcessSendError, ProcessSnapshot, StartAllOptions, StartLaserOptions,
};
use radar_egui::services::script_runner::{LaserScript, TeamSide};
use radar_egui::workspace::{clock_label, serial_open_failed};

#[test]
fn serial_open_failure_keeps_connection_closed() {
    let mut serial_open = true;
    let mut serial_error = None;

    serial_open_failed(&mut serial_open, &mut serial_error, "open: test failure".to_owned());

    assert!(!serial_open);
    assert_eq!(serial_error.as_deref(), Some("open: test failure"));
}

#[test]
fn start_all_options_preserve_laser_flags() {
    let options = start_all_options(TeamSide::Blue, true, false, true);
    assert_eq!(options.side, TeamSide::Blue);
    assert!(options.stream);
    assert!(!options.record);
    assert!(options.laser_auto);
}

#[test]
fn successful_process_command_clears_previous_send_error() {
    let mut error = Some("previous failure".to_owned());

    store_process_command_result(&mut error, Ok(()));

    assert_eq!(error, None);
}

#[test]
fn failed_process_command_surfaces_send_error() {
    let mut error = None;

    store_process_command_result(&mut error, Err(ProcessSendError));

    assert_eq!(error.as_deref(), Some("process runtime is not available"));
}

#[test]
fn legacy_side_texts_name_our_side_for_radar_and_the_enemy_for_sdr() {
    assert_eq!(resolve_radar_side(TeamSideInput::from("blue")), TeamSide::Blue);
    assert_eq!(resolve_radar_side(TeamSideInput::from("red")), TeamSide::Red);
    assert_eq!(resolve_radar_side(TeamSideInput::from("purple")), TeamSide::Red);
    assert_eq!(resolve_sdr_side(TeamSideInput::from("red")), TeamSide::Blue);
    assert_eq!(resolve_sdr_side(TeamSideInput::from("blue")), TeamSide::Red);
    assert_eq!(resolve_sdr_side(TeamSideInput::from(TeamSide::Blue)), TeamSide::Blue);
}

#[test]
fn daemon_command_texts_become_laser_options() {
    let options = daemon_config_options(LaserScript::Stream, "enemy red", "stream on", "record off");
    assert_eq!(
        options,
        StartLaserOptions {
            script: LaserScript::Stream,
            side: TeamSide::Blue,
            stream: true,
            record: false,
            laser_auto: false,
            configure: true,
        }
    );
    let auto = daemon_config_options(LaserScript::Preview, "enemy auto", "stream off", "record on");
    assert_eq!(auto.side, TeamSide::Red);
    assert!(auto.laser_auto && auto.record && !auto.stream && !auto.configure);
}

#[test]
fn plain_script_start_configures_nothing() {
    let options = script_start_options(LaserScript::Record);
    assert_eq!(options.side, TeamSide::Red);
    assert!(!options.stream && !options.record && !options.laser_auto && !options.configure);
    assert!(laser_start_options(LaserScript::Competition, TeamSide::Red, true, true, false).configure);
    assert!(!laser_start_options(LaserScript::Record, TeamSide::Red, true, true, false).configure);
}

#[test]
fn scheduled_start_all_reads_the_sdr_enemy_color() {
    assert_eq!(
        schedule_start_all_options("red", "enemy auto", "stream on", "record on"),
        StartAllOptions {
            side: TeamSide::Blue,
            stream: true,
            record: true,
            laser_auto: true,
            radar_record: false,
        }
    );
    assert_eq!(schedule_start_all_options("blue", "enemy red", "", "").side, TeamSide::Red);
}

#[test]
fn pending_start_all_covers_every_start_phase() {
    let mut snapshot = ProcessSnapshot::default();
    assert!(!has_pending_start_all(&snapshot));
    for phase in [
        ProcessPhase::StartingRadar,
        ProcessPhase::WaitingForRadar,
        ProcessPhase::StartingSdr,
        ProcessPhase::WaitingForSdr,
        ProcessPhase::StartingLaser,
        ProcessPhase::ConfiguringLaser,
    ] {
        snapshot.phase = phase;
        assert!(has_pending_start_all(&snapshot));
    }
    snapshot.phase = ProcessPhase::Running;
    assert!(!has_pending_start_all(&snapshot));
}

#[test]
fn clock_label_shows_hours_minutes_and_seconds_of_the_day() {
    assert_eq!(clock_label(0), "00:00:00");
    assert_eq!(clock_label(86_400 + 3_600 * 13 + 60 * 5 + 9), "13:05:09");
}
