use std::io;

use radar_egui::services::script_runner::{
    contextual_error, laser_fifo_path, laser_root_required, missing_files, radar_launch_command,
    radar_root_required, root_contract_message, LaserScript, TeamSide,
};

#[test]
fn team_side_maps_our_and_enemy_colors() {
    assert_eq!(TeamSide::Red.as_str(), "red");
    assert_eq!(TeamSide::Red.enemy(), TeamSide::Blue);
    assert_eq!(TeamSide::Blue.enemy(), TeamSide::Red);
    assert_eq!(TeamSide::Red.laser_enemy_command(false), "enemy blue");
    assert_eq!(TeamSide::Blue.laser_enemy_command(false), "enemy red");
    assert_eq!(TeamSide::Red.laser_enemy_command(true), "enemy auto");
}

#[test]
fn laser_scripts_match_current_repository_contract() {
    assert_eq!(LaserScript::Competition.script_name(), "competition-laser");
    assert_eq!(LaserScript::Preview.script_name(), "preview-laser");
    assert_eq!(LaserScript::Stream.script_name(), "stream");
    assert_eq!(LaserScript::Record.script_name(), "record");
}

#[test]
fn contextual_errors_include_component_operation_path_and_cause() {
    let cause = io::Error::new(io::ErrorKind::PermissionDenied, "denied by kernel");
    let error = io::Error::new(
        cause.kind(),
        contextual_error("Laser", "spawn script", "/tmp/laser script", &cause.to_string()),
    );

    assert_eq!(error.kind(), io::ErrorKind::PermissionDenied);
    assert_eq!(
        error.to_string(),
        "Laser spawn script at /tmp/laser script failed: denied by kernel"
    );
}

#[test]
fn test_labels() {
    assert_eq!(LaserScript::Competition.label(), "Competition");
    assert_eq!(LaserScript::Preview.label(), "Preview");
    assert_eq!(LaserScript::Stream.label(), "Stream");
    assert_eq!(LaserScript::Record.label(), "Record");
}

#[test]
fn test_is_daemon() {
    assert!(LaserScript::Competition.is_daemon());
    assert!(!LaserScript::Preview.is_daemon());
    assert!(LaserScript::Stream.is_daemon());
    assert!(!LaserScript::Record.is_daemon());
}

#[test]
fn complete_laser_root_misses_nothing() {
    let required = laser_root_required();
    assert_eq!(
        required,
        [".script/competition-laser", ".script/preview-laser", ".script/stream", ".script/record"]
    );
    assert!(missing_files(&required, &vec![true; 4]).is_empty());
}

#[test]
fn incomplete_laser_root_reports_every_missing_script() {
    let required = laser_root_required();
    let missing = missing_files(&required, &vec![true, false, false, false]);
    assert_eq!(missing, [".script/preview-laser", ".script/stream", ".script/record"]);
    let message = root_contract_message("/opt/laser", "laser_guidance scripts", &missing);
    assert_eq!(
        message,
        "/opt/laser does not satisfy laser_guidance scripts; missing .script/preview-laser, .script/stream, .script/record"
    );
}

#[test]
fn incomplete_radar_root_reports_the_launch_file() {
    let required = radar_root_required();
    let missing = missing_files(&required, &vec![true, false]);
    let message = root_contract_message("/opt/radar", "Radar workspace", &missing);
    assert!(message.contains("competition.launch.py"));
    assert!(!message.contains("setup.bash"));
}

#[test]
fn radar_launch_command_sources_ros_and_passes_the_side() {
    assert_eq!(
        radar_launch_command("blue", false),
        "source /opt/ros/jazzy/setup.bash && source ros_ws/install/setup.bash && exec ros2 launch radar_bringup competition.launch.py side:=blue enable_raw_recording:=false"
    );
    assert_eq!(
        radar_launch_command("red", true),
        "source /opt/ros/jazzy/setup.bash && source ros_ws/install/setup.bash && exec ros2 launch radar_bringup competition.launch.py side:=red enable_raw_recording:=true"
    );
    assert_eq!(laser_fifo_path(), "/tmp/laser_cmd");
}

#[test]
fn root_check_passes_exactly_when_nothing_is_missing() {
    let required = radar_root_required();
    assert_eq!(
        radar_egui::services::script_runner::check_root_files("/ws", "Radar workspace", &required, &vec![true, true]),
        Ok(())
    );
    assert_eq!(
        radar_egui::services::script_runner::check_root_files("/ws", "Radar workspace", &required, &vec![true, false]),
        Err("/ws does not satisfy Radar workspace; missing ros_ws/src/radar_bringup/launch/competition.launch.py"
            .to_owned())
    );
    let laser = laser_root_required();
    assert_eq!(
        radar_egui::services::script_runner::check_root_files(
            "/lg",
            "laser_guidance scripts",
            &laser,
            &vec![false, true, false, true]
        ),
        Err("/lg does not satisfy laser_guidance scripts; missing .script/competition-laser, .script/stream".to_owned())
    );
}
