use std::collections::VecDeque;

use radar_egui::shared_data::SharedData;
use radar_egui::widgets::serial_panel::{SerialFrameLogLine, SerialLogKind};
use radar_egui::workspace::{
    diff_serial_state, observe_serial_state, push_bounded_serial_log, serial_workers_must_close, SerialLogEvent,
    SerialObservedState, SERIAL_LOG_LIMIT,
};

#[test]
fn serial_diff_logs_only_changed_observable_groups() {
    let before = SerialObservedState::default();
    let mut after = before.clone();
    after.game.2 = 419;
    after.radar[0] = 1;
    assert_eq!(
        diff_serial_state(&before, &after),
        vec![
            SerialLogEvent::rx("0x0001 GameState · remain=419s"),
            SerialLogEvent::rx("0x020C RadarMarkProcess · Hero=vulnerable"),
        ]
    );
}

#[test]
fn identical_serial_snapshots_do_not_create_fake_frames() {
    let state = SerialObservedState::default();
    assert!(diff_serial_state(&state, &state).is_empty());
}

#[test]
fn first_serial_observation_sets_baseline_without_log_entries() {
    let mut previous = None;
    let mut data = SharedData::default();
    data.game_state.stage_remain_time = 317;
    data.radar_mark_process.opponent_sentry_vulnerable = 1;
    let expected = SerialObservedState::from_shared(&data);
    let events = observe_serial_state(&mut previous, &data);

    assert!(events.is_empty());
    assert_eq!(previous, Some(expected));
}

#[test]
fn serial_log_keeps_only_the_latest_eighty_entries() {
    let mut log = VecDeque::new();
    for index in 0..81 {
        push_bounded_serial_log(
            &mut log,
            SerialFrameLogLine { text: index.to_string(), kind: SerialLogKind::Info },
        );
    }

    assert_eq!(log.len(), 80);
    assert_eq!(log.front().unwrap().text, "1");
    assert_eq!(log.back().unwrap().text, "80");
    assert_eq!(SERIAL_LOG_LIMIT, 80);
}

#[test]
fn site_event_changes_log_every_site_field() {
    let before = SerialObservedState::default();
    let mut after = before;
    after.site = (1, 2, 3, 4, 5, 600, 7, 8, 9, 10, 11);
    assert_eq!(
        diff_serial_state(&before, &after),
        vec![SerialLogEvent::rx(
            "0x0101 SiteEvent · supply=1 energy=2/3 highland=4/5 dart=600:7 center=8 fortress=9 outpost=10 base=11"
        )]
    );
}

#[test]
fn mark_changes_list_only_changed_robots_in_order() {
    let mut before = SerialObservedState::default();
    before.radar = [1, 0, 1, 0, 0];
    let mut after = before;
    after.radar = [0, 0, 1, 1, 1];
    assert_eq!(
        diff_serial_state(&before, &after),
        vec![SerialLogEvent::rx(
            "0x020C RadarMarkProcess · Hero=idle, Infantry 4=vulnerable, Sentry=vulnerable"
        )]
    );
}

#[test]
fn later_observations_log_what_changed_since_the_previous_one() {
    let mut previous = None;
    let mut data = SharedData::default();
    assert!(observe_serial_state(&mut previous, &data).is_empty());
    data.game_state.stage_remain_time = 300;
    let events = observe_serial_state(&mut previous, &data);
    assert_eq!(events, vec![SerialLogEvent::rx("0x0001 GameState · remain=300s")]);
    assert!(observe_serial_state(&mut previous, &data).is_empty());
}

#[test]
fn serial_workers_close_after_a_failure_or_an_exit() {
    assert!(!serial_workers_must_close(true, Some(true), Some(false), Some(false)));
    assert!(serial_workers_must_close(true, Some(false), Some(false), Some(false)));
    assert!(serial_workers_must_close(true, Some(true), Some(true), Some(false)));
    assert!(serial_workers_must_close(true, Some(true), Some(false), Some(true)));
    assert!(!serial_workers_must_close(false, Some(false), Some(true), Some(true)));
    assert!(!serial_workers_must_close(true, None, None, None));
}
