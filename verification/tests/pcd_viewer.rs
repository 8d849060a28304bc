use radar_egui::pointcloud::pcd_loader::PcdEncoding;
use radar_egui::pointcloud::pcd_viewer::{
    launch_outcome_event, worker_panic_message, PcdLoadResult, PcdLoadStats, PcdViewerState,
    PcdViewerStatus, ProgressUpdate, WorkerEvent,
};

fn load_result(point_count: usize) -> PcdLoadResult {
    PcdLoadResult {
        stats: PcdLoadStats {
            encoding: PcdEncoding::Ascii,
            valid_points: point_count,
            skipped_points: 2,
            declared_points: point_count as u64 + 2,
        },
        elapsed_nanos: 0,
    }
}

fn progress(generation: u64, path: &str, loaded: u64, total: u64) -> ProgressUpdate {
    ProgressUpdate {
        generation,
        path: path.to_owned(),
        loaded_points: loaded,
        total_points: total,
    }
}

#[test]
fn stale_previous_load_progress_never_overwrites_a_new_load() {
    let mut viewer = PcdViewerState::new();
    let previous = viewer.begin("previous.pcd".to_owned()).unwrap();
    viewer.apply_event(WorkerEvent::Failed {
        generation: previous,
        path: "previous.pcd".to_owned(),
        message: "invalid PCD".to_owned(),
        loaded: None,
    });
    let current = viewer.begin("current.pcd".to_owned()).unwrap();
    assert!(current > previous);

    viewer.apply_progress(progress(previous, "previous.pcd", 90, 100));
    viewer.apply_event(WorkerEvent::Ready {
        generation: previous,
        path: "previous.pcd".to_owned(),
        result: load_result(90),
    });

    assert_eq!(
        viewer.status(),
        &PcdViewerStatus::Loading {
            path: "current.pcd".to_owned(),
            loaded_points: 0,
            total_points: 0,
        },
        "stale progress replaced the new load: {:?}",
        viewer.status()
    );
    assert!(viewer.is_busy());
}

#[test]
fn deferred_final_progress_never_regresses_launching_to_loading() {
    let mut viewer = PcdViewerState::new();
    let generation = viewer.begin("cloud.pcd".to_owned()).unwrap();
    viewer.apply_event(WorkerEvent::Launching {
        generation,
        path: "cloud.pcd".to_owned(),
        result: load_result(100),
    });
    viewer.apply_progress(progress(generation, "cloud.pcd", 100, 100));

    assert_eq!(
        viewer.status(),
        &PcdViewerStatus::Launching { path: "cloud.pcd".to_owned(), result: load_result(100) },
        "deferred progress regressed lifecycle state: {:?}",
        viewer.status()
    );
}

#[test]
fn reports_progress_before_a_blocked_load_finishes_then_transitions_in_order() {
    let mut viewer = PcdViewerState::new();
    let generation = viewer.begin("large-cloud.pcd".to_owned()).unwrap();
    viewer.apply_progress(progress(generation, "large-cloud.pcd", 1_500_000, 3_000_000));
    assert_eq!(
        viewer.status(),
        &PcdViewerStatus::Loading {
            path: "large-cloud.pcd".to_owned(),
            loaded_points: 1_500_000,
            total_points: 3_000_000,
        }
    );
    viewer.apply_event(WorkerEvent::Launching {
        generation,
        path: "large-cloud.pcd".to_owned(),
        result: load_result(3_000_000),
    });
    assert!(matches!(viewer.status(), PcdViewerStatus::Launching { .. }));
    assert!(viewer.is_busy());
    viewer.apply_event(WorkerEvent::Ready {
        generation,
        path: "large-cloud.pcd".to_owned(),
        result: load_result(3_000_000),
    });
    assert!(matches!(viewer.status(), PcdViewerStatus::Ready { .. }));
    assert!(!viewer.is_busy());
}

#[test]
fn rejects_a_second_start_while_the_worker_is_active() {
    let mut viewer = PcdViewerState::new();
    assert!(viewer.begin("first.pcd".to_owned()).is_some());
    assert!(viewer.begin("second.pcd".to_owned()).is_none());
    assert_eq!(
        viewer.status(),
        &PcdViewerStatus::Loading { path: "first.pcd".to_owned(), loaded_points: 0, total_points: 0 }
    );
}

#[test]
fn recovers_after_a_loader_error_and_accepts_another_start() {
    let mut viewer = PcdViewerState::new();
    let generation = viewer.begin("broken.pcd".to_owned()).unwrap();
    viewer.apply_event(WorkerEvent::Failed {
        generation,
        path: "broken.pcd".to_owned(),
        message: "invalid PCD".to_owned(),
        loaded: None,
    });
    assert!(!viewer.is_busy());
    assert!(matches!(viewer.status(), PcdViewerStatus::Failed { message, .. } if message == "invalid PCD"));
    assert!(viewer.begin("valid.pcd".to_owned()).is_some());
}

#[test]
fn contains_launcher_failure_as_failed_status() {
    let mut viewer = PcdViewerState::new();
    let generation = viewer.begin("cloud.pcd".to_owned()).unwrap();
    let event = launch_outcome_event(
        generation,
        "cloud.pcd".to_owned(),
        load_result(5),
        Err("viewer unavailable".to_owned()),
    );
    viewer.apply_event(event);
    assert_eq!(
        viewer.status(),
        &PcdViewerStatus::Failed {
            path: "cloud.pcd".to_owned(),
            message: "viewer unavailable".to_owned(),
            loaded: Some(load_result(5)),
        },
        "expected Failed with parsed metadata, got {:?}",
        viewer.status()
    );
    assert!(!viewer.is_busy());
}

#[test]
fn launcher_owns_loaded_pcd_and_ready_reports_complete_metadata() {
    let mut viewer = PcdViewerState::new();
    let generation = viewer.begin("owned.pcd".to_owned()).unwrap();
    viewer.apply_event(launch_outcome_event(generation, "owned.pcd".to_owned(), load_result(7), Ok(())));
    assert_eq!(
        viewer.status(),
        &PcdViewerStatus::Ready { path: "owned.pcd".to_owned(), result: load_result(7) }
    );
}

#[test]
fn converts_a_worker_panic_to_failed_status() {
    let mut viewer = PcdViewerState::new();
    let generation = viewer.begin("cloud.pcd".to_owned()).unwrap();
    viewer.apply_event(WorkerEvent::Failed {
        generation,
        path: "cloud.pcd".to_owned(),
        message: worker_panic_message("loader exploded"),
        loaded: None,
    });
    assert!(matches!(
        viewer.status(),
        PcdViewerStatus::Failed { message, .. } if message == "PCD viewer worker panicked: loader exploded"
    ));
}

#[test]
fn a_worker_that_cannot_start_fails_the_load() {
    let mut viewer = PcdViewerState::new();
    viewer.begin("cloud.pcd".to_owned()).unwrap();
    viewer.spawn_failed("cloud.pcd".to_owned(), "out of threads");
    assert!(!viewer.is_busy());
    assert_eq!(
        viewer.status(),
        &PcdViewerStatus::Failed {
            path: "cloud.pcd".to_owned(),
            message: "failed to start PCD viewer worker: out of threads".to_owned(),
            loaded: None,
        }
    );
}
