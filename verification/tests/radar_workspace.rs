use std::time::Duration;
use radar_egui::pointcloud::pcd_loader::PcdEncoding;
use radar_egui::pointcloud::pcd_viewer::{PcdLoadResult, PcdLoadStats, PcdViewerStatus};
use radar_egui::workspace::{
    format_load_result, pcd_action_enabled, pcd_status_details, pcd_status_style,
    rerun_status_label, PcdStatusStyle,
};

fn load_result() -> PcdLoadResult {
    PcdLoadResult {
        stats: PcdLoadStats {
            encoding: PcdEncoding::Ascii,
            valid_points: 98,
            skipped_points: 2,
            declared_points: 100,
        },
        elapsed_nanos: 1_250_000_000,
    }
}

#[test]
fn pcd_action_is_disabled_while_the_runtime_is_busy() {
    assert!(!pcd_action_enabled(true, true));
    assert!(!pcd_action_enabled(true, false));
    assert!(!pcd_action_enabled(false, false));
    assert!(pcd_action_enabled(false, true));
}

#[test]
fn pcd_status_style_classifies_every_runtime_phase() {
    let cases = [
        (PcdViewerStatus::Idle, PcdStatusStyle::Neutral),
        (
            PcdViewerStatus::Loading {
                path: String::from("scan.pcd"),
                loaded_points: 25,
                total_points: 100,
            },
            PcdStatusStyle::Progress,
        ),
        (
            PcdViewerStatus::Launching { path: String::from("scan.pcd"), result: load_result() },
            PcdStatusStyle::Progress,
        ),
        (
            PcdViewerStatus::Ready { path: String::from("scan.pcd"), result: load_result() },
            PcdStatusStyle::Success,
        ),
        (
            PcdViewerStatus::Failed {
                path: String::from("broken.pcd"),
                message: "invalid header".to_owned(),
                loaded: None,
            },
            PcdStatusStyle::Error,
        ),
    ];

    for (status, expected) in cases {
        assert_eq!(pcd_status_style(&status), expected);
    }
}

#[test]
fn pcd_status_details_cover_every_runtime_phase() {
    let cases = [
        (PcdViewerStatus::Idle, ("Idle", "Select a .pcd file to open in Rerun", None, false)),
        (
            PcdViewerStatus::Loading {
                path: String::from("scan.pcd"),
                loaded_points: 25,
                total_points: 100,
            },
            ("Loading", "scan.pcd", Some("25 / 100 points".to_owned()), false),
        ),
        (
            PcdViewerStatus::Launching { path: String::from("scan.pcd"), result: load_result() },
            (
                "Launching",
                "scan.pcd",
                Some("ASCII · 98 valid / 100 declared · 2 skipped · 1.250 s".to_owned()),
                false,
            ),
        ),
        (
            PcdViewerStatus::Ready { path: String::from("scan.pcd"), result: load_result() },
            (
                "Ready",
                "scan.pcd",
                Some("ASCII · 98 valid / 100 declared · 2 skipped · 1.250 s".to_owned()),
                false,
            ),
        ),
        (
            PcdViewerStatus::Failed {
                path: String::from("broken.pcd"),
                message: "invalid header".to_owned(),
                loaded: None,
            },
            ("Failed", "broken.pcd", Some("invalid header".to_owned()), true),
        ),
        (
            PcdViewerStatus::Failed {
                path: String::from("scan.pcd"),
                message: "viewer unavailable".to_owned(),
                loaded: Some(load_result()),
            },
            (
                "Failed",
                "scan.pcd",
                Some(
                    "viewer unavailable\nASCII · 98 valid / 100 declared · 2 skipped · 1.250 s"
                        .to_owned(),
                ),
                true,
            ),
        ),
    ];

    for (status, expected) in cases {
        let actual = pcd_status_details(&status);
        assert_eq!((actual.phase, actual.path.as_str(), actual.detail, actual.failed), expected);
    }
}

#[test]
fn rerun_status_does_not_claim_connection() {
    assert_eq!(rerun_status_label(), "optional · not monitored");
}

#[test]
fn load_result_seconds_are_shown_as_their_double_shows_them() {
    let mut result = load_result();
    result.stats.encoding = PcdEncoding::Binary;
    result.elapsed_nanos = 2_000_499_999;
    assert_eq!(
        format_load_result(&result),
        "Binary · 98 valid / 100 declared · 2 skipped · 2.000 s"
    );
    result.elapsed_nanos = 1_000_500_000;
    assert!(format_load_result(&result).ends_with(" 1.000 s"));
    result.elapsed_nanos = 7_000_000;
    assert!(format_load_result(&result).ends_with(" 0.007 s"));
}

fn double_seconds(nanos: u64) -> String {
    format!("{:.3} s", Duration::from_nanos(nanos).as_secs_f64())
}

#[test]
fn load_result_seconds_match_double_formatting() {
    let mut result = load_result();
    let mut cases: Vec<u64> = vec![0, 1, 499_999, 500_000, 500_001, 62_500_000, 187_500_000, 312_500_000,
        937_500_000, 1_062_500_000, 1_000_500_000, 62_999_500_000, 999_999_999, 1_000_000_000,
        u64::MAX, u64::MAX - 1, 18_446_744_073_000_000_000, 4_398_046_511_104_500_000, 9_007_199_254_740_992_500];
    for j in 0..16_000u64 {
        cases.push(j * 62_500_000);
        cases.push(j * 62_500_000 + 1);
        cases.push(j * 1_000_000 + 500_000);
    }
    let mut x: u64 = 0x2545_F491_4F6C_DD1D;
    for _ in 0..60_000 {
        x ^= x << 13;
        x ^= x >> 7;
        x ^= x << 17;
        cases.push(x);
        cases.push(x % 10_000_000_000_000);
        cases.push((x % 100_000_000_000) / 500_000 * 500_000);
    }
    for nanos in cases {
        result.elapsed_nanos = nanos;
        let text = format_load_result(&result);
        let expected = double_seconds(nanos);
        assert!(text.ends_with(&format!(" {expected}")), "{nanos}: {text} vs {expected}");
    }
}
