//! What the workspaces of the interface show and keep, apart from drawing
//! it: the point-cloud viewer status, the serial change log, the serial
//! connection state.

use vstd::prelude::*;
use vstd::string::StringExecFns;
use std::collections::VecDeque;
use crate::pointcloud::pcd_loader::encoding_name;
use crate::pointcloud::pcd_viewer::{PcdLoadResult, PcdViewerStatus, StatusView};
use crate::shared_data::SharedData;
use crate::seconds::{shown_millis, shown_millis_of};
use crate::text::{decimal, join_strings, joined, padded_decimal, push_decimal, push_padded_decimal, strings_of};
use crate::widgets::serial_panel::{SerialFrameLogLine, SerialLogKind};

verus! {

// ---------------------------------------------------------------------------
// Point-cloud viewer status.
// ---------------------------------------------------------------------------

/// How the viewer status is coloured.
#[derive(Debug, Clone, Copy, PartialEq, Eq)]
pub enum PcdStatusStyle {
    Neutral,
    Progress,
    Success,
    Error,
}

/// The colouring of a status: neutral when idle, progress while loading or
/// launching, success when ready, error when failed.
pub open spec fn style_of(s: StatusView) -> PcdStatusStyle {
    match s {
        StatusView::Idle => PcdStatusStyle::Neutral,
        StatusView::Loading { .. } | StatusView::Launching { .. } => PcdStatusStyle::Progress,
        StatusView::Ready { .. } => PcdStatusStyle::Success,
        StatusView::Failed { .. } => PcdStatusStyle::Error,
    }
}

/// The colouring of a status.
pub fn pcd_status_style(status: &PcdViewerStatus) -> (r: PcdStatusStyle)
    ensures
        r == style_of(status@),
{
    match status {
        PcdViewerStatus::Idle => PcdStatusStyle::Neutral,
        PcdViewerStatus::Loading { .. } | PcdViewerStatus::Launching { .. } => PcdStatusStyle::Progress,
        PcdViewerStatus::Ready { .. } => PcdStatusStyle::Success,
        PcdViewerStatus::Failed { .. } => PcdStatusStyle::Error,
    }
}

/// Opening a file is offered only when the feature is on and no load runs.
pub fn pcd_action_enabled(busy: bool, feature_enabled: bool) -> (r: bool)
    ensures
        r == (feature_enabled && !busy),
{
    feature_enabled && !busy
}

/// A duration in seconds with three decimals, as its double shows them.
pub open spec fn seconds_text(nanos: u64) -> Seq<char> {
    decimal(shown_millis(nanos) / 1000) + "."@ + padded_decimal(shown_millis(nanos) % 1000, 3)
}

/// What a load found, on one line:
/// `"<encoding> · <valid> valid / <declared> declared · <skipped> skipped · <seconds> s"`.
pub open spec fn load_result_text(r: PcdLoadResult) -> Seq<char> {
    encoding_name(r.stats.encoding) + " · "@ + decimal(r.stats.valid_points as nat) + " valid / "@
        + decimal(r.stats.declared_points as nat) + " declared · "@ + decimal(
        r.stats.skipped_points as nat,
    ) + " skipped · "@ + seconds_text(r.elapsed_nanos) + " s"@
}

/// What a load found, on one line.
pub fn format_load_result(result: &PcdLoadResult) -> (r: String)
    ensures
        r@ == load_result_text(*result),
{
    let stats = result.stats;
    let mut s = String::from_str(stats.encoding.as_str());
    s.append(" · ");
    push_decimal(&mut s, stats.valid_points as u64);
    s.append(" valid / ");
    push_decimal(&mut s, stats.declared_points);
    s.append(" declared · ");
    push_decimal(&mut s, stats.skipped_points);
    s.append(" skipped · ");
    let millis = shown_millis_of(result.elapsed_nanos);
    push_decimal(&mut s, millis / 1000);
    s.append(".");
    push_padded_decimal(&mut s, millis % 1000, 3);
    s.append(" s");
    s
}

/// The status of the viewer as the sidebar shows it.
#[derive(Debug, Clone)]
pub struct PcdStatusDetails {
    pub phase: &'static str,
    pub path: String,
    pub detail: Option<String>,
    pub failed: bool,
}

/// The details as a value: phase, path, detail, and whether it failed.
pub open spec fn details_of(s: StatusView) -> (Seq<char>, Seq<char>, Option<Seq<char>>, bool) {
    match s {
        StatusView::Idle => ("Idle"@, "Select a .pcd file to open in Rerun"@, None, false),
        StatusView::Loading { path, loaded_points, total_points } => (
            "Loading"@,
            path,
            Some(decimal(loaded_points as nat) + " / "@ + decimal(total_points as nat) + " points"@),
            false,
        ),
        StatusView::Launching { path, result } => ("Launching"@, path, Some(load_result_text(result)), false),
        StatusView::Ready { path, result } => ("Ready"@, path, Some(load_result_text(result)), false),
        StatusView::Failed { path, message, loaded } => (
            "Failed"@,
            path,
            Some(
                match loaded {
                    Some(r) => message + "\n"@ + load_result_text(r),
                    None => message,
                },
            ),
            true,
        ),
    }
}

/// The optional text as a value.
pub open spec fn opt_chars(t: Option<String>) -> Option<Seq<char>> {
    match t {
        Some(s) => Some(s@),
        None => None,
    }
}

/// The status of the viewer as the sidebar shows it.
pub fn pcd_status_details(status: &PcdViewerStatus) -> (r: PcdStatusDetails)
    ensures
        (r.phase@, r.path@, opt_chars(r.detail), r.failed) == details_of(status@),
{
    match status {
        PcdViewerStatus::Idle => PcdStatusDetails {
            phase: "Idle",
            path: String::from_str("Select a .pcd file to open in Rerun"),
            detail: None,
            failed: false,
        },
        PcdViewerStatus::Loading { path, loaded_points, total_points } => {
            let mut d = String::new();
            push_decimal(&mut d, *loaded_points);
            d.append(" / ");
            push_decimal(&mut d, *total_points);
            d.append(" points");
            PcdStatusDetails { phase: "Loading", path: path.clone(), detail: Some(d), failed: false }
        },
        PcdViewerStatus::Launching { path, result } => PcdStatusDetails {
            phase: "Launching",
            path: path.clone(),
            detail: Some(format_load_result(result)),
            failed: false,
        },
        PcdViewerStatus::Ready { path, result } => PcdStatusDetails {
            phase: "Ready",
            path: path.clone(),
            detail: Some(format_load_result(result)),
            failed: false,
        },
        PcdViewerStatus::Failed { path, message, loaded } => {
            let detail = match loaded {
                Some(result) => {
                    let mut d = message.clone();
                    d.append("\n");
                    let text = format_load_result(result);
                    d.append(text.as_str());
                    d
                },
                None => message.clone(),
            };
            PcdStatusDetails { phase: "Failed", path: path.clone(), detail: Some(detail), failed: true }
        },
    }
}

/// The Rerun status line: the viewer is optional and its connection is not watched.
pub fn rerun_status_label() -> (r: &'static str)
    ensures
        r@ == "optional · not monitored"@,
{
    "optional · not monitored"
}

// ---------------------------------------------------------------------------
// Serial change log.
// ---------------------------------------------------------------------------

/// The parts of the shared state that the serial log watches: the game
/// state, the site events and the vulnerability marks of five enemy robots.
#[derive(Clone, Copy, Debug, Default, PartialEq, Eq)]
pub struct SerialObservedState {
    pub game: (u8, u8, u16, u64),
    pub site: (u8, u8, u8, u8, u8, u16, u8, u8, u8, u8, u8),
    pub radar: [u8; 5],
}

/// What the serial log watches of the shared state.
pub open spec fn observed_of(d: SharedData) -> SerialObservedState {
    let g = d.game_state;
    let s = d.site_event;
    let r = d.radar_mark_process;
    SerialObservedState {
        game: (g.game_type, g.game_progress, g.stage_remain_time, g.sync_timestamp),
        site: (
            s.supply_zone_status,
            s.energy_small_status,
            s.energy_large_status,
            s.central_highland_status,
            s.trapezoid_highland_status,
            s.dart_hit_time,
            s.dart_hit_target,
            s.center_gain_status,
            s.fortress_gain_status,
            s.outpost_gain_status,
            s.base_gain_status,
        ),
        radar: [
            r.opponent_hero_vulnerable,
            r.opponent_engineer_vulnerable,
            r.opponent_infantry_3_vulnerable,
            r.opponent_infantry_4_vulnerable,
            r.opponent_sentry_vulnerable,
        ],
    }
}

impl SerialObservedState {
    /// What the serial log watches of the shared state.
    pub fn from_shared(data: &SharedData) -> (r: SerialObservedState)
        ensures
            r == observed_of(*data),
    {
        let g = &data.game_state;
        let s = &data.site_event;
        let r = &data.radar_mark_process;
        SerialObservedState {
            game: (g.game_type, g.game_progress, g.stage_remain_time, g.sync_timestamp),
            site: (
                s.supply_zone_status,
                s.energy_small_status,
                s.energy_large_status,
                s.central_highland_status,
                s.trapezoid_highland_status,
                s.dart_hit_time,
                s.dart_hit_target,
                s.center_gain_status,
                s.fortress_gain_status,
                s.outpost_gain_status,
                s.base_gain_status,
            ),
            radar: [
                r.opponent_hero_vulnerable,
                r.opponent_engineer_vulnerable,
                r.opponent_infantry_3_vulnerable,
                r.opponent_infantry_4_vulnerable,
                r.opponent_sentry_vulnerable,
            ],
        }
    }
}

/// One entry of the serial change log.
#[derive(Clone, Debug, PartialEq, Eq)]
pub struct SerialLogEvent {
    pub kind: SerialLogKind,
    pub text: String,
}

impl SerialLogEvent {
    /// A received-data entry.
    pub fn rx(text: &str) -> (r: SerialLogEvent)
        ensures
            r.kind == SerialLogKind::Rx,
            r.text@ == text@,
    {
        SerialLogEvent { kind: SerialLogKind::Rx, text: String::from_str(text) }
    }
}

/// An entry as a value.
pub open spec fn event_view(e: SerialLogEvent) -> (SerialLogKind, Seq<char>) {
    (e.kind, e.text@)
}

/// The log line of a changed game state.
pub open spec fn game_text(c: SerialObservedState) -> Seq<char> {
    "0x0001 GameState · remain="@ + decimal(c.game.2 as nat) + "s"@
}

/// The log line of changed site events.
pub open spec fn site_text(c: SerialObservedState) -> Seq<char> {
    let s = c.site;
    "0x0101 SiteEvent · supply="@ + decimal(s.0 as nat) + " energy="@ + decimal(s.1 as nat) + "/"@
        + decimal(s.2 as nat) + " highland="@ + decimal(s.3 as nat) + "/"@ + decimal(s.4 as nat)
        + " dart="@ + decimal(s.5 as nat) + ":"@ + decimal(s.6 as nat) + " center="@ + decimal(
        s.7 as nat,
    ) + " fortress="@ + decimal(s.8 as nat) + " outpost="@ + decimal(s.9 as nat) + " base="@
        + decimal(s.10 as nat)
}

/// The label of one watched mark.
pub open spec fn mark_label(i: int) -> Seq<char> {
    if i == 0 {
        "Hero"@
    } else if i == 1 {
        "Engineer"@
    } else if i == 2 {
        "Infantry 3"@
    } else if i == 3 {
        "Infantry 4"@
    } else {
        "Sentry"@
    }
}

/// The changed marks among the first `n`, each as `"<label>=vulnerable"` or `"<label>=idle"`.
pub open spec fn mark_changes(p: Seq<u8>, c: Seq<u8>, n: int) -> Seq<Seq<char>>
    decreases n,
{
    if n <= 0 {
        Seq::empty()
    } else {
        let rest = mark_changes(p, c, n - 1);
        if c[n - 1] != p[n - 1] {
            rest.push(
                mark_label(n - 1) + "="@ + if c[n - 1] != 0 {
                    "vulnerable"@
                } else {
                    "idle"@
                },
            )
        } else {
            rest
        }
    }
}

/// The log line of changed vulnerability marks: only the marks that changed.
pub open spec fn radar_text(p: SerialObservedState, c: SerialObservedState) -> Seq<char> {
    "0x020C RadarMarkProcess · "@ + joined(mark_changes(p.radar@, c.radar@, 5))
}

/// The log entries for a change of the watched state: one per changed
/// group (game state, site events, marks), in that order; none when
/// nothing changed.
pub open spec fn diff_model(p: SerialObservedState, c: SerialObservedState) -> Seq<(SerialLogKind, Seq<char>)> {
    (if p.game != c.game {
        seq![(SerialLogKind::Rx, game_text(c))]
    } else {
        Seq::empty()
    }) + (if p.site != c.site {
        seq![(SerialLogKind::Rx, site_text(c))]
    } else {
        Seq::empty()
    }) + (if p.radar@ != c.radar@ {
        seq![(SerialLogKind::Rx, radar_text(p, c))]
    } else {
        Seq::empty()
    })
}

fn mark_label_text(i: usize) -> (r: &'static str)
    requires
        i < 5,
    ensures
        r@ == mark_label(i as int),
{
    if i == 0 {
        "Hero"
    } else if i == 1 {
        "Engineer"
    } else if i == 2 {
        "Infantry 3"
    } else if i == 3 {
        "Infantry 4"
    } else {
        "Sentry"
    }
}

fn site_line(c: &SerialObservedState) -> (r: String)
    ensures
        r@ == site_text(*c),
{
    let s = c.site;
    let mut t = String::from_str("0x0101 SiteEvent · supply=");
    push_decimal(&mut t, s.0 as u64);
    t.append(" energy=");
    push_decimal(&mut t, s.1 as u64);
    t.append("/");
    push_decimal(&mut t, s.2 as u64);
    t.append(" highland=");
    push_decimal(&mut t, s.3 as u64);
    t.append("/");
    push_decimal(&mut t, s.4 as u64);
    t.append(" dart=");
    push_decimal(&mut t, s.5 as u64);
    t.append(":");
    push_decimal(&mut t, s.6 as u64);
    t.append(" center=");
    push_decimal(&mut t, s.7 as u64);
    t.append(" fortress=");
    push_decimal(&mut t, s.8 as u64);
    t.append(" outpost=");
    push_decimal(&mut t, s.9 as u64);
    t.append(" base=");
    push_decimal(&mut t, s.10 as u64);
    t
}

fn radar_line(p: &SerialObservedState, c: &SerialObservedState) -> (r: String)
    ensures
        r@ == radar_text(*p, *c),
{
    let mut changes: Vec<String> = Vec::new();
    let mut i: usize = 0;
    while i < 5
        invariant
            i <= 5,
            p.radar@.len() == 5,
            c.radar@.len() == 5,
            strings_of(changes@) == mark_changes(p.radar@, c.radar@, i as int),
        decreases 5 - i,
    {
        if c.radar[i] != p.radar[i] {
            let mut item = String::from_str(mark_label_text(i));
            item.append("=");
            if c.radar[i] != 0 {
                item.append("vulnerable");
            } else {
                item.append("idle");
            }
            let ghost before = changes@;
            changes.push(item);
            proof {
                assert(strings_of(changes@) =~= strings_of(before).push(item@));
            }
        }
        i = i + 1;
    }
    let mut t = String::from_str("0x020C RadarMarkProcess · ");
    let list = join_strings(&changes);
    t.append(list.as_str());
    t
}

fn same_game(a: &(u8, u8, u16, u64), b: &(u8, u8, u16, u64)) -> (r: bool)
    ensures
        r == (*a == *b),
{
    a.0 == b.0 && a.1 == b.1 && a.2 == b.2 && a.3 == b.3
}

fn same_site(
    a: &(u8, u8, u8, u8, u8, u16, u8, u8, u8, u8, u8),
    b: &(u8, u8, u8, u8, u8, u16, u8, u8, u8, u8, u8),
) -> (r: bool)
    ensures
        r == (*a == *b),
{
    a.0 == b.0 && a.1 == b.1 && a.2 == b.2 && a.3 == b.3 && a.4 == b.4 && a.5 == b.5 && a.6 == b.6
        && a.7 == b.7 && a.8 == b.8 && a.9 == b.9 && a.10 == b.10
}

fn same_marks(a: &[u8; 5], b: &[u8; 5]) -> (r: bool)
    ensures
        r == (a@ == b@),
{
    let r = a[0] == b[0] && a[1] == b[1] && a[2] == b[2] && a[3] == b[3] && a[4] == b[4];
    if r {
        assert(a@ =~= b@);
    }
    r
}

/// The log entries for a change of the watched state.
pub fn diff_serial_state(previous: &SerialObservedState, current: &SerialObservedState) -> (r: Vec<SerialLogEvent>)
    ensures
        r@.map_values(|e: SerialLogEvent| event_view(e)) == diff_model(*previous, *current),
{
    let mut events: Vec<SerialLogEvent> = Vec::new();
    let ghost mut model: Seq<(SerialLogKind, Seq<char>)> = Seq::empty();
    if !same_game(&previous.game, &current.game) {
        let mut t = String::from_str("0x0001 GameState · remain=");
        push_decimal(&mut t, current.game.2 as u64);
        t.append("s");
        events.push(SerialLogEvent { kind: SerialLogKind::Rx, text: t });
        proof {
            model = model.push((SerialLogKind::Rx, game_text(*current)));
        }
    }
    assert(events@.map_values(|e: SerialLogEvent| event_view(e)) =~= model);
    if !same_site(&previous.site, &current.site) {
        let t = site_line(current);
        let ghost before = events@;
        events.push(SerialLogEvent { kind: SerialLogKind::Rx, text: t });
        proof {
            model = model.push((SerialLogKind::Rx, site_text(*current)));
            assert(events@.map_values(|e: SerialLogEvent| event_view(e)) =~= before.map_values(|e: SerialLogEvent| event_view(e)).push((SerialLogKind::Rx, site_text(*current))));
        }
    }
    assert(events@.map_values(|e: SerialLogEvent| event_view(e)) =~= model);
    if !same_marks(&previous.radar, &current.radar) {
        let t = radar_line(previous, current);
        let ghost before = events@;
        events.push(SerialLogEvent { kind: SerialLogKind::Rx, text: t });
        proof {
            model = model.push((SerialLogKind::Rx, radar_text(*previous, *current)));
            assert(events@.map_values(|e: SerialLogEvent| event_view(e)) =~= before.map_values(|e: SerialLogEvent| event_view(e)).push((SerialLogKind::Rx, radar_text(*previous, *current))));
        }
    }
    assert(model =~= diff_model(*previous, *current));
    assert(events@.map_values(|e: SerialLogEvent| event_view(e)) =~= model);
    events
}

/// Takes a new view of the shared state: the first view only sets the
/// baseline; every later one logs what changed since the previous view.
pub fn observe_serial_state(previous: &mut Option<SerialObservedState>, data: &SharedData) -> (r: Vec<SerialLogEvent>)
    ensures
        *final(previous) == Some(observed_of(*data)),
        match *old(previous) {
            Some(p) => r@.map_values(|e: SerialLogEvent| event_view(e)) == diff_model(p, observed_of(*data)),
            None => r@.len() == 0,
        },
{
    let current = SerialObservedState::from_shared(data);
    let events = match previous {
        Some(p) => diff_serial_state(p, &current),
        None => Vec::new(),
    };
    *previous = Some(current);
    events
}

/// How many lines the serial frame log keeps.
pub const SERIAL_LOG_LIMIT: usize = 80;

/// Appends a line to the frame log and drops the oldest lines beyond the
/// limit, so the log holds the latest `SERIAL_LOG_LIMIT` lines.
pub fn push_bounded_serial_log(log: &mut VecDeque<SerialFrameLogLine>, line: SerialFrameLogLine)
    ensures
        final(log)@ == if old(log)@.len() + 1 > SERIAL_LOG_LIMIT {
            old(log)@.push(line).subrange(
                old(log)@.len() + 1 - SERIAL_LOG_LIMIT,
                old(log)@.len() + 1 as int,
            )
        } else {
            old(log)@.push(line)
        },
{
    let ghost all = log@.push(line);
    log.push_back(line);
    let ghost mut dropped: int = 0;
    while log.len() > SERIAL_LOG_LIMIT
        invariant
            0 <= dropped <= all.len(),
            log@ == all.subrange(dropped, all.len() as int),
            all.len() > SERIAL_LOG_LIMIT ==> dropped <= all.len() - SERIAL_LOG_LIMIT,
            all.len() <= SERIAL_LOG_LIMIT ==> dropped == 0,
        decreases log@.len(),
    {
        let _ = log.pop_front();
        proof {
            dropped = dropped + 1;
        }
    }
    assert(all.subrange(0, all.len() as int) =~= all);
}

// ---------------------------------------------------------------------------
// Serial connection and clock.
// ---------------------------------------------------------------------------

/// Records a failed attempt to open the serial port: the port stays closed
/// and the error is shown.
pub fn serial_open_failed(serial_open: &mut bool, serial_error: &mut Option<String>, error: String)
    ensures
        !*final(serial_open),
        *final(serial_error) == Some(error),
{
    *serial_open = false;
    *serial_error = Some(error);
}

/// Whether the open serial workers must be closed: while the port is open,
/// as soon as a worker reported a failure (`health` false) or either worker
/// thread has finished. `None` stands for a worker that was never started.
pub fn serial_workers_must_close(
    open: bool,
    health: Option<bool>,
    rx_finished: Option<bool>,
    tx_finished: Option<bool>,
) -> (r: bool)
    ensures
        r == (open && (health == Some(false) || rx_finished == Some(true) || tx_finished == Some(true))),
{
    let failed = match health {
        Some(h) => !h,
        None => false,
    };
    let rx_done = match rx_finished {
        Some(f) => f,
        None => false,
    };
    let tx_done = match tx_finished {
        Some(f) => f,
        None => false,
    };
    open && (failed || rx_done || tx_done)
}

/// The time of day (UTC) of a number of seconds since the epoch, as `HH:MM:SS`.
pub open spec fn clock_text(secs: u64) -> Seq<char> {
    padded_decimal(((secs / 3600) % 24) as nat, 2) + ":"@ + padded_decimal(((secs / 60) % 60) as nat, 2)
        + ":"@ + padded_decimal((secs % 60) as nat, 2)
}

/// The time of day (UTC) of a number of seconds since the epoch, as `HH:MM:SS`.
pub fn clock_label(secs: u64) -> (r: String)
    ensures
        r@ == clock_text(secs),
{
    let mut s = String::new();
    push_padded_decimal(&mut s, (secs / 3600) % 24, 2);
    s.append(":");
    push_padded_decimal(&mut s, (secs / 60) % 60, 2);
    s.append(":");
    push_padded_decimal(&mut s, secs % 60, 2);
    s
}

/// A view that did not change logs nothing, so an unchanged serial state
/// never shows a frame that was not received.
pub proof fn law_identical_states_log_nothing(s: SerialObservedState)
    ensures
        diff_model(s, s).len() == 0,
{
}

/// The sidebar marks a status failed exactly when its colouring is the error one.
pub proof fn law_failed_details_match_the_error_style(s: StatusView)
    ensures
        details_of(s).3 <==> style_of(s) == PcdStatusStyle::Error,
        details_of(s).2 is None <==> s is Idle,
{
}

} // verus!
