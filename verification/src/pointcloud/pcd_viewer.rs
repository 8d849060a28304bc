//! The lifecycle of a point-cloud load for the viewer.
//!
//! A load runs on a worker: it reads the file (reporting progress), then
//! hands the points to the viewer. Each load gets a new generation number;
//! progress and worker events of any other generation are ignored, so a
//! slow earlier load can never overwrite a later one. The worker reports at
//! most `Launching` and one final event (`Ready` or `Failed`); once the
//! viewer is launching, progress no longer changes the status.

use vstd::prelude::*;
use vstd::string::StringExecFns;
use crate::pointcloud::pcd_loader::PcdEncoding;

verus! {

/// What a load found in the file.
#[derive(Debug, Clone, Copy, PartialEq, Eq)]
pub struct PcdLoadStats {
    pub encoding: PcdEncoding,
    pub valid_points: usize,
    pub skipped_points: u64,
    pub declared_points: u64,
}

/// What a load found, and how long it took up to the report.
#[derive(Debug, Clone, Copy, PartialEq, Eq)]
pub struct PcdLoadResult {
    pub stats: PcdLoadStats,
    pub elapsed_nanos: u64,
}

/// The status shown for the viewer.
#[derive(Debug, Clone, PartialEq, Eq)]
pub enum PcdViewerStatus {
    Idle,
    Loading { path: String, loaded_points: u64, total_points: u64 },
    Launching { path: String, result: PcdLoadResult },
    Ready { path: String, result: PcdLoadResult },
    Failed { path: String, message: String, loaded: Option<PcdLoadResult> },
}

/// A status as a value.
pub enum StatusView {
    Idle,
    Loading { path: Seq<char>, loaded_points: u64, total_points: u64 },
    Launching { path: Seq<char>, result: PcdLoadResult },
    Ready { path: Seq<char>, result: PcdLoadResult },
    Failed { path: Seq<char>, message: Seq<char>, loaded: Option<PcdLoadResult> },
}

impl View for PcdViewerStatus {
    type V = StatusView;

    open spec fn view(&self) -> StatusView {
        match *self {
            PcdViewerStatus::Idle => StatusView::Idle,
            PcdViewerStatus::Loading { path, loaded_points, total_points } =>
                StatusView::Loading { path: path@, loaded_points, total_points },
            PcdViewerStatus::Launching { path, result } => StatusView::Launching { path: path@, result },
            PcdViewerStatus::Ready { path, result } => StatusView::Ready { path: path@, result },
            PcdViewerStatus::Failed { path, message, loaded } =>
                StatusView::Failed { path: path@, message: message@, loaded },
        }
    }
}

/// What the worker of one load reports.
#[derive(Debug, Clone, PartialEq, Eq)]
pub enum WorkerEvent {
    Launching { generation: u64, path: String, result: PcdLoadResult },
    Ready { generation: u64, path: String, result: PcdLoadResult },
    Failed { generation: u64, path: String, message: String, loaded: Option<PcdLoadResult> },
}

/// An event as a value.
pub enum EventView {
    Launching { generation: u64, path: Seq<char>, result: PcdLoadResult },
    Ready { generation: u64, path: Seq<char>, result: PcdLoadResult },
    Failed { generation: u64, path: Seq<char>, message: Seq<char>, loaded: Option<PcdLoadResult> },
}

impl View for WorkerEvent {
    type V = EventView;

    open spec fn view(&self) -> EventView {
        match *self {
            WorkerEvent::Launching { generation, path, result } =>
                EventView::Launching { generation, path: path@, result },
            WorkerEvent::Ready { generation, path, result } =>
                EventView::Ready { generation, path: path@, result },
            WorkerEvent::Failed { generation, path, message, loaded } =>
                EventView::Failed { generation, path: path@, message: message@, loaded },
        }
    }
}

/// The latest progress of one load.
#[derive(Debug, Clone, PartialEq, Eq)]
pub struct ProgressUpdate {
    pub generation: u64,
    pub path: String,
    pub loaded_points: u64,
    pub total_points: u64,
}

/// The generation an event belongs to.
pub open spec fn event_generation(e: EventView) -> u64 {
    match e {
        EventView::Launching { generation, .. } => generation,
        EventView::Ready { generation, .. } => generation,
        EventView::Failed { generation, .. } => generation,
    }
}

/// The lifecycle state of the viewer.
pub struct PcdViewerState {
    pub status: PcdViewerStatus,
    pub busy: bool,
    pub generation: u64,
    pub accepts_progress: bool,
}

/// The state as a value.
pub struct ViewerView {
    pub status: StatusView,
    pub busy: bool,
    pub generation: u64,
    pub accepts_progress: bool,
}

impl View for PcdViewerState {
    type V = ViewerView;

    open spec fn view(&self) -> ViewerView {
        ViewerView {
            status: self.status@,
            busy: self.busy,
            generation: self.generation,
            accepts_progress: self.accepts_progress,
        }
    }
}

/// A viewer that has never loaded anything.
pub open spec fn initial_viewer() -> ViewerView {
    ViewerView { status: StatusView::Idle, busy: false, generation: 0, accepts_progress: false }
}

/// Starting a load: refused while one runs; otherwise a new generation
/// begins, loading the path from zero points.
pub open spec fn on_begin(v: ViewerView, path: Seq<char>) -> (ViewerView, Option<u64>) {
    if v.busy {
        (v, None)
    } else {
        let g = (v.generation + 1) as u64;
        (
            ViewerView {
                status: StatusView::Loading { path, loaded_points: 0, total_points: 0 },
                busy: true,
                generation: g,
                accepts_progress: true,
            },
            Some(g),
        )
    }
}

/// The text shown when the worker of a load could not be started.
pub open spec fn spawn_failure_text(error: Seq<char>) -> Seq<char> {
    "failed to start PCD viewer worker: "@ + error
}

/// The worker of the load just begun could not be started.
pub open spec fn on_spawn_failed(v: ViewerView, path: Seq<char>, error: Seq<char>) -> ViewerView {
    ViewerView {
        status: StatusView::Failed { path, message: spawn_failure_text(error), loaded: None },
        busy: false,
        accepts_progress: false,
        ..v
    }
}

/// Progress is shown only for the current load, while it still reads the file.
pub open spec fn on_progress(v: ViewerView, generation: u64, path: Seq<char>, loaded: u64, total: u64) -> ViewerView {
    if v.busy && v.accepts_progress && generation == v.generation {
        ViewerView {
            status: StatusView::Loading { path, loaded_points: loaded, total_points: total },
            ..v
        }
    } else {
        v
    }
}

/// An event of the current load moves the status on; any other is ignored.
pub open spec fn on_event(v: ViewerView, e: EventView) -> ViewerView {
    if event_generation(e) != v.generation {
        v
    } else {
        match e {
            EventView::Launching { path, result, .. } => ViewerView {
                status: StatusView::Launching { path, result },
                accepts_progress: false,
                ..v
            },
            EventView::Ready { path, result, .. } => ViewerView {
                status: StatusView::Ready { path, result },
                busy: false,
                accepts_progress: false,
                ..v
            },
            EventView::Failed { path, message, loaded, .. } => ViewerView {
                status: StatusView::Failed { path, message, loaded },
                busy: false,
                accepts_progress: false,
                ..v
            },
        }
    }
}

impl PcdViewerState {
    /// A viewer that has never loaded anything.
    pub fn new() -> (r: PcdViewerState)
        ensures
            r@ == initial_viewer(),
    {
        PcdViewerState { status: PcdViewerStatus::Idle, busy: false, generation: 0, accepts_progress: false }
    }

    /// The status to show.
    pub fn status(&self) -> (r: &PcdViewerStatus)
        ensures
            r@ == self@.status,
    {
        &self.status
    }

    /// Whether a load runs.
    pub fn is_busy(&self) -> (r: bool)
        ensures
            r == self@.busy,
    {
        self.busy
    }

    /// Begins a load of `path`; returns its generation, or `None` (changing
    /// nothing) while another load runs. The generation counter must not be
    /// exhausted.
    pub fn begin(&mut self, path: String) -> (r: Option<u64>)
        requires
            old(self).busy || old(self).generation < u64::MAX,
        ensures
            (final(self)@, r) == on_begin(old(self)@, path@),
    {
        if self.busy {
            return None;
        }
        self.generation = self.generation + 1;
        self.status = PcdViewerStatus::Loading { path, loaded_points: 0, total_points: 0 };
        self.busy = true;
        self.accepts_progress = true;
        Some(self.generation)
    }

    /// The worker of the load just begun could not be started.
    pub fn spawn_failed(&mut self, path: String, error: &str)
        ensures
            final(self)@ == on_spawn_failed(old(self)@, path@, error@),
    {
        let mut message = String::from_str("failed to start PCD viewer worker: ");
        message.append(error);
        self.status = PcdViewerStatus::Failed { path, message, loaded: None };
        self.busy = false;
        self.accepts_progress = false;
    }

    /// Takes the latest progress report of a load.
    pub fn apply_progress(&mut self, progress: ProgressUpdate)
        ensures
            final(self)@ == on_progress(
                old(self)@,
                progress.generation,
                progress.path@,
                progress.loaded_points,
                progress.total_points,
            ),
    {
        if self.busy && self.accepts_progress && progress.generation == self.generation {
            self.status = PcdViewerStatus::Loading {
                path: progress.path,
                loaded_points: progress.loaded_points,
                total_points: progress.total_points,
            };
        }
    }

    /// Takes one worker event.
    pub fn apply_event(&mut self, event: WorkerEvent)
        ensures
            final(self)@ == on_event(old(self)@, event@),
    {
        let generation = match &event {
            WorkerEvent::Launching { generation, .. } => *generation,
            WorkerEvent::Ready { generation, .. } => *generation,
            WorkerEvent::Failed { generation, .. } => *generation,
        };
        if generation != self.generation {
            return;
        }
        match event {
            WorkerEvent::Launching { generation: _, path, result } => {
                self.accepts_progress = false;
                self.status = PcdViewerStatus::Launching { path, result };
            },
            WorkerEvent::Ready { generation: _, path, result } => {
                self.busy = false;
                self.accepts_progress = false;
                self.status = PcdViewerStatus::Ready { path, result };
            },
            WorkerEvent::Failed { generation: _, path, message, loaded } => {
                self.busy = false;
                self.accepts_progress = false;
                self.status = PcdViewerStatus::Failed { path, message, loaded };
            },
        }
    }
}

/// The final event of a load whose file was read: `Ready` when the viewer
/// took the points, `Failed` with the viewer's message (and what was read)
/// otherwise.
pub fn launch_outcome_event(generation: u64, path: String, result: PcdLoadResult, launched: Result<(), String>) -> (r: WorkerEvent)
    ensures
        r@ == match launched {
            Ok(()) => EventView::Ready { generation, path: path@, result },
            Err(m) => EventView::Failed { generation, path: path@, message: m@, loaded: Some(result) },
        },
{
    match launched {
        Ok(()) => WorkerEvent::Ready { generation, path, result },
        Err(message) => WorkerEvent::Failed { generation, path, message, loaded: Some(result) },
    }
}

/// The text shown when the worker of a load panicked.
pub open spec fn panic_text(detail: Seq<char>) -> Seq<char> {
    "PCD viewer worker panicked: "@ + detail
}

/// The text shown when the worker of a load panicked with the given message.
pub fn worker_panic_message(detail: &str) -> (r: String)
    ensures
        r@ == panic_text(detail@),
{
    let mut s = String::from_str("PCD viewer worker panicked: ");
    s.append(detail);
    s
}

/// The states a viewer can reach: progress is taken only while a load runs
/// and reads its file, and a running load shows `Loading` or `Launching`.
pub open spec fn viewer_wf(v: ViewerView) -> bool {
    &&& (v.accepts_progress ==> v.busy && v.status is Loading)
    &&& (v.busy ==> v.status is Loading || v.status is Launching)
}

/// A fresh viewer is in a reachable state, and every input keeps it in one.
pub proof fn law_viewer_inputs_keep_it_well_formed(
    v: ViewerView,
    path: Seq<char>,
    error: Seq<char>,
    generation: u64,
    loaded: u64,
    total: u64,
    e: EventView,
)
    requires
        viewer_wf(v),
    ensures
        viewer_wf(initial_viewer()),
        viewer_wf(on_begin(v, path).0),
        viewer_wf(on_spawn_failed(v, path, error)),
        viewer_wf(on_progress(v, generation, path, loaded, total)),
        viewer_wf(on_event(v, e)),
{
}

/// Progress and events of any load but the current one change nothing, so
/// an earlier, slower load can never overwrite the status of a later one.
pub proof fn law_stale_reports_are_ignored(v: ViewerView, e: EventView, generation: u64, path: Seq<char>, loaded: u64, total: u64)
    requires
        generation != v.generation,
        event_generation(e) != v.generation,
    ensures
        on_progress(v, generation, path, loaded, total) == v,
        on_event(v, e) == v,
{
}

/// Once a new load has begun, every report of an earlier load is ignored.
pub proof fn law_new_load_ignores_earlier_reports(v: ViewerView, path: Seq<char>, e: EventView, loaded: u64, total: u64)
    requires
        !v.busy,
        v.generation < u64::MAX,
        event_generation(e) <= v.generation,
    ensures
        ({
            let (w, g) = on_begin(v, path);
            &&& g == Some((v.generation + 1) as u64)
            &&& w.status == StatusView::Loading { path, loaded_points: 0, total_points: 0 }
            &&& on_event(w, e) == w
            &&& on_progress(w, v.generation, path, loaded, total) == w
        }),
{
}

/// A second load is refused while one runs, and changes nothing.
pub proof fn law_second_start_is_refused(v: ViewerView, path: Seq<char>)
    requires
        v.busy,
    ensures
        on_begin(v, path) == (v, None::<u64>),
{
}

/// Once the current load is launching the viewer, progress that arrives
/// late never takes the status back to `Loading`.
pub proof fn law_launching_never_regresses_to_loading(
    v: ViewerView,
    path: Seq<char>,
    result: PcdLoadResult,
    generation: u64,
    ppath: Seq<char>,
    loaded: u64,
    total: u64,
)
    ensures
        ({
            let w = on_event(v, EventView::Launching { generation: v.generation, path, result });
            &&& w.status == StatusView::Launching { path, result }
            &&& on_progress(w, generation, ppath, loaded, total) == w
        }),
{
}

/// The final event of the current load, success or failure, leaves the
/// viewer free, so the next start is accepted.
pub proof fn law_final_event_frees_the_viewer(v: ViewerView, e: EventView, path: Seq<char>)
    requires
        event_generation(e) == v.generation,
        !(e is Launching),
        v.generation < u64::MAX,
    ensures
        !on_event(v, e).busy,
        on_begin(on_event(v, e), path).1 == Some((v.generation + 1) as u64),
{
}

} // verus!
