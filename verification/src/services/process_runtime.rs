//! The process actor: the decisions that start, configure and stop the
//! radar, SDR and laser components, as a state machine over plain values.
//!
//! The actor never touches a process itself. Each input (a command, the
//! outcome of the backend call it asked for, a fired timer, the component
//! exits seen by a poll, the daemon probe) moves it to its next state and
//! yields a [`Step`]: at most one component to stop first, then either one
//! backend call whose outcome must be handed back, a timer to arm, or
//! nothing. The loop that runs the backend and publishes the snapshot after
//! every step lives with the caller.

use vstd::prelude::*;
use vstd::string::StringExecFns;
use crate::services::script_runner::{enemy_command, spec_enemy, LaserScript, TeamSide};

verus! {

/// Pause after the radar and after the SDR bridge are started in a full start.
pub const START_ALL_DELAY_MS: u64 = 1000;

/// Pause before a failed laser FIFO configuration is tried again.
pub const FIFO_RETRY_DELAY_MS: u64 = 50;

/// How many times the laser FIFO configuration is tried before the laser is failed.
pub const FIFO_ATTEMPTS: u8 = 100;

/// Period of the exit poll and the daemon probe.
pub const DAEMON_PROBE_INTERVAL_MS: u64 = 100;

/// One of the three managed components.
#[derive(Clone, Copy, Debug, PartialEq, Eq, Structural)]
pub enum ProcessComponent {
    Radar,
    Sdr,
    Laser,
}

/// What the process actor is doing, as shown to the operator.
#[derive(Clone, Copy, Debug, Default, PartialEq, Eq, Structural)]
pub enum ProcessPhase {
    #[default]
    Idle,
    StartingRadar,
    WaitingForRadar,
    StartingSdr,
    WaitingForSdr,
    StartingLaser,
    ConfiguringLaser,
    Running,
    Stopping,
    Failed(ProcessComponent),
}

/// The choices of a full start.
#[derive(Clone, Copy, Debug, PartialEq, Eq)]
pub struct StartAllOptions {
    pub side: TeamSide,
    pub stream: bool,
    pub record: bool,
    pub laser_auto: bool,
    pub radar_record: bool,
}

/// The choices of a laser start.
#[derive(Clone, Copy, Debug, PartialEq)]
pub struct StartLaserOptions {
    pub script: LaserScript,
    pub side: TeamSide,
    pub stream: bool,
    pub record: bool,
    pub laser_auto: bool,
    pub configure: bool,
}

/// A request to the process actor.
#[derive(Clone, Debug, PartialEq)]
pub enum ProcessCommand {
    StartAll { side: TeamSide, stream: bool, record: bool, laser_auto: bool, radar_record: bool },
    RetryFailed,
    StartRadar { side: TeamSide, record: bool },
    StartSdr(TeamSide),
    StartLaser(StartLaserOptions),
    SendLaserCommand(String),
    StopRadar,
    StopSdr,
    StopLaser,
    StopAll,
    Shutdown,
}

/// A command as a value: its text argument taken by its characters.
pub enum CommandView {
    StartAll { side: TeamSide, stream: bool, record: bool, laser_auto: bool, radar_record: bool },
    RetryFailed,
    StartRadar { side: TeamSide, record: bool },
    StartSdr(TeamSide),
    StartLaser(StartLaserOptions),
    SendLaserCommand(Seq<char>),
    StopRadar,
    StopSdr,
    StopLaser,
    StopAll,
    Shutdown,
}

impl View for ProcessCommand {
    type V = CommandView;

    open spec fn view(&self) -> CommandView {
        match *self {
            ProcessCommand::StartAll { side, stream, record, laser_auto, radar_record } =>
                CommandView::StartAll { side, stream, record, laser_auto, radar_record },
            ProcessCommand::RetryFailed => CommandView::RetryFailed,
            ProcessCommand::StartRadar { side, record } => CommandView::StartRadar { side, record },
            ProcessCommand::StartSdr(side) => CommandView::StartSdr(side),
            ProcessCommand::StartLaser(options) => CommandView::StartLaser(options),
            ProcessCommand::SendLaserCommand(text) => CommandView::SendLaserCommand(text@),
            ProcessCommand::StopRadar => CommandView::StopRadar,
            ProcessCommand::StopSdr => CommandView::StopSdr,
            ProcessCommand::StopLaser => CommandView::StopLaser,
            ProcessCommand::StopAll => CommandView::StopAll,
            ProcessCommand::Shutdown => CommandView::Shutdown,
        }
    }
}

/// The full-start command that carries the given options.
pub open spec fn start_all_command(options: StartAllOptions) -> ProcessCommand {
    ProcessCommand::StartAll {
        side: options.side,
        stream: options.stream,
        record: options.record,
        laser_auto: options.laser_auto,
        radar_record: options.radar_record,
    }
}

impl From<StartAllOptions> for ProcessCommand {
    fn from(options: StartAllOptions) -> (r: ProcessCommand) {
        ProcessCommand::StartAll {
            side: options.side,
            stream: options.stream,
            record: options.record,
            laser_auto: options.laser_auto,
            radar_record: options.radar_record,
        }
    }
}

impl vstd::std_specs::convert::FromSpecImpl<StartAllOptions> for ProcessCommand {
    open spec fn obeys_from_spec() -> bool {
        true
    }

    open spec fn from_spec(options: StartAllOptions) -> ProcessCommand {
        start_all_command(options)
    }
}

/// What the actor knows of one component.
#[derive(Clone, Debug, PartialEq)]
pub struct ComponentSnapshot {
    pub managed: bool,
    pub active_laser: Option<LaserScript>,
}

/// A component that is not managed.
pub open spec fn cleared() -> ComponentSnapshot {
    ComponentSnapshot { managed: false, active_laser: None }
}

impl Default for ComponentSnapshot {
    fn default() -> (r: ComponentSnapshot)
        ensures
            r == cleared(),
    {
        ComponentSnapshot { managed: false, active_laser: None }
    }
}

/// What the actor publishes after every step.
#[derive(Clone, Debug, PartialEq)]
pub struct ProcessSnapshot {
    pub phase: ProcessPhase,
    pub radar: ComponentSnapshot,
    pub sdr: ComponentSnapshot,
    pub laser: ComponentSnapshot,
    pub daemon_available: bool,
    pub error: Option<String>,
}

/// A snapshot as a value: its error taken by its characters.
pub struct SnapshotView {
    pub phase: ProcessPhase,
    pub radar: ComponentSnapshot,
    pub sdr: ComponentSnapshot,
    pub laser: ComponentSnapshot,
    pub daemon_available: bool,
    pub error: Option<Seq<char>>,
}

/// The characters of an optional text.
pub open spec fn opt_text(t: Option<String>) -> Option<Seq<char>> {
    match t {
        Some(s) => Some(s@),
        None => None,
    }
}

impl View for ProcessSnapshot {
    type V = SnapshotView;

    open spec fn view(&self) -> SnapshotView {
        SnapshotView {
            phase: self.phase,
            radar: self.radar,
            sdr: self.sdr,
            laser: self.laser,
            daemon_available: self.daemon_available,
            error: opt_text(self.error),
        }
    }
}

/// The snapshot of an actor that manages nothing.
pub open spec fn initial_snapshot(daemon_available: bool) -> SnapshotView {
    SnapshotView {
        phase: ProcessPhase::Idle,
        radar: cleared(),
        sdr: cleared(),
        laser: cleared(),
        daemon_available,
        error: None,
    }
}

impl Default for ProcessSnapshot {
    fn default() -> (r: ProcessSnapshot)
        ensures
            r@ == initial_snapshot(false),
    {
        ProcessSnapshot {
            phase: ProcessPhase::Idle,
            radar: ComponentSnapshot::default(),
            sdr: ComponentSnapshot::default(),
            laser: ComponentSnapshot::default(),
            daemon_available: false,
            error: None,
        }
    }
}

/// The error of a process runtime that no longer takes commands.
#[derive(Clone, Copy, Debug, PartialEq, Eq)]
pub struct ProcessSendError;

impl ProcessSendError {
    /// The text shown for this error.
    pub fn message(&self) -> (r: &'static str)
        ensures
            r@ == "process runtime is not available"@,
    {
        "process runtime is not available"
    }
}

/// A component that has exited, with what the poll saw of it.
#[derive(Clone, Debug)]
pub struct ComponentExit {
    pub component: ProcessComponent,
    pub detail: String,
}

/// The step of a full start that runs next.
#[derive(Clone, Copy, Debug, PartialEq, Eq)]
pub enum SequenceStep {
    StartRadar,
    WaitAfterRadar,
    StartSdr,
    WaitAfterSdr,
    StartLaser,
    ConfigureLaser,
}

/// A full start under way.
#[derive(Clone, Copy, Debug, PartialEq, Eq)]
pub struct Sequence {
    pub command: StartAllOptions,
    pub step: SequenceStep,
    pub configure_attempts: u8,
}

/// A full start that stopped at a failed step, kept for a retry.
#[derive(Clone, Copy, Debug, PartialEq, Eq)]
pub struct FailedSequence {
    pub command: StartAllOptions,
    pub step: SequenceStep,
}

/// A laser FIFO configuration that waits for its next attempt.
#[derive(Clone, Copy, Debug, PartialEq, Eq)]
pub struct LaserConfiguration {
    pub side: TeamSide,
    pub laser_auto: bool,
    pub stream: bool,
    pub record: bool,
    pub attempts: u8,
}

/// The backend call whose outcome the actor waits for.
#[derive(Clone, Copy, Debug, PartialEq)]
pub enum Pending {
    SequenceStep(Sequence),
    StandaloneStart(ProcessComponent),
    StandaloneLaser(StartLaserOptions),
    StandaloneConfigure(LaserConfiguration),
    LaserCommand,
    StopAll,
    Shutdown,
}

/// Work that only the backend can do.
#[derive(Clone, Debug, PartialEq)]
pub enum BackendCall {
    StartRadar { side: TeamSide, record: bool },
    StartSdr { enemy: TeamSide },
    StartLaser { script: LaserScript },
    ConfigureLaser { enemy: &'static str, stream: bool, record: bool },
    SendLaserCommand(String),
    /// Stop the laser, then the SDR bridge, then the radar.
    StopAll,
}

/// A backend call as a value.
pub enum CallView {
    StartRadar { side: TeamSide, record: bool },
    StartSdr { enemy: TeamSide },
    StartLaser { script: LaserScript },
    ConfigureLaser { enemy: Seq<char>, stream: bool, record: bool },
    SendLaserCommand(Seq<char>),
    StopAll,
}

impl View for BackendCall {
    type V = CallView;

    open spec fn view(&self) -> CallView {
        match *self {
            BackendCall::StartRadar { side, record } => CallView::StartRadar { side, record },
            BackendCall::StartSdr { enemy } => CallView::StartSdr { enemy },
            BackendCall::StartLaser { script } => CallView::StartLaser { script },
            BackendCall::ConfigureLaser { enemy, stream, record } =>
                CallView::ConfigureLaser { enemy: enemy@, stream, record },
            BackendCall::SendLaserCommand(text) => CallView::SendLaserCommand(text@),
            BackendCall::StopAll => CallView::StopAll,
        }
    }
}

/// What the caller does after a step.
#[derive(Clone, Debug, PartialEq)]
pub enum Action {
    /// Nothing more.
    Idle,
    /// Make this call and hand its outcome back.
    Call(BackendCall),
    /// Arm the timer to fire after this many milliseconds.
    ArmTimer(u64),
}

/// An action as a value.
pub enum ActionView {
    Idle,
    Call(CallView),
    ArmTimer(u64),
}

impl View for Action {
    type V = ActionView;

    open spec fn view(&self) -> ActionView {
        match *self {
            Action::Idle => ActionView::Idle,
            Action::Call(c) => ActionView::Call(c@),
            Action::ArmTimer(ms) => ActionView::ArmTimer(ms),
        }
    }
}

/// The outcome of one input: a component to stop first, then an action.
#[derive(Clone, Debug, PartialEq)]
pub struct Step {
    pub stop_first: Option<ProcessComponent>,
    pub action: Action,
}

/// A step as a value.
pub struct StepView {
    pub stop_first: Option<ProcessComponent>,
    pub action: ActionView,
}

impl View for Step {
    type V = StepView;

    open spec fn view(&self) -> StepView {
        StepView { stop_first: self.stop_first, action: self.action@ }
    }
}

/// A step that asks for nothing.
pub open spec fn idle_step() -> StepView {
    StepView { stop_first: None, action: ActionView::Idle }
}

/// A step that makes one call.
pub open spec fn call_step(stop_first: Option<ProcessComponent>, call: CallView) -> StepView {
    StepView { stop_first, action: ActionView::Call(call) }
}

/// A step that arms the timer.
pub open spec fn timer_step(ms: u64) -> StepView {
    StepView { stop_first: None, action: ActionView::ArmTimer(ms) }
}

/// The process actor.
pub struct ProcessActor {
    pub snapshot: ProcessSnapshot,
    pub sequence: Option<Sequence>,
    pub failed: Option<FailedSequence>,
    pub laser_configuration: Option<LaserConfiguration>,
    pub timer_armed: bool,
    pub pending: Option<Pending>,
    pub finished: bool,
    pub delay_ms: u64,
}

/// The actor as a value.
pub struct ActorView {
    pub snapshot: SnapshotView,
    pub sequence: Option<Sequence>,
    pub failed: Option<FailedSequence>,
    pub laser_configuration: Option<LaserConfiguration>,
    pub timer_armed: bool,
    pub pending: Option<Pending>,
    pub finished: bool,
    pub delay_ms: u64,
}

impl View for ProcessActor {
    type V = ActorView;

    open spec fn view(&self) -> ActorView {
        ActorView {
            snapshot: self.snapshot@,
            sequence: self.sequence,
            failed: self.failed,
            laser_configuration: self.laser_configuration,
            timer_armed: self.timer_armed,
            pending: self.pending,
            finished: self.finished,
            delay_ms: self.delay_ms,
        }
    }
}

// ---------------------------------------------------------------------------
// The model.
// ---------------------------------------------------------------------------

/// The name a phase is shown by in messages.
pub open spec fn phase_name(p: ProcessPhase) -> Seq<char> {
    match p {
        ProcessPhase::Idle => "Idle"@,
        ProcessPhase::StartingRadar => "StartingRadar"@,
        ProcessPhase::WaitingForRadar => "WaitingForRadar"@,
        ProcessPhase::StartingSdr => "StartingSdr"@,
        ProcessPhase::WaitingForSdr => "WaitingForSdr"@,
        ProcessPhase::StartingLaser => "StartingLaser"@,
        ProcessPhase::ConfiguringLaser => "ConfiguringLaser"@,
        ProcessPhase::Running => "Running"@,
        ProcessPhase::Stopping => "Stopping"@,
        ProcessPhase::Failed(ProcessComponent::Radar) => "Failed(Radar)"@,
        ProcessPhase::Failed(ProcessComponent::Sdr) => "Failed(Sdr)"@,
        ProcessPhase::Failed(ProcessComponent::Laser) => "Failed(Laser)"@,
    }
}

/// The name a component is shown by in messages.
pub open spec fn component_name(c: ProcessComponent) -> Seq<char> {
    match c {
        ProcessComponent::Radar => "Radar"@,
        ProcessComponent::Sdr => "Sdr"@,
        ProcessComponent::Laser => "Laser"@,
    }
}

/// The error published when a start is refused because another start is under way.
pub open spec fn reject_text(operation: Seq<char>, phase: ProcessPhase) -> Seq<char> {
    operation + " rejected while process phase "@ + phase_name(phase)
        + " is active; current operation continues"@
}

/// The error published when a managed component exits.
pub open spec fn exit_text(c: ProcessComponent, detail: Seq<char>) -> Seq<char> {
    component_name(c) + " process exited: "@ + detail
}

/// `Running` while any component is managed, `Idle` otherwise.
pub open spec fn managed_phase_of(s: SnapshotView) -> ProcessPhase {
    if s.radar.managed || s.sdr.managed || s.laser.managed {
        ProcessPhase::Running
    } else {
        ProcessPhase::Idle
    }
}

/// The snapshot with one component replaced.
pub open spec fn set_component(s: SnapshotView, c: ProcessComponent, v: ComponentSnapshot) -> SnapshotView {
    match c {
        ProcessComponent::Radar => SnapshotView { radar: v, ..s },
        ProcessComponent::Sdr => SnapshotView { sdr: v, ..s },
        ProcessComponent::Laser => SnapshotView { laser: v, ..s },
    }
}

/// One component of a snapshot.
pub open spec fn component_of(s: SnapshotView, c: ProcessComponent) -> ComponentSnapshot {
    match c {
        ProcessComponent::Radar => s.radar,
        ProcessComponent::Sdr => s.sdr,
        ProcessComponent::Laser => s.laser,
    }
}

/// A start or a laser configuration is under way.
pub open spec fn is_busy(a: ActorView) -> bool {
    a.sequence is Some || a.laser_configuration is Some
}

/// The actor takes commands, timers, exits and probes (no call outcome is due).
pub open spec fn ready(a: ActorView) -> bool {
    a.pending is None && !a.finished
}

/// Forget any start under way, any failed start and the armed timer.
pub open spec fn reset_pending(a: ActorView) -> ActorView {
    ActorView { sequence: None, failed: None, laser_configuration: None, timer_armed: false, ..a }
}

/// Refuse a start: only the published error changes.
pub open spec fn reject(a: ActorView, operation: Seq<char>) -> (ActorView, StepView) {
    (
        ActorView {
            snapshot: SnapshotView {
                error: Some(reject_text(operation, a.snapshot.phase)),
                ..a.snapshot
            },
            ..a
        },
        idle_step(),
    )
}

/// The component stop that precedes a start: only a managed component is stopped.
pub open spec fn stop_if_managed(s: SnapshotView, c: ProcessComponent) -> Option<ProcessComponent> {
    if component_of(s, c).managed {
        Some(c)
    } else {
        None
    }
}

/// Run the step of a full start that is due (the sequence has been taken out of the actor).
pub open spec fn advance(a: ActorView, seq: Sequence) -> (ActorView, StepView) {
    let s = a.snapshot;
    let o = seq.command;
    match seq.step {
        SequenceStep::StartRadar => (
            ActorView {
                snapshot: SnapshotView {
                    phase: ProcessPhase::StartingRadar,
                    error: None,
                    radar: cleared(),
                    ..s
                },
                sequence: None,
                pending: Some(Pending::SequenceStep(seq)),
                ..a
            },
            call_step(
                stop_if_managed(s, ProcessComponent::Radar),
                CallView::StartRadar { side: o.side, record: o.radar_record },
            ),
        ),
        SequenceStep::WaitAfterRadar | SequenceStep::StartSdr => (
            ActorView {
                snapshot: SnapshotView { phase: ProcessPhase::StartingSdr, sdr: cleared(), ..s },
                sequence: None,
                pending: Some(Pending::SequenceStep(Sequence { step: SequenceStep::StartSdr, ..seq })),
                ..a
            },
            call_step(
                stop_if_managed(s, ProcessComponent::Sdr),
                CallView::StartSdr { enemy: spec_enemy(o.side) },
            ),
        ),
        SequenceStep::WaitAfterSdr | SequenceStep::StartLaser => (
            ActorView {
                snapshot: SnapshotView { phase: ProcessPhase::StartingLaser, laser: cleared(), ..s },
                sequence: None,
                pending: Some(Pending::SequenceStep(Sequence { step: SequenceStep::StartLaser, ..seq })),
                ..a
            },
            call_step(
                stop_if_managed(s, ProcessComponent::Laser),
                CallView::StartLaser { script: LaserScript::Competition },
            ),
        ),
        SequenceStep::ConfigureLaser => (
            ActorView {
                snapshot: SnapshotView { phase: ProcessPhase::ConfiguringLaser, ..s },
                sequence: None,
                pending: Some(Pending::SequenceStep(seq)),
                ..a
            },
            call_step(
                None,
                CallView::ConfigureLaser {
                    enemy: enemy_command(o.side, o.laser_auto),
                    stream: o.stream,
                    record: o.record,
                },
            ),
        ),
    }
}

/// Start one component on its own.
pub open spec fn start_component(a: ActorView, c: ProcessComponent, phase: ProcessPhase, call: CallView, pending: Pending) -> (ActorView, StepView) {
    let b = reset_pending(a);
    let s = b.snapshot;
    (
        ActorView {
            snapshot: set_component(SnapshotView { phase, error: None, ..s }, c, cleared()),
            pending: Some(pending),
            ..b
        },
        call_step(stop_if_managed(s, c), call),
    )
}

/// Stop one component on its own.
pub open spec fn stop_component(a: ActorView, c: ProcessComponent) -> (ActorView, StepView) {
    let b = reset_pending(a);
    let s = set_component(b.snapshot, c, cleared());
    (
        ActorView { snapshot: SnapshotView { phase: managed_phase_of(s), ..s }, ..b },
        StepView { stop_first: Some(c), action: ActionView::Idle },
    )
}

/// Send the laser FIFO configuration of a laser started on its own.
pub open spec fn configure_standalone(a: ActorView, cfg: LaserConfiguration) -> (ActorView, StepView) {
    (
        ActorView {
            snapshot: SnapshotView { phase: ProcessPhase::ConfiguringLaser, ..a.snapshot },
            laser_configuration: None,
            pending: Some(Pending::StandaloneConfigure(cfg)),
            ..a
        },
        call_step(
            None,
            CallView::ConfigureLaser {
                enemy: enemy_command(cfg.side, cfg.laser_auto),
                stream: cfg.stream,
                record: cfg.record,
            },
        ),
    )
}

/// What a command does.
pub open spec fn on_command(a: ActorView, c: CommandView) -> (ActorView, StepView) {
    match c {
        CommandView::StartAll { side, stream, record, laser_auto, radar_record } => if is_busy(a) {
            reject(a, "Start All"@)
        } else {
            advance(
                reset_pending(a),
                Sequence {
                    command: StartAllOptions { side, stream, record, laser_auto, radar_record },
                    step: SequenceStep::StartRadar,
                    configure_attempts: 0,
                },
            )
        },
        CommandView::RetryFailed => match a.failed {
            Some(f) => advance(
                ActorView { failed: None, ..a },
                Sequence { command: f.command, step: f.step, configure_attempts: 0 },
            ),
            None => (a, idle_step()),
        },
        CommandView::StartRadar { side, record } => if is_busy(a) {
            reject(a, "Radar start"@)
        } else {
            start_component(
                a,
                ProcessComponent::Radar,
                ProcessPhase::StartingRadar,
                CallView::StartRadar { side, record },
                Pending::StandaloneStart(ProcessComponent::Radar),
            )
        },
        CommandView::StartSdr(side) => if is_busy(a) {
            reject(a, "SDR start"@)
        } else {
            start_component(
                a,
                ProcessComponent::Sdr,
                ProcessPhase::StartingSdr,
                CallView::StartSdr { enemy: spec_enemy(side) },
                Pending::StandaloneStart(ProcessComponent::Sdr),
            )
        },
        CommandView::StartLaser(options) => if is_busy(a) {
            reject(a, "Laser start"@)
        } else {
            start_component(
                a,
                ProcessComponent::Laser,
                ProcessPhase::StartingLaser,
                CallView::StartLaser { script: options.script },
                Pending::StandaloneLaser(options),
            )
        },
        CommandView::SendLaserCommand(text) => (
            ActorView { pending: Some(Pending::LaserCommand), ..a },
            call_step(None, CallView::SendLaserCommand(text)),
        ),
        CommandView::StopRadar => stop_component(a, ProcessComponent::Radar),
        CommandView::StopSdr => stop_component(a, ProcessComponent::Sdr),
        CommandView::StopLaser => stop_component(a, ProcessComponent::Laser),
        CommandView::StopAll => {
            let b = reset_pending(a);
            (
                ActorView {
                    snapshot: SnapshotView { phase: ProcessPhase::Stopping, error: None, ..b.snapshot },
                    pending: Some(Pending::StopAll),
                    ..b
                },
                call_step(None, CallView::StopAll),
            )
        },
        CommandView::Shutdown => (
            ActorView {
                snapshot: SnapshotView { phase: ProcessPhase::Stopping, error: None, ..a.snapshot },
                pending: Some(Pending::Shutdown),
                ..a
            },
            call_step(None, CallView::StopAll),
        ),
    }
}

/// The outcome of a backend call as a value.
pub open spec fn outcome_view(r: Result<(), String>) -> Result<(), Seq<char>> {
    match r {
        Ok(()) => Ok(()),
        Err(e) => Err(e@),
    }
}

/// A step of a full start failed: remember where, and fail the component.
pub open spec fn sequence_failed(a: ActorView, seq: Sequence, c: ProcessComponent, e: Seq<char>) -> (ActorView, StepView) {
    (
        ActorView {
            snapshot: SnapshotView { phase: ProcessPhase::Failed(c), error: Some(e), ..a.snapshot },
            failed: Some(FailedSequence { command: seq.command, step: seq.step }),
            ..a
        },
        idle_step(),
    )
}

/// A component failed outside a full start.
pub open spec fn component_failed(a: ActorView, c: ProcessComponent, e: Seq<char>) -> (ActorView, StepView) {
    (
        ActorView {
            snapshot: SnapshotView { phase: ProcessPhase::Failed(c), error: Some(e), ..a.snapshot },
            ..a
        },
        idle_step(),
    )
}

/// A component that the backend has started.
pub open spec fn managed(script: Option<LaserScript>) -> ComponentSnapshot {
    ComponentSnapshot { managed: true, active_laser: script }
}

/// What the outcome of a step of a full start does (`a` no longer waits for it).
pub open spec fn on_sequence_outcome(a: ActorView, seq: Sequence, r: Result<(), Seq<char>>) -> (ActorView, StepView) {
    let s = a.snapshot;
    match seq.step {
        SequenceStep::StartRadar => match r {
            Ok(()) => (
                ActorView {
                    snapshot: SnapshotView {
                        radar: ComponentSnapshot { managed: true, ..s.radar },
                        phase: ProcessPhase::WaitingForRadar,
                        ..s
                    },
                    sequence: Some(Sequence { step: SequenceStep::WaitAfterRadar, ..seq }),
                    timer_armed: true,
                    ..a
                },
                timer_step(a.delay_ms),
            ),
            Err(e) => sequence_failed(a, seq, ProcessComponent::Radar, e),
        },
        SequenceStep::StartSdr => match r {
            Ok(()) => (
                ActorView {
                    snapshot: SnapshotView {
                        sdr: ComponentSnapshot { managed: true, ..s.sdr },
                        phase: ProcessPhase::WaitingForSdr,
                        ..s
                    },
                    sequence: Some(Sequence { step: SequenceStep::WaitAfterSdr, ..seq }),
                    timer_armed: true,
                    ..a
                },
                timer_step(a.delay_ms),
            ),
            Err(e) => sequence_failed(a, seq, ProcessComponent::Sdr, e),
        },
        SequenceStep::StartLaser => match r {
            Ok(()) => advance(
                ActorView {
                    snapshot: SnapshotView { laser: managed(Some(LaserScript::Competition)), ..s },
                    ..a
                },
                Sequence { step: SequenceStep::ConfigureLaser, ..seq },
            ),
            Err(e) => sequence_failed(a, seq, ProcessComponent::Laser, e),
        },
        SequenceStep::ConfigureLaser => match r {
            Ok(()) => (
                ActorView {
                    snapshot: SnapshotView { phase: ProcessPhase::Running, error: None, ..s },
                    ..a
                },
                idle_step(),
            ),
            Err(e) => if seq.configure_attempts + 1 < FIFO_ATTEMPTS {
                (
                    ActorView {
                        snapshot: SnapshotView { error: Some(e), ..s },
                        sequence: Some(
                            Sequence { configure_attempts: (seq.configure_attempts + 1) as u8, ..seq },
                        ),
                        timer_armed: true,
                        ..a
                    },
                    timer_step(FIFO_RETRY_DELAY_MS),
                )
            } else {
                sequence_failed(a, seq, ProcessComponent::Laser, e)
            },
        },
        SequenceStep::WaitAfterRadar | SequenceStep::WaitAfterSdr => (a, idle_step()),
    }
}

/// What the outcome of a laser FIFO configuration of a laser started on its
/// own does (`a` no longer waits for it).
pub open spec fn on_configure_outcome(a: ActorView, cfg: LaserConfiguration, r: Result<(), Seq<char>>) -> (ActorView, StepView) {
    match r {
        Ok(()) => (
            ActorView {
                snapshot: SnapshotView { phase: ProcessPhase::Running, error: None, ..a.snapshot },
                ..a
            },
            idle_step(),
        ),
        Err(e) => if cfg.attempts + 1 < FIFO_ATTEMPTS {
            (
                ActorView {
                    snapshot: SnapshotView { error: Some(e), ..a.snapshot },
                    laser_configuration: Some(
                        LaserConfiguration { attempts: (cfg.attempts + 1) as u8, ..cfg },
                    ),
                    timer_armed: true,
                    ..a
                },
                timer_step(FIFO_RETRY_DELAY_MS),
            )
        } else {
            component_failed(a, ProcessComponent::Laser, e)
        },
    }
}

/// The configuration that a laser start asks for, when it asks for one.
pub open spec fn laser_configuration_of(o: StartLaserOptions) -> LaserConfiguration {
    LaserConfiguration {
        side: o.side,
        laser_auto: o.laser_auto,
        stream: o.stream,
        record: o.record,
        attempts: 0,
    }
}

/// What the outcome of the call that the actor waits for does.
pub open spec fn on_outcome(a: ActorView, r: Result<(), Seq<char>>) -> (ActorView, StepView) {
    let b = ActorView { pending: None, ..a };
    let s = b.snapshot;
    match a.pending {
        Some(Pending::SequenceStep(seq)) => on_sequence_outcome(b, seq, r),
        Some(Pending::StandaloneStart(c)) => match r {
            Ok(()) => (
                ActorView {
                    snapshot: set_component(
                        SnapshotView { phase: ProcessPhase::Running, error: None, ..s },
                        c,
                        ComponentSnapshot { managed: true, ..component_of(s, c) },
                    ),
                    ..b
                },
                idle_step(),
            ),
            Err(e) => component_failed(b, c, e),
        },
        Some(Pending::StandaloneLaser(o)) => match r {
            Ok(()) => {
                let started = ActorView {
                    snapshot: SnapshotView { laser: managed(Some(o.script)), ..s },
                    ..b
                };
                if o.configure {
                    configure_standalone(started, laser_configuration_of(o))
                } else {
                    (
                        ActorView {
                            snapshot: SnapshotView { phase: ProcessPhase::Running, ..started.snapshot },
                            ..started
                        },
                        idle_step(),
                    )
                }
            },
            Err(e) => component_failed(b, ProcessComponent::Laser, e),
        },
        Some(Pending::StandaloneConfigure(cfg)) => on_configure_outcome(b, cfg, r),
        Some(Pending::LaserCommand) => match r {
            Ok(()) => (b, idle_step()),
            Err(e) => (ActorView { snapshot: SnapshotView { error: Some(e), ..s }, ..b }, idle_step()),
        },
        Some(Pending::StopAll) => (
            ActorView { snapshot: initial_snapshot(s.daemon_available), ..b },
            idle_step(),
        ),
        Some(Pending::Shutdown) => (
            ActorView { snapshot: initial_snapshot(s.daemon_available), finished: true, ..b },
            idle_step(),
        ),
        None => (a, idle_step()),
    }
}

/// What a fired timer does.
pub open spec fn on_deadline(a: ActorView) -> (ActorView, StepView) {
    let b = ActorView { timer_armed: false, ..a };
    match a.sequence {
        Some(seq) => advance(ActorView { sequence: None, ..b }, seq),
        None => match a.laser_configuration {
            Some(cfg) => configure_standalone(b, cfg),
            None => (b, idle_step()),
        },
    }
}

/// An exit as a value.
pub open spec fn exit_view(e: ComponentExit) -> (ProcessComponent, Seq<char>) {
    (e.component, e.detail@)
}

/// The snapshot after one component exit.
pub open spec fn apply_exit(s: SnapshotView, e: (ProcessComponent, Seq<char>)) -> SnapshotView {
    SnapshotView {
        phase: ProcessPhase::Failed(e.0),
        error: Some(exit_text(e.0, e.1)),
        ..set_component(s, e.0, cleared())
    }
}

/// The snapshot after the exits, in the order they were seen.
pub open spec fn apply_exits(s: SnapshotView, exits: Seq<(ProcessComponent, Seq<char>)>) -> SnapshotView
    decreases exits.len(),
{
    if exits.len() == 0 {
        s
    } else {
        apply_exit(apply_exits(s, exits.drop_last()), exits.last())
    }
}

/// What the exits seen by one poll do: any exit cancels what is pending.
pub open spec fn on_exits(a: ActorView, exits: Seq<(ProcessComponent, Seq<char>)>) -> ActorView {
    if exits.len() == 0 {
        a
    } else {
        ActorView { snapshot: apply_exits(a.snapshot, exits), ..reset_pending(a) }
    }
}

/// What the daemon probe does.
pub open spec fn on_daemon(a: ActorView, available: bool) -> ActorView {
    ActorView { snapshot: SnapshotView { daemon_available: available, ..a.snapshot }, ..a }
}

/// A fresh actor.
pub open spec fn initial_actor(delay_ms: u64) -> ActorView {
    ActorView {
        snapshot: initial_snapshot(false),
        sequence: None,
        failed: None,
        laser_configuration: None,
        timer_armed: false,
        pending: None,
        finished: false,
        delay_ms,
    }
}

// ---------------------------------------------------------------------------
// The executable actor.
// ---------------------------------------------------------------------------

impl ProcessPhase {
    /// The name this phase is shown by in messages.
    pub fn name(&self) -> (r: &'static str)
        ensures
            r@ == phase_name(*self),
    {
        match self {
            ProcessPhase::Idle => "Idle",
            ProcessPhase::StartingRadar => "StartingRadar",
            ProcessPhase::WaitingForRadar => "WaitingForRadar",
            ProcessPhase::StartingSdr => "StartingSdr",
            ProcessPhase::WaitingForSdr => "WaitingForSdr",
            ProcessPhase::StartingLaser => "StartingLaser",
            ProcessPhase::ConfiguringLaser => "ConfiguringLaser",
            ProcessPhase::Running => "Running",
            ProcessPhase::Stopping => "Stopping",
            ProcessPhase::Failed(ProcessComponent::Radar) => "Failed(Radar)",
            ProcessPhase::Failed(ProcessComponent::Sdr) => "Failed(Sdr)",
            ProcessPhase::Failed(ProcessComponent::Laser) => "Failed(Laser)",
        }
    }
}

impl ProcessComponent {
    /// The name this component is shown by in messages.
    pub fn name(&self) -> (r: &'static str)
        ensures
            r@ == component_name(*self),
    {
        match self {
            ProcessComponent::Radar => "Radar",
            ProcessComponent::Sdr => "Sdr",
            ProcessComponent::Laser => "Laser",
        }
    }
}

/// `Running` while any component is managed, `Idle` otherwise.
pub fn managed_phase(snapshot: &ProcessSnapshot) -> (r: ProcessPhase)
    ensures
        r == managed_phase_of(snapshot@),
{
    if snapshot.radar.managed || snapshot.sdr.managed || snapshot.laser.managed {
        ProcessPhase::Running
    } else {
        ProcessPhase::Idle
    }
}

/// The text of a refused start.
fn reject_message(operation: &str, phase: ProcessPhase) -> (r: String)
    ensures
        r@ == reject_text(operation@, phase),
{
    let mut s = String::from_str(operation);
    s.append(" rejected while process phase ");
    s.append(phase.name());
    s.append(" is active; current operation continues");
    s
}

/// The text of a component exit.
fn exit_message(component: ProcessComponent, detail: &str) -> (r: String)
    ensures
        r@ == exit_text(component, detail@),
{
    let mut s = String::from_str(component.name());
    s.append(" process exited: ");
    s.append(detail);
    s
}

impl ProcessActor {
    /// A fresh actor whose full start waits `delay_ms` after the radar and after the SDR bridge.
    pub fn new(delay_ms: u64) -> (r: ProcessActor)
        ensures
            r@ == initial_actor(delay_ms),
    {
        ProcessActor {
            snapshot: ProcessSnapshot::default(),
            sequence: None,
            failed: None,
            laser_configuration: None,
            timer_armed: false,
            pending: None,
            finished: false,
            delay_ms,
        }
    }

    /// The snapshot to publish.
    pub fn snapshot(&self) -> (r: &ProcessSnapshot)
        ensures
            r@ == self@.snapshot,
    {
        &self.snapshot
    }

    /// Whether the actor has shut down.
    pub fn is_finished(&self) -> (r: bool)
        ensures
            r == self@.finished,
    {
        self.finished
    }

    /// Whether the actor waits for a timer.
    pub fn is_timer_armed(&self) -> (r: bool)
        ensures
            r == self@.timer_armed,
    {
        self.timer_armed
    }

    /// Whether the actor waits for the outcome of a call.
    pub fn is_awaiting(&self) -> (r: bool)
        ensures
            r == (self@.pending is Some),
    {
        self.pending.is_some()
    }

    fn reset_pending(&mut self)
        ensures
            final(self)@ == reset_pending(old(self)@),
    {
        self.sequence = None;
        self.failed = None;
        self.laser_configuration = None;
        self.timer_armed = false;
    }

    fn set_component(&mut self, c: ProcessComponent, v: ComponentSnapshot)
        ensures
            final(self)@ == (ActorView { snapshot: set_component(old(self)@.snapshot, c, v), ..old(self)@ }),
    {
        match c {
            ProcessComponent::Radar => self.snapshot.radar = v,
            ProcessComponent::Sdr => self.snapshot.sdr = v,
            ProcessComponent::Laser => self.snapshot.laser = v,
        }
    }

    fn is_managed(&self, c: ProcessComponent) -> (r: bool)
        ensures
            r == component_of(self@.snapshot, c).managed,
    {
        match c {
            ProcessComponent::Radar => self.snapshot.radar.managed,
            ProcessComponent::Sdr => self.snapshot.sdr.managed,
            ProcessComponent::Laser => self.snapshot.laser.managed,
        }
    }

    fn stop_if_managed(&self, c: ProcessComponent) -> (r: Option<ProcessComponent>)
        ensures
            r == stop_if_managed(self@.snapshot, c),
    {
        if self.is_managed(c) {
            Some(c)
        } else {
            None
        }
    }

    /// Refuses the start named `operation` when a full start or a laser
    /// configuration is under way: then only the published error changes, to a
    /// text that names the operation and the current phase, and `true` comes
    /// back. Otherwise nothing changes and `false` comes back.
    pub fn reject_start_if_busy(&mut self, operation: &str) -> (rejected: bool)
        ensures
            rejected == is_busy(old(self)@),
            rejected ==> final(self)@ == reject(old(self)@, operation@).0,
            !rejected ==> final(self)@ == old(self)@,
    {
        if self.sequence.is_none() && self.laser_configuration.is_none() {
            return false;
        }
        let text = reject_message(operation, self.snapshot.phase);
        self.snapshot.error = Some(text);
        true
    }

    fn advance(&mut self, seq: Sequence) -> (step: Step)
        ensures
            (final(self)@, step@) == advance(old(self)@, seq),
    {
        let o = seq.command;
        match seq.step {
            SequenceStep::StartRadar => {
                let stop = self.stop_if_managed(ProcessComponent::Radar);
                self.snapshot.phase = ProcessPhase::StartingRadar;
                self.snapshot.error = None;
                self.snapshot.radar = ComponentSnapshot::default();
                self.sequence = None;
                self.pending = Some(Pending::SequenceStep(seq));
                Step {
                    stop_first: stop,
                    action: Action::Call(BackendCall::StartRadar { side: o.side, record: o.radar_record }),
                }
            },
            SequenceStep::WaitAfterRadar | SequenceStep::StartSdr => {
                let stop = self.stop_if_managed(ProcessComponent::Sdr);
                self.snapshot.phase = ProcessPhase::StartingSdr;
                self.snapshot.sdr = ComponentSnapshot::default();
                self.sequence = None;
                self.pending = Some(Pending::SequenceStep(Sequence { step: SequenceStep::StartSdr, ..seq }));
                Step {
                    stop_first: stop,
                    action: Action::Call(BackendCall::StartSdr { enemy: o.side.enemy() }),
                }
            },
            SequenceStep::WaitAfterSdr | SequenceStep::StartLaser => {
                let stop = self.stop_if_managed(ProcessComponent::Laser);
                self.snapshot.phase = ProcessPhase::StartingLaser;
                self.snapshot.laser = ComponentSnapshot::default();
                self.sequence = None;
                self.pending = Some(Pending::SequenceStep(Sequence { step: SequenceStep::StartLaser, ..seq }));
                Step {
                    stop_first: stop,
                    action: Action::Call(BackendCall::StartLaser { script: LaserScript::Competition }),
                }
            },
            SequenceStep::ConfigureLaser => {
                self.snapshot.phase = ProcessPhase::ConfiguringLaser;
                self.sequence = None;
                self.pending = Some(Pending::SequenceStep(seq));
                Step {
                    stop_first: None,
                    action: Action::Call(BackendCall::ConfigureLaser {
                        enemy: o.side.laser_enemy_command(o.laser_auto),
                        stream: o.stream,
                        record: o.record,
                    }),
                }
            },
        }
    }

    fn start_component(&mut self, c: ProcessComponent, phase: ProcessPhase, call: BackendCall, pending: Pending) -> (step: Step)
        ensures
            (final(self)@, step@) == start_component(old(self)@, c, phase, call@, pending),
    {
        self.reset_pending();
        let stop = self.stop_if_managed(c);
        self.snapshot.phase = phase;
        self.snapshot.error = None;
        self.set_component(c, ComponentSnapshot::default());
        self.pending = Some(pending);
        Step { stop_first: stop, action: Action::Call(call) }
    }

    fn stop_component(&mut self, c: ProcessComponent) -> (step: Step)
        ensures
            (final(self)@, step@) == stop_component(old(self)@, c),
    {
        self.reset_pending();
        self.set_component(c, ComponentSnapshot::default());
        self.snapshot.phase = managed_phase(&self.snapshot);
        Step { stop_first: Some(c), action: Action::Idle }
    }

    fn configure_standalone(&mut self, cfg: LaserConfiguration) -> (step: Step)
        ensures
            (final(self)@, step@) == configure_standalone(old(self)@, cfg),
    {
        self.snapshot.phase = ProcessPhase::ConfiguringLaser;
        self.laser_configuration = None;
        self.pending = Some(Pending::StandaloneConfigure(cfg));
        Step {
            stop_first: None,
            action: Action::Call(BackendCall::ConfigureLaser {
                enemy: cfg.side.laser_enemy_command(cfg.laser_auto),
                stream: cfg.stream,
                record: cfg.record,
            }),
        }
    }

    /// Takes one command. The caller stops `stop_first` (if any), publishes the
    /// snapshot, then performs the action.
    pub fn handle_command(&mut self, command: ProcessCommand) -> (step: Step)
        requires
            ready(old(self)@),
        ensures
            (final(self)@, step@) == on_command(old(self)@, command@),
    {
        match command {
            ProcessCommand::StartAll { side, stream, record, laser_auto, radar_record } => {
                if self.reject_start_if_busy("Start All") {
                    Step { stop_first: None, action: Action::Idle }
                } else {
                    self.reset_pending();
                    self.advance(Sequence {
                        command: StartAllOptions { side, stream, record, laser_auto, radar_record },
                        step: SequenceStep::StartRadar,
                        configure_attempts: 0,
                    })
                }
            },
            ProcessCommand::RetryFailed => {
                match self.failed {
                    Some(f) => {
                        self.failed = None;
                        self.advance(Sequence { command: f.command, step: f.step, configure_attempts: 0 })
                    },
                    None => Step { stop_first: None, action: Action::Idle },
                }
            },
            ProcessCommand::StartRadar { side, record } => {
                if self.reject_start_if_busy("Radar start") {
                    Step { stop_first: None, action: Action::Idle }
                } else {
                    self.start_component(
                        ProcessComponent::Radar,
                        ProcessPhase::StartingRadar,
                        BackendCall::StartRadar { side, record },
                        Pending::StandaloneStart(ProcessComponent::Radar),
                    )
                }
            },
            ProcessCommand::StartSdr(side) => {
                if self.reject_start_if_busy("SDR start") {
                    Step { stop_first: None, action: Action::Idle }
                } else {
                    self.start_component(
                        ProcessComponent::Sdr,
                        ProcessPhase::StartingSdr,
                        BackendCall::StartSdr { enemy: side.enemy() },
                        Pending::StandaloneStart(ProcessComponent::Sdr),
                    )
                }
            },
            ProcessCommand::StartLaser(options) => {
                if self.reject_start_if_busy("Laser start") {
                    Step { stop_first: None, action: Action::Idle }
                } else {
                    self.start_component(
                        ProcessComponent::Laser,
                        ProcessPhase::StartingLaser,
                        BackendCall::StartLaser { script: options.script },
                        Pending::StandaloneLaser(options),
                    )
                }
            },
            ProcessCommand::SendLaserCommand(text) => {
                self.pending = Some(Pending::LaserCommand);
                Step { stop_first: None, action: Action::Call(BackendCall::SendLaserCommand(text)) }
            },
            ProcessCommand::StopRadar => self.stop_component(ProcessComponent::Radar),
            ProcessCommand::StopSdr => self.stop_component(ProcessComponent::Sdr),
            ProcessCommand::StopLaser => self.stop_component(ProcessComponent::Laser),
            ProcessCommand::StopAll => {
                self.reset_pending();
                self.snapshot.phase = ProcessPhase::Stopping;
                self.snapshot.error = None;
                self.pending = Some(Pending::StopAll);
                Step { stop_first: None, action: Action::Call(BackendCall::StopAll) }
            },
            ProcessCommand::Shutdown => {
                self.snapshot.phase = ProcessPhase::Stopping;
                self.snapshot.error = None;
                self.pending = Some(Pending::Shutdown);
                Step { stop_first: None, action: Action::Call(BackendCall::StopAll) }
            },
        }
    }

    fn sequence_failed(&mut self, seq: Sequence, c: ProcessComponent, e: String) -> (step: Step)
        ensures
            (final(self)@, step@) == sequence_failed(old(self)@, seq, c, e@),
    {
        self.snapshot.phase = ProcessPhase::Failed(c);
        self.snapshot.error = Some(e);
        self.failed = Some(FailedSequence { command: seq.command, step: seq.step });
        Step { stop_first: None, action: Action::Idle }
    }

    fn component_failed(&mut self, c: ProcessComponent, e: String) -> (step: Step)
        ensures
            (final(self)@, step@) == component_failed(old(self)@, c, e@),
    {
        self.snapshot.phase = ProcessPhase::Failed(c);
        self.snapshot.error = Some(e);
        Step { stop_first: None, action: Action::Idle }
    }

    fn on_sequence_outcome(&mut self, seq: Sequence, outcome: Result<(), String>) -> (step: Step)
        ensures
            (final(self)@, step@) == on_sequence_outcome(old(self)@, seq, outcome_view(outcome)),
    {
        match seq.step {
            SequenceStep::StartRadar => match outcome {
                Ok(()) => {
                    self.snapshot.radar.managed = true;
                    self.snapshot.phase = ProcessPhase::WaitingForRadar;
                    self.sequence = Some(Sequence { step: SequenceStep::WaitAfterRadar, ..seq });
                    self.timer_armed = true;
                    Step { stop_first: None, action: Action::ArmTimer(self.delay_ms) }
                },
                Err(e) => self.sequence_failed(seq, ProcessComponent::Radar, e),
            },
            SequenceStep::StartSdr => match outcome {
                Ok(()) => {
                    self.snapshot.sdr.managed = true;
                    self.snapshot.phase = ProcessPhase::WaitingForSdr;
                    self.sequence = Some(Sequence { step: SequenceStep::WaitAfterSdr, ..seq });
                    self.timer_armed = true;
                    Step { stop_first: None, action: Action::ArmTimer(self.delay_ms) }
                },
                Err(e) => self.sequence_failed(seq, ProcessComponent::Sdr, e),
            },
            SequenceStep::StartLaser => match outcome {
                Ok(()) => {
                    self.snapshot.laser = ComponentSnapshot {
                        managed: true,
                        active_laser: Some(LaserScript::Competition),
                    };
                    self.advance(Sequence { step: SequenceStep::ConfigureLaser, ..seq })
                },
                Err(e) => self.sequence_failed(seq, ProcessComponent::Laser, e),
            },
            SequenceStep::ConfigureLaser => match outcome {
                Ok(()) => {
                    self.snapshot.phase = ProcessPhase::Running;
                    self.snapshot.error = None;
                    Step { stop_first: None, action: Action::Idle }
                },
                Err(e) => {
                    if seq.configure_attempts < FIFO_ATTEMPTS - 1 {
                        self.snapshot.error = Some(e);
                        self.sequence = Some(Sequence { configure_attempts: seq.configure_attempts + 1, ..seq });
                        self.timer_armed = true;
                        Step { stop_first: None, action: Action::ArmTimer(FIFO_RETRY_DELAY_MS) }
                    } else {
                        self.sequence_failed(seq, ProcessComponent::Laser, e)
                    }
                },
            },
            SequenceStep::WaitAfterRadar | SequenceStep::WaitAfterSdr => {
                Step { stop_first: None, action: Action::Idle }
            },
        }
    }

    fn on_configure_outcome(&mut self, cfg: LaserConfiguration, outcome: Result<(), String>) -> (step: Step)
        ensures
            (final(self)@, step@) == on_configure_outcome(old(self)@, cfg, outcome_view(outcome)),
    {
        match outcome {
            Ok(()) => {
                self.snapshot.phase = ProcessPhase::Running;
                self.snapshot.error = None;
                Step { stop_first: None, action: Action::Idle }
            },
            Err(e) => {
                if cfg.attempts < FIFO_ATTEMPTS - 1 {
                    self.snapshot.error = Some(e);
                    self.laser_configuration = Some(LaserConfiguration { attempts: cfg.attempts + 1, ..cfg });
                    self.timer_armed = true;
                    Step { stop_first: None, action: Action::ArmTimer(FIFO_RETRY_DELAY_MS) }
                } else {
                    self.component_failed(ProcessComponent::Laser, e)
                }
            },
        }
    }

    /// Takes the outcome of the call that the last step asked for; the error
    /// text is what the operator is shown. `StopAll` always completes with `Ok`.
    pub fn handle_outcome(&mut self, outcome: Result<(), String>) -> (step: Step)
        requires
            old(self)@.pending is Some,
        ensures
            (final(self)@, step@) == on_outcome(old(self)@, outcome_view(outcome)),
    {
        let pending = self.pending;
        self.pending = None;
        match pending {
            Some(Pending::SequenceStep(seq)) => self.on_sequence_outcome(seq, outcome),
            Some(Pending::StandaloneStart(c)) => match outcome {
                Ok(()) => {
                    self.snapshot.phase = ProcessPhase::Running;
                    self.snapshot.error = None;
                    match c {
                        ProcessComponent::Radar => self.snapshot.radar.managed = true,
                        ProcessComponent::Sdr => self.snapshot.sdr.managed = true,
                        ProcessComponent::Laser => self.snapshot.laser.managed = true,
                    }
                    Step { stop_first: None, action: Action::Idle }
                },
                Err(e) => self.component_failed(c, e),
            },
            Some(Pending::StandaloneLaser(o)) => match outcome {
                Ok(()) => {
                    self.snapshot.laser = ComponentSnapshot { managed: true, active_laser: Some(o.script) };
                    if o.configure {
                        self.configure_standalone(LaserConfiguration {
                            side: o.side,
                            laser_auto: o.laser_auto,
                            stream: o.stream,
                            record: o.record,
                            attempts: 0,
                        })
                    } else {
                        self.snapshot.phase = ProcessPhase::Running;
                        Step { stop_first: None, action: Action::Idle }
                    }
                },
                Err(e) => self.component_failed(ProcessComponent::Laser, e),
            },
            Some(Pending::StandaloneConfigure(cfg)) => self.on_configure_outcome(cfg, outcome),
            Some(Pending::LaserCommand) => {
                match outcome {
                    Ok(()) => {},
                    Err(e) => self.snapshot.error = Some(e),
                }
                Step { stop_first: None, action: Action::Idle }
            },
            Some(Pending::StopAll) => {
                let daemon_available = self.snapshot.daemon_available;
                self.snapshot = ProcessSnapshot::default();
                self.snapshot.daemon_available = daemon_available;
                Step { stop_first: None, action: Action::Idle }
            },
            Some(Pending::Shutdown) => {
                let daemon_available = self.snapshot.daemon_available;
                self.snapshot = ProcessSnapshot::default();
                self.snapshot.daemon_available = daemon_available;
                self.finished = true;
                Step { stop_first: None, action: Action::Idle }
            },
            None => Step { stop_first: None, action: Action::Idle },
        }
    }

    /// Takes the firing of the armed timer.
    pub fn handle_deadline(&mut self) -> (step: Step)
        requires
            ready(old(self)@),
        ensures
            (final(self)@, step@) == on_deadline(old(self)@),
    {
        self.timer_armed = false;
        match self.sequence {
            Some(seq) => {
                self.sequence = None;
                self.advance(seq)
            },
            None => match self.laser_configuration {
                Some(cfg) => self.configure_standalone(cfg),
                None => Step { stop_first: None, action: Action::Idle },
            },
        }
    }

    /// Takes the component exits seen by one poll, in order.
    pub fn handle_exits(&mut self, exits: Vec<ComponentExit>)
        requires
            ready(old(self)@),
        ensures
            final(self)@ == on_exits(old(self)@, exits@.map_values(|e: ComponentExit| exit_view(e))),
    {
        let ghost ev = exits@.map_values(|e: ComponentExit| exit_view(e));
        let ghost a0 = self@;
        if exits.len() == 0 {
            assert(ev.len() == 0);
            return;
        }
        self.reset_pending();
        let mut i: usize = 0;
        while i < exits.len()
            invariant
                0 <= i <= exits.len(),
                ev == exits@.map_values(|e: ComponentExit| exit_view(e)),
                self@ == (ActorView { snapshot: apply_exits(a0.snapshot, ev.take(i as int)), ..reset_pending(a0) }),
            decreases exits.len() - i,
        {
            let c = exits[i].component;
            let text = exit_message(c, exits[i].detail.as_str());
            self.set_component(c, ComponentSnapshot::default());
            self.snapshot.phase = ProcessPhase::Failed(c);
            self.snapshot.error = Some(text);
            proof {
                assert(ev.take(i as int + 1).drop_last() =~= ev.take(i as int));
                assert(ev.take(i as int + 1).last() == ev[i as int]);
            }
            i = i + 1;
        }
        assert(ev.take(exits.len() as int) =~= ev);
    }

    /// Takes the result of the daemon probe; returns whether the snapshot changed.
    pub fn handle_daemon(&mut self, available: bool) -> (changed: bool)
        ensures
            final(self)@ == on_daemon(old(self)@, available),
            changed == (old(self)@.snapshot.daemon_available != available),
    {
        let changed = self.snapshot.daemon_available != available;
        self.snapshot.daemon_available = available;
        changed
    }
}

} // verus!
