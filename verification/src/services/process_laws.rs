//! What the process actor promises over several inputs.

use vstd::prelude::*;
use crate::services::process_runtime::{
    call_step, cleared, initial_actor, on_daemon, component_of, exit_text, idle_step, initial_snapshot, is_busy, managed,
    on_command, on_deadline, on_exits, on_outcome, ready, reject_text, timer_step, ActionView,
    ActorView, CallView, CommandView, FailedSequence, LaserConfiguration, Pending, ProcessComponent,
    ProcessPhase, Sequence, SequenceStep, SnapshotView, StartAllOptions, StartLaserOptions,
    StepView, FIFO_ATTEMPTS, FIFO_RETRY_DELAY_MS,
};
use crate::services::script_runner::{enemy_command, spec_enemy, LaserScript, TeamSide};

verus! {

/// The full-start command with the given options, as a value.
pub open spec fn start_all_view(o: StartAllOptions) -> CommandView {
    CommandView::StartAll {
        side: o.side,
        stream: o.stream,
        record: o.record,
        laser_auto: o.laser_auto,
        radar_record: o.radar_record,
    }
}

/// The commands that start something.
pub open spec fn is_start(c: CommandView) -> bool {
    c is StartAll || c is StartRadar || c is StartSdr || c is StartLaser
}

/// The name a start command is refused under.
pub open spec fn start_operation(c: CommandView) -> Seq<char> {
    match c {
        CommandView::StartAll { .. } => "Start All"@,
        CommandView::StartRadar { .. } => "Radar start"@,
        CommandView::StartSdr(_) => "SDR start"@,
        _ => "Laser start"@,
    }
}

/// The command that stops one component.
pub open spec fn stop_command(c: ProcessComponent) -> CommandView {
    match c {
        ProcessComponent::Radar => CommandView::StopRadar,
        ProcessComponent::Sdr => CommandView::StopSdr,
        ProcessComponent::Laser => CommandView::StopLaser,
    }
}

/// The component that a step of a full start starts or configures.
pub open spec fn step_component(step: SequenceStep) -> ProcessComponent {
    match step {
        SequenceStep::StartRadar | SequenceStep::WaitAfterRadar => ProcessComponent::Radar,
        SequenceStep::StartSdr | SequenceStep::WaitAfterSdr => ProcessComponent::Sdr,
        _ => ProcessComponent::Laser,
    }
}

/// The backend call that a step of a full start makes.
pub open spec fn step_call(seq: Sequence) -> CallView {
    let o = seq.command;
    match seq.step {
        SequenceStep::StartRadar => CallView::StartRadar { side: o.side, record: o.radar_record },
        SequenceStep::StartSdr | SequenceStep::WaitAfterRadar => CallView::StartSdr { enemy: spec_enemy(o.side) },
        SequenceStep::StartLaser | SequenceStep::WaitAfterSdr => CallView::StartLaser { script: LaserScript::Competition },
        SequenceStep::ConfigureLaser => CallView::ConfigureLaser {
            enemy: enemy_command(o.side, o.laser_auto),
            stream: o.stream,
            record: o.record,
        },
    }
}

/// The states the actor can reach: a call of a full start or of a laser
/// configuration is awaited only while no other start is under way and no
/// retry is kept; a timer is armed exactly while a start or a configuration
/// is under way between calls; and no configuration has used up its attempts.
pub open spec fn wf(a: ActorView) -> bool {
    &&& (a.pending matches Some(p) && !(p is LaserCommand) && !(p is Shutdown) ==> {
        !is_busy(a) && a.failed is None
    })
    &&& (a.pending matches Some(Pending::SequenceStep(seq)) ==> {
        &&& !(seq.step is WaitAfterRadar) && !(seq.step is WaitAfterSdr)
        &&& seq.configure_attempts < FIFO_ATTEMPTS
    })
    &&& (a.pending matches Some(Pending::StandaloneConfigure(cfg)) ==> cfg.attempts < FIFO_ATTEMPTS)
    &&& (a.sequence matches Some(seq) ==> {
        &&& a.laser_configuration is None && a.failed is None
        &&& seq.configure_attempts < FIFO_ATTEMPTS
    })
    &&& (a.laser_configuration matches Some(cfg) ==> cfg.attempts < FIFO_ATTEMPTS && a.failed is None)
    &&& (a.timer_armed <==> is_busy(a))
}

/// A fresh actor is in a reachable state, and every input keeps the actor
/// in one: commands, timers, polls and probes while it takes them, and the
/// outcome of the call it waits for.
pub proof fn law_every_input_keeps_the_actor_well_formed(
    a: ActorView,
    c: CommandView,
    r: Result<(), Seq<char>>,
    exits: Seq<(ProcessComponent, Seq<char>)>,
    available: bool,
    delay_ms: u64,
)
    requires
        wf(a),
    ensures
        wf(initial_actor(delay_ms)),
        ready(a) ==> wf(on_command(a, c).0),
        ready(a) && a.timer_armed ==> wf(on_deadline(a).0),
        ready(a) ==> wf(on_exits(a, exits)),
        wf(on_daemon(a, available)),
        a.pending is Some ==> wf(on_outcome(a, r).0),
{
}

/// A full start on an actor with nothing under way, with every backend call
/// succeeding and every timer firing, starts the radar with the chosen side
/// and recording flag, waits the start delay, starts the SDR bridge against
/// the enemy side, waits again, starts the competition laser script, sends
/// the laser its enemy, stream and record commands, and ends `Running` with
/// all three components managed, no error and nothing pending.
pub proof fn law_start_all_runs_radar_then_sdr_then_laser(a: ActorView, o: StartAllOptions)
    requires
        ready(a),
        !is_busy(a),
    ensures
        ({
            let (a1, s1) = on_command(a, start_all_view(o));
            let (a2, s2) = on_outcome(a1, Ok(()));
            let (a3, s3) = on_deadline(a2);
            let (a4, s4) = on_outcome(a3, Ok(()));
            let (a5, s5) = on_deadline(a4);
            let (a6, s6) = on_outcome(a5, Ok(()));
            let (a7, s7) = on_outcome(a6, Ok(()));
            &&& a1.snapshot.phase == ProcessPhase::StartingRadar
            &&& s1.action == ActionView::Call(CallView::StartRadar { side: o.side, record: o.radar_record })
            &&& a2.snapshot.phase == ProcessPhase::WaitingForRadar && ready(a2) && a2.timer_armed
            &&& s2 == timer_step(a.delay_ms)
            &&& a3.snapshot.phase == ProcessPhase::StartingSdr
            &&& s3.action == ActionView::Call(CallView::StartSdr { enemy: spec_enemy(o.side) })
            &&& a4.snapshot.phase == ProcessPhase::WaitingForSdr && ready(a4) && a4.timer_armed
            &&& s4 == timer_step(a.delay_ms)
            &&& a5.snapshot.phase == ProcessPhase::StartingLaser
            &&& s5.action == ActionView::Call(CallView::StartLaser { script: LaserScript::Competition })
            &&& a6.snapshot.phase == ProcessPhase::ConfiguringLaser
            &&& s6 == call_step(None, CallView::ConfigureLaser {
                enemy: enemy_command(o.side, o.laser_auto),
                stream: o.stream,
                record: o.record,
            })
            &&& s7 == idle_step()
            &&& a7.snapshot.phase == ProcessPhase::Running
            &&& a7.snapshot.error is None
            &&& a7.snapshot.radar.managed && a7.snapshot.sdr.managed
            &&& a7.snapshot.laser == managed(Some(LaserScript::Competition))
            &&& ready(a7) && !is_busy(a7) && !a7.timer_armed && a7.failed is None
        }),
{
}

/// While a full start or a laser configuration is under way, every start
/// command is refused: nothing is called or stopped, whatever is under way
/// goes on unchanged, and only the published error changes, to a text that
/// names the refused operation and the current phase.
pub proof fn law_start_while_busy_is_rejected(a: ActorView, c: CommandView)
    requires
        ready(a),
        is_busy(a),
        is_start(c),
    ensures
        on_command(a, c).1 == idle_step(),
        on_command(a, c).0 == (ActorView {
            snapshot: SnapshotView {
                error: Some(reject_text(start_operation(c), a.snapshot.phase)),
                ..a.snapshot
            },
            ..a
        }),
{
}

/// When a start step of a full start fails, or its laser configuration fails
/// for the last allowed time, the component is shown failed with the
/// backend's error, the components started before stay managed, and
/// nothing more is called; a retry then makes the very
/// call that failed again, with the same options, without repeating the
/// steps before it.
pub proof fn law_retry_resumes_at_failed_step(a: ActorView, seq: Sequence, e: Seq<char>)
    requires
        a.pending == Some(Pending::SequenceStep(seq)),
        !a.finished,
        seq.step is StartRadar || seq.step is StartSdr || seq.step is StartLaser
            || (seq.step is ConfigureLaser && seq.configure_attempts + 1 >= FIFO_ATTEMPTS),
    ensures
        ({
            let (a1, s1) = on_outcome(a, Err(e));
            let (a2, s2) = on_command(a1, CommandView::RetryFailed);
            &&& s1 == idle_step()
            &&& a1.snapshot.phase == ProcessPhase::Failed(step_component(seq.step))
            &&& a1.snapshot.error == Some(e)
            &&& a1.snapshot.radar == a.snapshot.radar
            &&& a1.snapshot.sdr == a.snapshot.sdr
            &&& a1.snapshot.laser == a.snapshot.laser
            &&& ready(a1)
            &&& a1.failed == Some(FailedSequence { command: seq.command, step: seq.step })
            &&& s2.action == ActionView::Call(step_call(seq))
            &&& a2.failed is None
        }),
{
}

/// Stop All, from any state that takes commands, cancels any start under
/// way, the failed start kept for a retry and the armed timer, has all
/// three components stopped, and once they are, leaves a snapshot that
/// manages nothing and keeps only the daemon availability.
pub proof fn law_stop_all_cancels_everything(a: ActorView)
    requires
        ready(a),
    ensures
        ({
            let (a1, s1) = on_command(a, CommandView::StopAll);
            let (a2, s2) = on_outcome(a1, Ok(()));
            &&& s1 == call_step(None, CallView::StopAll)
            &&& a1.snapshot.phase == ProcessPhase::Stopping
            &&& a1.snapshot.error is None
            &&& !is_busy(a1) && a1.failed is None && !a1.timer_armed
            &&& s2 == idle_step()
            &&& a2.snapshot == initial_snapshot(a.snapshot.daemon_available)
            &&& ready(a2) && !is_busy(a2) && a2.failed is None && !a2.timer_armed
        }),
{
}

/// Shutting down stops all three components, leaves a snapshot that
/// manages nothing, and the actor takes nothing more.
pub proof fn law_shutdown_stops_everything(a: ActorView)
    requires
        ready(a),
    ensures
        ({
            let (a1, s1) = on_command(a, CommandView::Shutdown);
            let (a2, s2) = on_outcome(a1, Ok(()));
            &&& s1 == call_step(None, CallView::StopAll)
            &&& a2.snapshot == initial_snapshot(a.snapshot.daemon_available)
            &&& a2.finished
            &&& s2 == idle_step()
        }),
{
}

/// Stopping one component stops it, clears it and cancels whatever was
/// pending; the others stay as they were, and the phase is `Running` exactly
/// while another component is still managed, `Idle` otherwise.
pub proof fn law_stop_one_component(a: ActorView, c: ProcessComponent, other: ProcessComponent)
    requires
        ready(a),
        other != c,
    ensures
        ({
            let (a1, s1) = on_command(a, stop_command(c));
            &&& s1 == (StepView { stop_first: Some(c), action: ActionView::Idle })
            &&& component_of(a1.snapshot, c) == cleared()
            &&& component_of(a1.snapshot, other) == component_of(a.snapshot, other)
            &&& a1.snapshot.phase == if component_of(a.snapshot, ProcessComponent::Radar).managed && c != ProcessComponent::Radar
                || component_of(a.snapshot, ProcessComponent::Sdr).managed && c != ProcessComponent::Sdr
                || component_of(a.snapshot, ProcessComponent::Laser).managed && c != ProcessComponent::Laser {
                ProcessPhase::Running
            } else {
                ProcessPhase::Idle
            }
            &&& !is_busy(a1) && a1.failed is None && !a1.timer_armed && ready(a1)
        }),
{
}

/// Starting a laser while one is managed stops the old one before the new
/// one is started, and if the new one fails to start the laser is shown as
/// not managed, with no script, rather than as the old one.
pub proof fn law_replacing_managed_laser(a: ActorView, o: StartLaserOptions, e: Seq<char>)
    requires
        ready(a),
        !is_busy(a),
        a.snapshot.laser.managed,
    ensures
        ({
            let (a1, s1) = on_command(a, CommandView::StartLaser(o));
            let (a2, s2) = on_outcome(a1, Err(e));
            &&& s1 == call_step(Some(ProcessComponent::Laser), CallView::StartLaser { script: o.script })
            &&& a2.snapshot.laser == cleared()
            &&& a2.snapshot.phase == ProcessPhase::Failed(ProcessComponent::Laser)
            &&& a2.snapshot.error == Some(e)
            &&& s2 == idle_step()
        }),
{
}

/// A failed laser FIFO configuration of a laser started on its own is tried
/// again after the retry delay, with the same commands, while fewer than
/// `FIFO_ATTEMPTS` attempts have been made, and nothing else may start in
/// the meantime; the attempt that reaches the limit fails the laser.
pub proof fn law_standalone_configuration_retries(a: ActorView, cfg: LaserConfiguration, e: Seq<char>)
    requires
        wf(a),
        a.pending == Some(Pending::StandaloneConfigure(cfg)),
        !a.finished,
    ensures
        ({
            let (a1, s1) = on_outcome(a, Err(e));
            let (a2, s2) = on_deadline(a1);
            if cfg.attempts + 1 < FIFO_ATTEMPTS {
                &&& s1 == timer_step(FIFO_RETRY_DELAY_MS)
                &&& a1.snapshot.error == Some(e)
                &&& is_busy(a1) && ready(a1) && a1.timer_armed
                &&& s2 == call_step(None, CallView::ConfigureLaser {
                    enemy: enemy_command(cfg.side, cfg.laser_auto),
                    stream: cfg.stream,
                    record: cfg.record,
                })
                &&& a2.pending == Some(Pending::StandaloneConfigure(
                    LaserConfiguration { attempts: (cfg.attempts + 1) as u8, ..cfg },
                ))
            } else {
                &&& s1 == idle_step()
                &&& a1.snapshot.phase == ProcessPhase::Failed(ProcessComponent::Laser)
                &&& a1.snapshot.error == Some(e)
            }
        }),
{
}

/// The same bound holds inside a full start: a failed configuration is
/// retried after the retry delay while fewer than `FIFO_ATTEMPTS` attempts
/// have been made, and the start stays under way (so other starts are
/// refused); the attempt that reaches the limit fails the laser and keeps
/// the step for a retry.
pub proof fn law_sequence_configuration_retries(a: ActorView, seq: Sequence, e: Seq<char>)
    requires
        a.pending == Some(Pending::SequenceStep(seq)),
        seq.step is ConfigureLaser,
        !a.finished,
    ensures
        ({
            let (a1, s1) = on_outcome(a, Err(e));
            let (a2, s2) = on_deadline(a1);
            if seq.configure_attempts + 1 < FIFO_ATTEMPTS {
                &&& s1 == timer_step(FIFO_RETRY_DELAY_MS)
                &&& a1.snapshot.error == Some(e)
                &&& is_busy(a1) && ready(a1) && a1.timer_armed
                &&& s2 == call_step(None, step_call(seq))
            } else {
                &&& s1 == idle_step()
                &&& a1.snapshot.phase == ProcessPhase::Failed(ProcessComponent::Laser)
                &&& a1.failed == Some(FailedSequence { command: seq.command, step: seq.step })
            }
        }),
{
}

/// An exit seen by a poll clears that component, shows it failed with
/// `"<Component> process exited: <detail>"`, and cancels whatever was
/// pending, including the failed start kept for a retry.
pub proof fn law_exit_clears_component(a: ActorView, c: ProcessComponent, detail: Seq<char>)
    ensures
        ({
            let a1 = on_exits(a, seq![(c, detail)]);
            &&& component_of(a1.snapshot, c) == cleared()
            &&& a1.snapshot.phase == ProcessPhase::Failed(c)
            &&& a1.snapshot.error == Some(exit_text(c, detail))
            &&& !is_busy(a1) && a1.failed is None && !a1.timer_armed
        }),
{
    let ex = seq![(c, detail)];
    assert(ex.drop_last() =~= Seq::<(ProcessComponent, Seq<char>)>::empty());
}

/// A poll that sees no exit changes nothing.
pub proof fn law_no_exit_changes_nothing(a: ActorView)
    ensures
        on_exits(a, Seq::empty()) == a,
{
}

/// Our side maps to the components the same way whether they are started
/// one by one or by a full start: the radar gets our side, the SDR bridge
/// the enemy side, and the laser FIFO the enemy colour (or automatic
/// targeting); automatic targeting changes nothing but the laser's command.
pub proof fn law_side_mapping_is_shared(a: ActorView, side: TeamSide, record: bool, o: StartAllOptions, lo: StartLaserOptions)
    requires
        ready(a),
        !is_busy(a),
        o.side == side,
        lo.side == side,
        lo.laser_auto == o.laser_auto,
        lo.stream == o.stream,
        lo.record == o.record,
        lo.configure,
    ensures
        on_command(a, CommandView::StartSdr(side)).1.action
            == ActionView::Call(step_call(Sequence { command: o, step: SequenceStep::StartSdr, configure_attempts: 0 })),
        on_command(a, CommandView::StartRadar { side, record: o.radar_record }).1.action
            == ActionView::Call(step_call(Sequence { command: o, step: SequenceStep::StartRadar, configure_attempts: 0 })),
        ({
            let (a1, _) = on_command(a, CommandView::StartLaser(lo));
            on_outcome(a1, Ok(())).1.action
                == ActionView::Call(step_call(Sequence { command: o, step: SequenceStep::ConfigureLaser, configure_attempts: 0 }))
        }),
        step_call(Sequence { command: StartAllOptions { laser_auto: !o.laser_auto, ..o }, step: SequenceStep::StartSdr, configure_attempts: 0 })
            == step_call(Sequence { command: o, step: SequenceStep::StartSdr, configure_attempts: 0 }),
        step_call(Sequence { command: StartAllOptions { laser_auto: !o.laser_auto, ..o }, step: SequenceStep::StartRadar, configure_attempts: 0 })
            == step_call(Sequence { command: o, step: SequenceStep::StartRadar, configure_attempts: 0 }),
{
}

} // verus!
