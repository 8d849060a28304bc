use radar_egui::services::process_runtime::{
    Action, BackendCall, ComponentExit, ComponentSnapshot, ProcessActor, ProcessCommand,
    ProcessComponent, ProcessPhase, ProcessSnapshot, StartAllOptions, StartLaserOptions, Step,
    FIFO_ATTEMPTS, FIFO_RETRY_DELAY_MS,
};
use radar_egui::services::script_runner::{LaserScript, TeamSide};

#[derive(Default)]
struct FakeBackend {
    events: Vec<String>,
    fail_once: Option<ProcessComponent>,
    fail_on_attempt: Option<(ProcessComponent, u8)>,
    start_attempts: [u8; 3],
    configure_failures: u8,
    configure_always_fails: bool,
}

fn index(component: ProcessComponent) -> usize {
    match component {
        ProcessComponent::Radar => 0,
        ProcessComponent::Sdr => 1,
        ProcessComponent::Laser => 2,
    }
}

fn on_off(flag: bool) -> &'static str {
    if flag {
        "on"
    } else {
        "off"
    }
}

impl FakeBackend {
    fn event(&mut self, component: ProcessComponent, event: String) -> Result<(), String> {
        self.events.push(event);
        self.start_attempts[index(component)] += 1;
        if self.fail_once == Some(component) {
            self.fail_once = None;
            Err("configured failure".to_owned())
        } else if self.fail_on_attempt == Some((component, self.start_attempts[index(component)])) {
            Err("configured replacement failure".to_owned())
        } else {
            Ok(())
        }
    }

    fn stop(&mut self, component: ProcessComponent) {
        let name = match component {
            ProcessComponent::Radar => "stop:radar",
            ProcessComponent::Sdr => "stop:sdr",
            ProcessComponent::Laser => "stop:laser",
        };
        self.events.push(name.to_owned());
    }

    fn call(&mut self, call: BackendCall) -> Result<(), String> {
        match call {
            BackendCall::StartRadar { side, record } => self.event(
                ProcessComponent::Radar,
                format!("radar:{},record {}", side.as_str(), on_off(record)),
            ),
            BackendCall::StartSdr { enemy } => {
                self.event(ProcessComponent::Sdr, format!("sdr:{}", enemy.as_str()))
            }
            BackendCall::StartLaser { script } => {
                self.event(ProcessComponent::Laser, format!("laser:{}", script.label()))
            }
            BackendCall::ConfigureLaser { enemy, stream, record } => {
                let result = self.event(
                    ProcessComponent::Laser,
                    format!("fifo:{enemy},stream {},record {}", on_off(stream), on_off(record)),
                );
                if result.is_ok() && self.configure_always_fails {
                    Err("configured FIFO failure".to_owned())
                } else if result.is_ok() && self.configure_failures > 0 {
                    self.configure_failures -= 1;
                    Err("configured FIFO failure".to_owned())
                } else {
                    result
                }
            }
            BackendCall::SendLaserCommand(text) => {
                self.events.push(format!("fifo-command:{text}"));
                Err(format!("Laser FIFO command {text:?} failed"))
            }
            BackendCall::StopAll => {
                self.stop(ProcessComponent::Laser);
                self.stop(ProcessComponent::Sdr);
                self.stop(ProcessComponent::Radar);
                Ok(())
            }
        }
    }
}

struct Driver {
    actor: ProcessActor,
    backend: FakeBackend,
    published: Vec<ProcessSnapshot>,
}

impl Driver {
    fn new(backend: FakeBackend) -> Self {
        Driver { actor: ProcessActor::new(1000), backend, published: Vec::new() }
    }

    fn run(&mut self, mut step: Step) {
        loop {
            if let Some(component) = step.stop_first {
                self.backend.stop(component);
            }
            self.published.push(self.actor.snapshot().clone());
            match step.action {
                Action::Idle | Action::ArmTimer(_) => return,
                Action::Call(call) => {
                    let outcome = self.backend.call(call);
                    step = self.actor.handle_outcome(outcome);
                }
            }
        }
    }

    fn send(&mut self, command: ProcessCommand) {
        let step = self.actor.handle_command(command);
        self.run(step);
    }

    fn fire_timer(&mut self) {
        assert!(self.actor.is_timer_armed());
        let step = self.actor.handle_deadline();
        self.run(step);
    }

    fn settle(&mut self) {
        while self.actor.is_timer_armed() {
            self.fire_timer();
        }
    }

    fn phase(&self) -> ProcessPhase {
        self.actor.snapshot().phase
    }

    fn count(&self, prefix: &str) -> usize {
        self.backend.events.iter().filter(|event| event.starts_with(prefix)).count()
    }
}

fn start_all_red() -> ProcessCommand {
    ProcessCommand::StartAll {
        side: TeamSide::Red,
        stream: true,
        record: false,
        laser_auto: false,
        radar_record: false,
    }
}

#[test]
fn start_all_runs_radar_then_sdr_then_laser() {
    let mut driver = Driver::new(FakeBackend::default());
    driver.send(start_all_red());
    driver.settle();

    assert_eq!(driver.phase(), ProcessPhase::Running);
    assert_eq!(
        driver.backend.events,
        [
            "radar:red,record off",
            "sdr:blue",
            "laser:Competition",
            "fifo:enemy blue,stream on,record off",
        ]
    );
}

#[test]
fn start_all_propagates_radar_record_flag() {
    let mut driver = Driver::new(FakeBackend::default());
    driver.send(ProcessCommand::StartAll {
        side: TeamSide::Blue,
        stream: false,
        record: false,
        laser_auto: false,
        radar_record: true,
    });
    driver.settle();

    assert_eq!(driver.phase(), ProcessPhase::Running);
    assert!(driver.backend.events.starts_with(&["radar:blue,record on".to_owned()]));
}

#[test]
fn repeated_start_all_during_delay_is_rejected_without_cancelling_sequence() {
    let mut driver = Driver::new(FakeBackend::default());
    driver.send(start_all_red());
    assert_eq!(driver.phase(), ProcessPhase::WaitingForRadar);

    driver.send(start_all_red());
    let error = driver.actor.snapshot().error.clone().unwrap();
    assert!(error.contains("Start All rejected") && error.contains("WaitingForRadar"));
    driver.settle();

    assert_eq!(driver.phase(), ProcessPhase::Running);
    assert_eq!(driver.count("radar:red,record off"), 1);
    assert!(driver.backend.events.iter().any(|event| event.starts_with("fifo:")));
}

#[test]
fn component_start_during_delay_is_rejected_without_cancelling_sequence() {
    let mut driver = Driver::new(FakeBackend::default());
    driver.send(start_all_red());
    assert_eq!(driver.phase(), ProcessPhase::WaitingForRadar);

    driver.send(ProcessCommand::StartSdr(TeamSide::Blue));
    driver.settle();

    assert_eq!(driver.phase(), ProcessPhase::Running);
    assert_eq!(driver.count("sdr:"), 1);
}

#[test]
fn component_start_during_fifo_retry_is_rejected_without_cancelling_retry() {
    let mut driver = Driver::new(FakeBackend { configure_failures: 1, ..FakeBackend::default() });
    driver.send(start_all_red());
    driver.fire_timer();
    driver.fire_timer();
    assert_eq!(driver.phase(), ProcessPhase::ConfiguringLaser);

    driver.send(ProcessCommand::StartRadar { side: TeamSide::Blue, record: false });
    driver.settle();

    assert_eq!(driver.phase(), ProcessPhase::Running);
    assert_eq!(driver.count("radar:"), 1);
    assert_eq!(driver.count("fifo:"), 2);
}

#[test]
fn standalone_start_radar_propagates_record_flag() {
    let mut driver = Driver::new(FakeBackend::default());
    driver.send(ProcessCommand::StartRadar { side: TeamSide::Blue, record: true });

    assert_eq!(driver.phase(), ProcessPhase::Running);
    assert_eq!(driver.backend.events, ["radar:blue,record on"]);
}

#[test]
fn failure_stops_later_steps_and_retry_continues() {
    let mut driver = Driver::new(FakeBackend {
        fail_once: Some(ProcessComponent::Sdr),
        ..FakeBackend::default()
    });
    driver.send(start_all_red());
    driver.settle();
    assert_eq!(driver.phase(), ProcessPhase::Failed(ProcessComponent::Sdr));
    assert_eq!(driver.backend.events, ["radar:red,record off", "sdr:blue"]);

    driver.send(ProcessCommand::RetryFailed);
    driver.settle();
    assert_eq!(driver.phase(), ProcessPhase::Running);
    assert!(driver.backend.events.ends_with(&[
        "sdr:blue".to_owned(),
        "laser:Competition".to_owned(),
        "fifo:enemy blue,stream on,record off".to_owned(),
    ]));
}

#[test]
fn stop_all_during_delay_cancels_remaining_steps() {
    let mut driver = Driver::new(FakeBackend::default());
    driver.send(start_all_red());
    assert_eq!(driver.phase(), ProcessPhase::WaitingForRadar);

    driver.send(ProcessCommand::StopAll);

    assert!(!driver.actor.is_timer_armed());
    assert!(!driver.backend.events.iter().any(|event| event.starts_with("sdr:")));
    assert_eq!(driver.phase(), ProcessPhase::Idle);
    assert!(driver.published.iter().any(|snapshot| snapshot.phase == ProcessPhase::Stopping));
}

#[test]
fn standalone_laser_configuration_retries_without_blocking_the_actor() {
    let mut driver = Driver::new(FakeBackend { configure_failures: 1, ..FakeBackend::default() });
    driver.send(ProcessCommand::StartLaser(StartLaserOptions {
        script: LaserScript::Competition,
        side: TeamSide::Red,
        stream: true,
        record: false,
        laser_auto: false,
        configure: true,
    }));
    assert!(driver.actor.is_timer_armed());
    driver.settle();

    assert_eq!(driver.phase(), ProcessPhase::Running);
    assert_eq!(
        driver.backend.events,
        [
            "laser:Competition",
            "fifo:enemy blue,stream on,record off",
            "fifo:enemy blue,stream on,record off",
        ]
    );
}

#[test]
fn daemon_availability_is_published_by_the_actor() {
    let mut actor = ProcessActor::new(0);
    assert!(actor.handle_daemon(true));
    assert!(actor.snapshot().daemon_available);
    assert!(!actor.handle_daemon(true));
}

#[test]
fn failed_laser_replacement_clears_stale_managed_state() {
    let mut driver = Driver::new(FakeBackend {
        fail_on_attempt: Some((ProcessComponent::Laser, 2)),
        ..FakeBackend::default()
    });
    let options = StartLaserOptions {
        script: LaserScript::Competition,
        side: TeamSide::Red,
        stream: false,
        record: false,
        laser_auto: false,
        configure: false,
    };
    driver.send(ProcessCommand::StartLaser(options));
    assert_eq!(driver.phase(), ProcessPhase::Running);

    driver.send(ProcessCommand::StartLaser(options));
    assert_eq!(driver.phase(), ProcessPhase::Failed(ProcessComponent::Laser));
    assert_eq!(driver.actor.snapshot().laser, ComponentSnapshot::default());
}

#[test]
fn replacing_managed_laser_stops_old_process_before_starting_new_one() {
    let mut driver = Driver::new(FakeBackend::default());
    let options = StartLaserOptions {
        script: LaserScript::Preview,
        side: TeamSide::Red,
        stream: false,
        record: false,
        laser_auto: false,
        configure: false,
    };
    driver.send(ProcessCommand::StartLaser(options));
    assert_eq!(driver.phase(), ProcessPhase::Running);
    driver.send(ProcessCommand::StartLaser(options));

    assert_eq!(driver.backend.events, ["laser:Preview", "stop:laser", "laser:Preview"]);
}

#[test]
fn child_exit_clears_managed_state_and_publishes_context() {
    let mut driver = Driver::new(FakeBackend::default());
    driver.send(ProcessCommand::StartRadar { side: TeamSide::Red, record: false });
    driver.actor.handle_exits(vec![ComponentExit {
        component: ProcessComponent::Radar,
        detail: "exit status: 17".to_owned(),
    }]);

    let snapshot = driver.actor.snapshot();
    assert_eq!(snapshot.phase, ProcessPhase::Failed(ProcessComponent::Radar));
    assert!(!snapshot.radar.managed);
    assert!(snapshot.error.clone().unwrap().contains("Radar process exited: exit status: 17"));
}

#[test]
fn stopping_one_component_keeps_running_phase_while_others_are_managed() {
    for (command, expected) in [
        (ProcessCommand::StopRadar, [false, true, true]),
        (ProcessCommand::StopSdr, [true, false, true]),
        (ProcessCommand::StopLaser, [true, true, false]),
    ] {
        let mut driver = Driver::new(FakeBackend::default());
        driver.send(start_all_red());
        driver.settle();
        assert_eq!(driver.phase(), ProcessPhase::Running);
        driver.send(command);
        let snapshot = driver.actor.snapshot();
        assert_eq!(snapshot.phase, ProcessPhase::Running);
        assert_eq!([snapshot.radar.managed, snapshot.sdr.managed, snapshot.laser.managed], expected);
    }
}

#[test]
fn shutdown_interrupts_start_all_wait_and_joins_promptly() {
    let mut driver = Driver::new(FakeBackend::default());
    driver.send(start_all_red());
    assert_eq!(driver.phase(), ProcessPhase::WaitingForRadar);

    driver.send(ProcessCommand::Shutdown);

    assert!(driver.actor.is_finished());
    assert!(driver.backend.events.ends_with(&[
        "stop:laser".to_owned(),
        "stop:sdr".to_owned(),
        "stop:radar".to_owned(),
    ]));
    assert_eq!(driver.phase(), ProcessPhase::Idle);
}

#[test]
fn stopping_the_last_component_returns_to_idle() {
    let mut driver = Driver::new(FakeBackend::default());
    driver.send(ProcessCommand::StartRadar { side: TeamSide::Red, record: false });
    driver.send(ProcessCommand::StopRadar);
    assert_eq!(driver.phase(), ProcessPhase::Idle);
    assert_eq!(driver.backend.events, ["radar:red,record off", "stop:radar"]);
}

#[test]
fn laser_configuration_gives_up_after_the_attempt_limit() {
    let mut driver = Driver::new(FakeBackend { configure_always_fails: true, ..FakeBackend::default() });
    driver.send(ProcessCommand::StartLaser(StartLaserOptions {
        script: LaserScript::Stream,
        side: TeamSide::Blue,
        stream: false,
        record: true,
        laser_auto: true,
        configure: true,
    }));
    driver.settle();

    assert_eq!(driver.phase(), ProcessPhase::Failed(ProcessComponent::Laser));
    assert_eq!(driver.count("fifo:enemy auto,stream off,record on"), FIFO_ATTEMPTS as usize);
    assert_eq!(FIFO_RETRY_DELAY_MS, 50);
}

#[test]
fn retry_without_a_failed_start_does_nothing() {
    let mut driver = Driver::new(FakeBackend::default());
    driver.send(ProcessCommand::RetryFailed);
    assert!(driver.backend.events.is_empty());
    assert_eq!(driver.phase(), ProcessPhase::Idle);
}

#[test]
fn failed_laser_command_is_published() {
    let mut driver = Driver::new(FakeBackend::default());
    driver.send(ProcessCommand::SendLaserCommand("stream on".to_owned()));
    assert_eq!(driver.backend.events, ["fifo-command:stream on"]);
    assert_eq!(
        driver.actor.snapshot().error.as_deref(),
        Some("Laser FIFO command \"stream on\" failed")
    );
}

#[test]
fn start_all_options_convert_into_a_start_all_command() {
    let options = StartAllOptions {
        side: TeamSide::Blue,
        stream: true,
        record: true,
        laser_auto: false,
        radar_record: true,
    };
    let command: ProcessCommand = options.into();
    assert_eq!(
        command,
        ProcessCommand::StartAll {
            side: TeamSide::Blue,
            stream: true,
            record: true,
            laser_auto: false,
            radar_record: true,
        }
    );
}

#[test]
fn rejection_names_the_phase_of_a_failed_component() {
    assert_eq!(ProcessPhase::Failed(ProcessComponent::Sdr).name(), "Failed(Sdr)");
    assert_eq!(ProcessPhase::ConfiguringLaser.name(), "ConfiguringLaser");
    assert_eq!(ProcessComponent::Laser.name(), "Laser");
}

#[test]
fn reject_start_if_busy_names_any_operation_and_keeps_the_rest() {
    let mut idle = ProcessActor::new(0);
    assert!(!idle.reject_start_if_busy("Custom start"));
    assert_eq!(idle.snapshot.error, None);

    let mut busy = ProcessActor::new(0);
    busy.snapshot.phase = ProcessPhase::ConfiguringLaser;
    busy.laser_configuration = Some(radar_egui::services::process_runtime::LaserConfiguration {
        side: TeamSide::Red,
        laser_auto: false,
        stream: true,
        record: false,
        attempts: 0,
    });
    assert!(busy.reject_start_if_busy("Custom start"));
    assert_eq!(
        busy.snapshot.error.as_deref(),
        Some("Custom start rejected while process phase ConfiguringLaser is active; current operation continues")
    );
    assert_eq!(busy.snapshot.phase, ProcessPhase::ConfiguringLaser);
    assert!(busy.laser_configuration.is_some());
}
