//! How the operator's choices become process commands.

use vstd::prelude::*;
use vstd::string::StringExecFns;
use crate::services::process_runtime::{
    ProcessPhase, ProcessSendError, ProcessSnapshot, StartAllOptions, StartLaserOptions,
};
use crate::services::script_runner::{script_is_daemon, LaserScript, TeamSide};
use crate::text::str_eq;

verus! {

/// A side as chosen in the interface, or as the text older callers pass.
pub enum TeamSideInput<'a> {
    Side(TeamSide),
    Legacy(&'a str),
}

impl<'a> From<TeamSide> for TeamSideInput<'a> {
    fn from(side: TeamSide) -> (r: TeamSideInput<'a>) {
        TeamSideInput::Side(side)
    }
}

impl<'a> vstd::std_specs::convert::FromSpecImpl<TeamSide> for TeamSideInput<'a> {
    open spec fn obeys_from_spec() -> bool {
        true
    }

    open spec fn from_spec(side: TeamSide) -> TeamSideInput<'a> {
        TeamSideInput::Side(side)
    }
}

impl<'a> From<&'a str> for TeamSideInput<'a> {
    fn from(side: &'a str) -> (r: TeamSideInput<'a>) {
        TeamSideInput::Legacy(side)
    }
}

impl<'a> vstd::std_specs::convert::FromSpecImpl<&'a str> for TeamSideInput<'a> {
    open spec fn obeys_from_spec() -> bool {
        true
    }

    open spec fn from_spec(side: &'a str) -> TeamSideInput<'a> {
        TeamSideInput::Legacy(side)
    }
}

/// Our side for a radar start: a legacy text names our side, and anything
/// but `"blue"` means red.
pub open spec fn radar_side_of(input: TeamSideInput) -> TeamSide {
    match input {
        TeamSideInput::Side(side) => side,
        TeamSideInput::Legacy(text) => if text@ == "blue"@ {
            TeamSide::Blue
        } else {
            TeamSide::Red
        },
    }
}

/// Our side for an SDR start: a legacy text names the enemy, so `"red"`
/// means we are blue, and anything else means we are red.
pub open spec fn sdr_side_of(input: TeamSideInput) -> TeamSide {
    match input {
        TeamSideInput::Side(side) => side,
        TeamSideInput::Legacy(text) => if text@ == "red"@ {
            TeamSide::Blue
        } else {
            TeamSide::Red
        },
    }
}

/// Our side for a radar start.
pub fn resolve_radar_side(input: TeamSideInput) -> (r: TeamSide)
    ensures
        r == radar_side_of(input),
{
    match input {
        TeamSideInput::Side(side) => side,
        TeamSideInput::Legacy(text) => if str_eq(text, "blue") {
            TeamSide::Blue
        } else {
            TeamSide::Red
        },
    }
}

/// Our side for an SDR start.
pub fn resolve_sdr_side(input: TeamSideInput) -> (r: TeamSide)
    ensures
        r == sdr_side_of(input),
{
    match input {
        TeamSideInput::Side(side) => side,
        TeamSideInput::Legacy(text) => if str_eq(text, "red") {
            TeamSide::Blue
        } else {
            TeamSide::Red
        },
    }
}

/// The full-start options chosen in the interface; the radar does not record.
pub fn start_all_options(side: TeamSide, stream: bool, record: bool, laser_auto: bool) -> (r: StartAllOptions)
    ensures
        r == (StartAllOptions { side, stream, record, laser_auto, radar_record: false }),
{
    StartAllOptions { side, stream, record, laser_auto, radar_record: false }
}

/// The laser-start options chosen in the interface: the daemon scripts get
/// their FIFO configuration, the others do not.
pub fn laser_start_options(
    script: LaserScript,
    side: TeamSide,
    stream: bool,
    record: bool,
    laser_auto: bool,
) -> (r: StartLaserOptions)
    ensures
        r == (StartLaserOptions {
            script,
            side,
            stream,
            record,
            laser_auto,
            configure: script_is_daemon(script),
        }),
{
    StartLaserOptions { script, side, stream, record, laser_auto, configure: script.is_daemon() }
}

/// A plain script start: red side, no stream, no recording, no configuration.
pub fn script_start_options(script: LaserScript) -> (r: StartLaserOptions)
    ensures
        r == (StartLaserOptions {
            script,
            side: TeamSide::Red,
            stream: false,
            record: false,
            laser_auto: false,
            configure: false,
        }),
{
    StartLaserOptions {
        script,
        side: TeamSide::Red,
        stream: false,
        record: false,
        laser_auto: false,
        configure: false,
    }
}

/// A script start described by the daemon's own command texts: `"enemy red"`
/// means we are blue (anything else red), `"enemy auto"` lets the laser pick
/// its target, `"stream on"` and `"record on"` switch those on, and the
/// daemon scripts get their FIFO configuration.
pub fn daemon_config_options(
    script: LaserScript,
    enemy_cmd: &str,
    stream_cmd: &str,
    record_cmd: &str,
) -> (r: StartLaserOptions)
    ensures
        r == (StartLaserOptions {
            script,
            side: if enemy_cmd@ == "enemy red"@ {
                TeamSide::Blue
            } else {
                TeamSide::Red
            },
            stream: stream_cmd@ == "stream on"@,
            record: record_cmd@ == "record on"@,
            laser_auto: enemy_cmd@ == "enemy auto"@,
            configure: script_is_daemon(script),
        }),
{
    StartLaserOptions {
        script,
        side: if str_eq(enemy_cmd, "enemy red") {
            TeamSide::Blue
        } else {
            TeamSide::Red
        },
        stream: str_eq(stream_cmd, "stream on"),
        record: str_eq(record_cmd, "record on"),
        laser_auto: str_eq(enemy_cmd, "enemy auto"),
        configure: script.is_daemon(),
    }
}

/// A full start described by the SDR enemy colour and the daemon's command
/// texts: an enemy `"red"` means we are blue (anything else red); the radar
/// does not record.
pub fn schedule_start_all_options(
    sdr_enemy_color: &str,
    enemy_cmd: &str,
    stream_cmd: &str,
    record_cmd: &str,
) -> (r: StartAllOptions)
    ensures
        r == (StartAllOptions {
            side: if sdr_enemy_color@ == "red"@ {
                TeamSide::Blue
            } else {
                TeamSide::Red
            },
            stream: stream_cmd@ == "stream on"@,
            record: record_cmd@ == "record on"@,
            laser_auto: enemy_cmd@ == "enemy auto"@,
            radar_record: false,
        }),
{
    StartAllOptions {
        side: if str_eq(sdr_enemy_color, "red") {
            TeamSide::Blue
        } else {
            TeamSide::Red
        },
        stream: str_eq(stream_cmd, "stream on"),
        record: str_eq(record_cmd, "record on"),
        laser_auto: str_eq(enemy_cmd, "enemy auto"),
        radar_record: false,
    }
}

/// The phases of a start that has not finished yet.
pub open spec fn is_start_phase(p: ProcessPhase) -> bool {
    p is StartingRadar || p is WaitingForRadar || p is StartingSdr || p is WaitingForSdr
        || p is StartingLaser || p is ConfiguringLaser
}

/// Whether the snapshot shows a start that has not finished yet.
pub fn has_pending_start_all(snapshot: &ProcessSnapshot) -> (r: bool)
    ensures
        r == is_start_phase(snapshot.phase),
{
    match snapshot.phase {
        ProcessPhase::StartingRadar
        | ProcessPhase::WaitingForRadar
        | ProcessPhase::StartingSdr
        | ProcessPhase::WaitingForSdr
        | ProcessPhase::StartingLaser
        | ProcessPhase::ConfiguringLaser => true,
        _ => false,
    }
}

/// Remembers the outcome of handing a command to the process runtime: a
/// success clears the shown error, a failure shows its message.
pub fn store_process_command_result(error_state: &mut Option<String>, result: Result<(), ProcessSendError>)
    ensures
        match result {
            Ok(()) => *final(error_state) == None::<String>,
            Err(_) => final(error_state).is_some()
                && final(error_state).unwrap()@ == "process runtime is not available"@,
        },
{
    match result {
        Ok(()) => *error_state = None,
        Err(error) => *error_state = Some(String::from_str(error.message())),
    }
}

} // verus!
