//! Starting, configuring and stopping the radar, SDR and laser components.

pub mod process_control;
pub mod process_laws;
pub mod process_runtime;
pub mod script_runner;
