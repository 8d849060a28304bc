//! The ZMQ bridge to the SDR, lidar and laser programs.

pub mod zmq;
