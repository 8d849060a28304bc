//! Radar HUD core: the DJI referee serial protocol, the SDR / lidar data
//! bridge, the component process orchestration and the point-cloud viewer
//! lifecycle, each as verified logic over plain values.

pub mod logging;
pub mod pointcloud;
pub mod robot_fields;
pub mod robot_interaction_id;
pub mod seconds;
pub mod serial;
pub mod services;
pub mod shared_data;
pub mod text;
pub mod widgets;
pub mod wire;
pub mod workspace;
pub mod zmq;
