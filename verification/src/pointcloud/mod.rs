//! Loading a PCD file for the point-cloud viewer: the header decisions and
//! the lifecycle of a load.

pub mod pcd_loader;
pub mod pcd_viewer;
