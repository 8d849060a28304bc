//! What the minimap and the serial monitor show, apart from drawing it.

pub mod minimap;
pub mod serial_panel;
