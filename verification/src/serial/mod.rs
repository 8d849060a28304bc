//! The referee serial link: frame checks, frame building, the receive-side
//! parser and the transmit-side frame selection.

pub mod serial;
pub mod serial_crc;
pub mod serial_package;
pub mod serial_parser;
pub mod serialconfig;
