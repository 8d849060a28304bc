//! Serial port settings.

use vstd::prelude::*;

verus! {

/// Which port to open and at what rate; frames are always 8N1.
#[derive(Debug, Clone)]
pub struct SerialConfig {
    pub port_name: String,
    pub baud_rate: u32,
}

}
