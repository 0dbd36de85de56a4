//! The health a sensor reports about itself.

use vstd::prelude::*;

verus! {

/// The health a sensor reports about itself.
#[derive(Debug, Clone, Copy, PartialEq, Eq, Structural)]
pub enum SensorHealth {
    Online,
    /// Running with reduced quality, a percentage from 0 to 100.
    Degraded { quality: u8 },
    Offline,
    /// Disabled by a hardware kill switch (identity nodes only).
    KillSwitchEngaged,
    Initializing,
}

} // verus!
