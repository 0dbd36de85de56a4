//! Readings of binary (on/off) sensors such as PIR detectors and contact switches.

use vstd::prelude::*;
use crate::timestamp::Timestamp;

verus! {

/// One reading of a binary sensor.
#[derive(Debug, Clone, Copy, PartialEq, Eq, Structural)]
pub struct BinaryEvent {
    pub active: bool,
    pub timestamp: Timestamp,
}

} // verus!
