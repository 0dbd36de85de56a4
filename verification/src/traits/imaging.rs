//! Frames of a conventional camera.

use vstd::prelude::*;
use crate::timestamp::Timestamp;

verus! {

/// One frame of a conventional camera.
#[derive(Debug, Clone, PartialEq, Eq)]
pub struct ImageFrame {
    /// Raw pixel data. Format depends on sensor configuration.
    pub data: Vec<u8>,
    pub width: u32,
    pub height: u32,
    pub channels: u8,
    pub timestamp: Timestamp,
}

} // verus!
