//! Events of an event camera.

use vstd::prelude::*;
use crate::timestamp::Timestamp;

verus! {

/// A brightness change at one pixel of an event camera.
#[derive(Debug, Clone, Copy, PartialEq, Eq, Structural)]
pub struct PixelEvent {
    pub x: u16,
    pub y: u16,
    /// true = brightness increased, false = brightness decreased.
    pub polarity: bool,
    pub timestamp: Timestamp,
}

} // verus!
