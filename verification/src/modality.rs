//! The sensing modality that produced a detection.

use vstd::prelude::*;

verus! {

/// The sensing modality that produced a detection.
#[derive(Debug, Clone, Copy, PartialEq, Eq, Hash, Structural)]
pub enum Modality {
    MmWaveRadar,
    ScanningLidar,
    SolidStateLidar,
    FlashLidar,
    EventCamera,
    MicrophoneArray,
    Imu,
    Pir,
    ToF1D,
    Environmental,
    Camera,
    RfPassive,
    Fused,
}

} // verus!
