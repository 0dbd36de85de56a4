//! Quantities that environmental sensors measure.

use vstd::prelude::*;

verus! {

/// Environmental quantity identifier for environmental sensors.
#[derive(Debug, Clone, Copy, PartialEq, Eq, Structural)]
pub enum EnvironmentQuantity {
    TemperatureCelsius,
    HumidityPercent,
    PressureHpa,
    Co2Ppm,
    VocIndex,
    Pm25UgM3,
    Pm10UgM3,
}

} // verus!
