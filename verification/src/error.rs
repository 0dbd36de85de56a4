//! Errors that sensor operations report, with their human-readable messages.

use vstd::prelude::*;
use vstd::string::*;

verus! {

/// An error reported by a sensor operation.
#[derive(Debug, Clone, PartialEq, Eq)]
pub enum SensorError {
    NotInitialized,
    HardwareError(String),
    Offline,
    KillSwitchEngaged,
    ConfigurationError(String),
    Timeout,
    ParseError(String),
}

/// The result of a sensor operation.
pub type SensorResult<T> = Result<T, SensorError>;

impl SensorError {
    /// The message that describes the error to a reader: a fixed sentence per
    /// variant, followed by the detail text for the variants that carry one.
    pub open spec fn message_spec(&self) -> Seq<char> {
        match self {
            SensorError::NotInitialized => "Sensor not initialized"@,
            SensorError::HardwareError(detail) => "Hardware communication error: "@ + detail@,
            SensorError::Offline => "Sensor offline"@,
            SensorError::KillSwitchEngaged => "Kill switch engaged — sensor disabled by hardware"@,
            SensorError::ConfigurationError(detail) => "Configuration error: "@ + detail@,
            SensorError::Timeout => "Timeout waiting for sensor response"@,
            SensorError::ParseError(detail) => "Data parsing error: "@ + detail@,
        }
    }

    /// The human-readable message of the error, as its display form shows it.
    pub fn message(&self) -> (m: String)
        ensures
            m@ == self.message_spec(),
    {
        match self {
            SensorError::NotInitialized => String::from_str("Sensor not initialized"),
            SensorError::HardwareError(detail) => {
                let mut m = String::from_str("Hardware communication error: ");
                m.append(detail.as_str());
                m
            },
            SensorError::Offline => String::from_str("Sensor offline"),
            SensorError::KillSwitchEngaged => String::from_str(
                "Kill switch engaged — sensor disabled by hardware",
            ),
            SensorError::ConfigurationError(detail) => {
                let mut m = String::from_str("Configuration error: ");
                m.append(detail.as_str());
                m
            },
            SensorError::Timeout => String::from_str("Timeout waiting for sensor response"),
            SensorError::ParseError(detail) => {
                let mut m = String::from_str("Data parsing error: ");
                m.append(detail.as_str());
                m
            },
        }
    }
}

/// Each error reads as its fixed sentence; the variants that carry detail text
/// end with it, after their sentence and a colon.
pub proof fn lemma_message_texts(detail: String)
    ensures
        SensorError::NotInitialized.message_spec() == "Sensor not initialized"@,
        SensorError::Offline.message_spec() == "Sensor offline"@,
        SensorError::KillSwitchEngaged.message_spec()
            == "Kill switch engaged — sensor disabled by hardware"@,
        SensorError::Timeout.message_spec() == "Timeout waiting for sensor response"@,
        SensorError::HardwareError(detail).message_spec() == "Hardware communication error: "@
            + detail@,
        SensorError::ConfigurationError(detail).message_spec() == "Configuration error: "@
            + detail@,
        SensorError::ParseError(detail).message_spec() == "Data parsing error: "@ + detail@,
        SensorError::HardwareError(detail).message_spec().subrange(
            30,
            SensorError::HardwareError(detail).message_spec().len() as int,
        ) == detail@,
{
    reveal_strlit("Hardware communication error: ");
    assert(("Hardware communication error: "@ + detail@).subrange(
        30,
        ("Hardware communication error: "@ + detail@).len() as int,
    ) =~= detail@);
}

} // verus!
