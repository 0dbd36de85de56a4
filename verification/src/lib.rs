//! Core shared types of the OMNI-SENSE sensor stack: timestamps, modality
//! tags, sensor health, sensor errors, and the plain-valued sensor records
//! and traits.

pub mod error;
pub mod health;
pub mod modality;
pub mod ordering;
pub mod timestamp;
pub mod traits;

pub use error::{SensorError, SensorResult};
pub use health::SensorHealth;
pub use modality::Modality;
pub use timestamp::{MonotonicClock, Timestamp};
pub use traits::binary::BinaryEvent;
pub use traits::event_sensor::PixelEvent;
pub use traits::imaging::ImageFrame;
pub use traits::imu::EnvironmentQuantity;
