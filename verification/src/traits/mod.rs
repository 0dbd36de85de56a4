//! Sensor records and sensor traits whose contents are plain values.

pub mod binary;
pub mod event_sensor;
pub mod imaging;
pub mod imu;
