//! MQTT 3.1.1
pub mod codec;
pub mod control;
pub mod default;
