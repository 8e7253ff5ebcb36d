//! MQTT 5.0
pub mod codec;
pub mod control;
pub mod default;
pub mod error;
pub mod publish;
pub mod router;
pub mod shared;
pub mod sink;
