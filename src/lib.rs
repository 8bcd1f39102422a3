//! Sensor telemetry core: the reading schema and its binary codec, the
//! per-unit decision logic of publishers, receivers and the supervising
//! orchestrator, and the laws that tie them together.

pub mod reading;
pub mod wire;
pub mod publisher;
pub mod receiver;
pub mod supervisor;
pub mod settings;
