//! Guild Wars 2 telemetry out of the MumbleLink shared memory.
pub mod identity;
pub mod mapping;
pub mod reader;
pub mod telemetry;
