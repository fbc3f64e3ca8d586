//! Decisions around the native-compatible Dear ImGui context.
pub mod context;
pub mod gamepad;
pub mod message;
pub mod platform;
