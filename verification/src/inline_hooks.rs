//! Owner-aware inline hooks with MinHook-compatible status behavior.
pub mod quiescence;
pub mod report;
pub mod scan;
pub mod service;
pub mod status;
pub mod unsupported;
