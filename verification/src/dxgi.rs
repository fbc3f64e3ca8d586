//! Interception of DXGI objects: what is observed, selected, rendered and retired.
pub mod attach;
pub mod error;
pub mod event;
pub mod callbacks;
pub mod detours;
pub mod interception;
pub mod manager;
pub mod passes;
pub mod policy;
pub mod sdk;
