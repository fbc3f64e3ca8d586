//! Per-instance COM vtable shadowing.
//!
//! A shadow changes only the vtable pointer stored in one COM interface
//! object. It owns copies of both the original entries and the entries it
//! publishes, so original methods remain available.
pub mod dxgi;
pub mod error;
pub mod layout;
pub mod shadow;
