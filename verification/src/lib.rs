//! The decision core of a native add-on runtime, verified.
//!
//! Every module works on plain values. Native addresses are `usize`, native
//! results are the integers the operating system handed back, and whatever has
//! to be done natively is returned to the caller as a value.
pub mod ordered;
pub mod d3d11;
pub mod dxgi;
pub mod render;
pub mod text;
pub mod hook;
pub mod host;
pub mod float_bits;
pub mod gw2;
pub mod inline_hooks;
pub mod imgui;
