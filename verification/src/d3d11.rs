//! Rendering Dear ImGui draw data for an attached D3D11 swap-chain generation.
pub mod error;
pub mod guard;
pub mod plan;
pub mod renderer;
pub mod setup;
pub mod state;
