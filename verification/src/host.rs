//! Add-on generations: their definitions, API tables, and lifecycle.
pub mod api_table;
pub mod definition;
pub mod lifecycle;
