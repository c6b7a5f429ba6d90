//! Idempotent configuration patching for on-demand component imports in
//! Vue and Vite projects.

pub mod configure;
pub mod types;
pub mod utils;
