//! The inspector, the two patchers and what they share.

pub mod declaration_generator;
pub mod dependency_manager;
pub mod pattern;
pub mod project_checker;
pub mod text;
pub mod ts_config_manager;
pub mod vite_config_laws;
pub mod vite_config_manager;
pub mod vite_config_shapes;
