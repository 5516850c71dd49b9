//! Assembly of the runtime configuration of a database-backed tile service:
//! a partial configuration, the resolution of its defaults, and the two ways
//! of building one (a YAML file, or database introspection with overrides).

pub mod config;
pub mod document;
pub mod error;
pub mod introspect;
pub mod loader;
