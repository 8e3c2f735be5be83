//! Layered application configuration: a default source, a source named after
//! the deployment environment, a local source and environment variables are
//! merged in that order, and the result is read into a typed [`AppConfig`].

pub mod error;
pub mod layers;
pub mod loader;
pub mod settings;
pub mod sources;
pub mod store;

pub use error::ConfigError;
pub use settings::{AppConfig, Database};
