//! Typed client logic for the Redmine REST API.

pub mod config;
pub mod constants;
pub mod errors;
pub mod http;
pub mod json;
pub mod resources;
pub mod text;
pub mod types;
pub mod utils;

pub use config::{AuthMethod, RedmineConfig, RedmineConfigBuilder};
pub use errors::{ErrorCategory, ErrorContext, RedmineError};
