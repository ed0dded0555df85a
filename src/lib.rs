//! Health-check service logic: the record a health request produces, the reply
//! built from the outcome of the offloaded work, and the server's configuration.

pub mod config;
pub mod health;

pub use config::{ConfigError, ServerConfig};
pub use health::{health_check, project_name, reply_to, HealthCheck, OffloadError, Reply};
