//! Gopher MCP SDK: the verified core of an AI-agent orchestration client.
//!
//! The native agent engine is reached through a dynamically loaded library;
//! this crate holds everything that decides what is sent to it and what its
//! answers mean: configurations, results, errors, library lookup, the
//! one-time initialisation state, the agent lifecycle and the token
//! validation outcomes.

pub mod agent;
pub mod auth;
pub mod config;
pub mod error;
pub mod native;
pub mod result;
pub mod runtime;
pub mod text;

pub use agent::{AgentLifecycle, AgentRequest, CreationMode};
pub use auth::{TokenPayload, ValidationResult};
pub use config::{Config, ConfigBuilder, ConfigView};
pub use error::{Error, Result};
pub use native::TargetOs;
pub use result::{AgentResult, AgentResultBuilder, AgentResultStatus};
pub use runtime::{init, is_initialized, shutdown, Runtime};
