//! An embeddable key-value and vector store that untrusted callers drive
//! through short sandboxed scripts.
//!
//! A script is checked before it runs ([`validator`]), runs in a runtime
//! that binds a fixed catalog of host functions ([`catalog`]), and every
//! call of such a function is decided here: whether the caller may make it
//! ([`auth`]), what it asks of the stores ([`executor`], [`resume`],
//! [`effect`]) and what it hands back to the script ([`value`],
//! [`transport`]). The stores themselves, the embedding model and the script
//! interpreter are not part of this library.

pub mod agent;
pub mod args;
pub mod auth;
pub mod catalog;
pub mod config;
pub mod effect;
pub mod error;
pub mod errors;
pub mod executor;
pub mod laws;
pub mod local;
pub mod mcp;
pub mod namespace;
pub mod patterns;
pub mod permits;
pub mod registry;
pub mod resume;
pub mod sandbox;
pub mod syntax;
pub mod text;
pub mod transport;
pub mod validator;
pub mod value;

pub use crate::auth::AuthManager;
pub use crate::config::Config;
pub use crate::error::{LiathError, LiathResult};
pub use crate::namespace::{MetricKind, Namespace, NamespaceManager, NamespaceMetadata, ScalarKind};
pub use crate::validator::LuaValidator;
