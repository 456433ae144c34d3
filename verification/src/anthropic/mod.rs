//! The Anthropic Messages and Files APIs.

pub mod body;
pub mod complete;
pub mod convert;
pub mod error;
pub mod event;
pub mod files;
pub mod provider;
pub mod stream;
pub mod transport;
pub mod wire;
