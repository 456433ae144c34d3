//! Chat with language models: the adapters for the providers, and the records that are kept of
//! attachments.

pub mod anthropic;
pub mod attachment;
pub mod azure;
pub mod double;
pub mod headers;
pub mod json;
pub mod llm;
pub mod migrations;
pub mod mime_validation;
pub mod order;
pub mod outbound;
pub mod request;
pub mod text;
