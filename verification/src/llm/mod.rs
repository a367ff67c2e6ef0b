//! Language-model clients and tracing.

pub mod client;
pub mod langfuse;
