//! Verified core of the engine builder: the logic that selects, filters, ranks
//! and describes the files of a codebase, and the rules that drive the
//! pipeline stages around the language model.

pub mod bindings;
pub mod chat;
pub mod collections;
pub mod config;
pub mod models;
pub mod paths;
pub mod llm;
pub mod stages;
pub mod text;
pub mod utils;
