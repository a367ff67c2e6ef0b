//! The rules of the pipeline stages: what each stage reads out of model
//! replies, and what it decides from the results of the work around it.

pub mod retry;
pub mod container;
pub mod dockerfile;
pub mod scripts;
pub mod file_selection;
pub mod relevance;
pub mod ranking;
pub mod overview;
pub mod chat;
