pub mod dockerfile;
pub mod exclusion;
pub mod file;
pub mod overview;
pub mod problem;
pub mod ranking;
pub mod tree;
pub mod relevance;
