//! The calls this library makes into outside crates and into parts of std
//! that vstd gives no specification, each with the contract it is trusted to
//! meet.

pub mod glob_calls;
pub mod regex_calls;
pub mod json_calls;
