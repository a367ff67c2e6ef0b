pub mod json_utils;
pub mod token_counter;
pub mod trajectory_store;
