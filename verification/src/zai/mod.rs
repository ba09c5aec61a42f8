//! The coding plans of Z.AI.

pub mod fetch;
pub mod types;
