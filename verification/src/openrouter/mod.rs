//! The credits of OpenRouter.

pub mod fetch;
pub mod snapshot;
pub mod types;
