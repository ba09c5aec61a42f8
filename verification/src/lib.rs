//! Usage snapshots of AI vendors: what their endpoints answer, how an answer becomes a
//! snapshot, and what is served from the local cache when a vendor cannot be reached.

pub mod amount;
pub mod double;
pub mod error;
pub mod http;
pub mod json;
pub mod nearest;
pub mod openai;
pub mod openrouter;
pub mod text;
pub mod time;
pub mod usage;
pub mod zai;
