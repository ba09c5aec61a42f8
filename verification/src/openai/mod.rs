//! The sign-in of OpenAI.

pub mod oauth;
