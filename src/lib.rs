//! Client for a text-to-speech provider's REST API: request construction,
//! response checking and the voice records the provider returns.

pub mod api;
pub mod error;
