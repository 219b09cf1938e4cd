//! A rate-gated lookup pipeline: resolves a player name to an identifier
//! through an upstream directory, fetches the matching profile, decodes the
//! embedded texture blob, and decides which resource URL to stream back.
//!
//! The library holds the verified core: the pacing arithmetic of the rate
//! gate, the response-envelope handling, and the staged pipeline decisions.
//! Network transport and the HTTP server live outside it.

pub mod api;
pub mod decode;
pub mod error;
pub mod pipeline;
pub mod ratelimit;

pub use ratelimit::RateLimit;
