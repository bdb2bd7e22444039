//! A verified rendering and normalization library for a Tautulli (Plexpy)
//! monitoring client: it interprets decoded API envelopes, distinguishes
//! error from success payloads, and formats activity and history views
//! for a terminal.

pub mod config;
pub mod decode;
pub mod duration;
pub mod json;
pub mod model;
pub mod printer;
pub mod progress;
pub mod request;
