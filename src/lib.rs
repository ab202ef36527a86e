//! Orchestration core of a media-fetch front end: proof-of-work gate,
//! single-flight job registry, result cache with eviction, and the
//! format fallback chain that drives an external extractor.

pub mod text;
pub mod media;
pub mod resource;
pub mod crypto;
pub mod models;
pub mod store;
pub mod gate;
pub mod orchestrator;
pub mod janitor;
pub mod laws;
pub mod extractor;
pub mod cookies;
pub mod request;
