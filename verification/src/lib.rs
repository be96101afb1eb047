//! A synthetic load generator for a message-broker stream: provisions
//! named streams idempotently, then selects a target per attempt under a
//! configurable policy, builds uniquely correlatable message envelopes,
//! and paces publication.

pub mod config;
pub mod effects;
pub mod envelope;
pub mod errors;
pub mod provision;
pub mod publish;
pub mod selection;
