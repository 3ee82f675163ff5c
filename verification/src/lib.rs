//! Batch dispatch of chat requests across language-model providers:
//! usage metrics, provider configuration, simulated and live accounting,
//! and the chunked round-robin dispatcher.

pub mod config;
pub mod dispatch;
pub mod json;
pub mod live;
pub mod metrics;
pub mod provider;
pub mod simulation;
pub mod system;
