//! Listing-creation service core: staged pipeline, offer reconciliation,
//! admission control and job tracking, with machine-checked contracts.

pub mod aspect_map;
pub mod config;
pub mod decimal;
pub mod ebay;
pub mod hsuf;
pub mod idempotency;
pub mod ids;
pub mod jobs;
pub mod json;
pub mod llm;
pub mod models;
pub mod pipeline;
pub mod rate_limit;
pub mod security;
pub mod supabase;
pub mod text;
