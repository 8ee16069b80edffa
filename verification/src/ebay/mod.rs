//! Marketplace request and response shapes, and what is computed around each call.

pub mod auth;
pub mod config;
pub mod inventory;
pub mod listing;
pub mod offers;
pub mod taxonomy;
