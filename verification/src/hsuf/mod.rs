//! Products as a schema.org-flavoured record, and what turns one into a listing.

pub mod ingest;
pub mod measurements;
pub mod models;
pub mod transform;
