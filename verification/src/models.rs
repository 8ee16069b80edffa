//! What a client sends and what it gets back.

use crate::decimal::Decimal;
use crate::ids::utc_now_millis;
use crate::json::JsonValue;
use crate::pipeline::outputs::StageOutput;
use crate::text::{copy_str, same_text, trim_spec, trimmed_upper, uppercase_of};
use vstd::prelude::*;

verus! {

/// The marketplace that a listing is made for.
#[derive(Debug, Clone, Copy, PartialEq, Eq, Structural, Hash)]
pub enum MarketplaceId {
    EbayUs,
    EbayUk,
    EbayDe,
}

impl Default for MarketplaceId {
    fn default() -> (out: MarketplaceId)
        ensures
            out == MarketplaceId::EbayUs,
    {
        MarketplaceId::EbayUs
    }
}

/// The marketplace that an upper-case word names.
pub open spec fn marketplace_named(upper: Seq<char>) -> Option<MarketplaceId> {
    if upper == "EBAY_US"@ {
        Some(MarketplaceId::EbayUs)
    } else if upper == "EBAY_GB"@ || upper == "EBAY_UK"@ {
        Some(MarketplaceId::EbayUk)
    } else if upper == "EBAY_DE"@ {
        Some(MarketplaceId::EbayDe)
    } else {
        None
    }
}

impl MarketplaceId {
    /// The marketplace's own code for itself.
    pub open spec fn code_spec(self) -> Seq<char> {
        match self {
            MarketplaceId::EbayUs => "EBAY_US"@,
            MarketplaceId::EbayUk => "EBAY_GB"@,
            MarketplaceId::EbayDe => "EBAY_DE"@,
        }
    }

    /// The root of the selling interface of the marketplace.
    pub open spec fn route_spec(self) -> Seq<char> {
        match self {
            MarketplaceId::EbayUs => "https://api.ebay.com/sell"@,
            MarketplaceId::EbayUk => "https://api.ebay.co.uk/sell"@,
            MarketplaceId::EbayDe => "https://api.ebay.de/sell"@,
        }
    }

    /// The marketplace's own code for itself.
    pub fn ebay_code(&self) -> (out: &'static str)
        ensures
            out@ == self.code_spec(),
    {
        match self {
            MarketplaceId::EbayUs => "EBAY_US",
            MarketplaceId::EbayUk => "EBAY_GB",
            MarketplaceId::EbayDe => "EBAY_DE",
        }
    }

    /// The root of the selling interface of the marketplace.
    pub fn marketplace_route(&self) -> (out: &'static str)
        ensures
            out@ == self.route_spec(),
    {
        match self {
            MarketplaceId::EbayUs => "https://api.ebay.com/sell",
            MarketplaceId::EbayUk => "https://api.ebay.co.uk/sell",
            MarketplaceId::EbayDe => "https://api.ebay.de/sell",
        }
    }

    /// The marketplace that `input` names, whatever its letter case and the
    /// white space around it.
    pub fn from_str(input: &str) -> (out: Option<MarketplaceId>)
        ensures
            out == marketplace_named(uppercase_of(trim_spec(input@))),
    {
        let upper = trimmed_upper(input);
        if same_text(upper.as_str(), "EBAY_US") {
            Some(MarketplaceId::EbayUs)
        } else if same_text(upper.as_str(), "EBAY_GB") || same_text(upper.as_str(), "EBAY_UK") {
            Some(MarketplaceId::EbayUk)
        } else if same_text(upper.as_str(), "EBAY_DE") {
            Some(MarketplaceId::EbayDe)
        } else {
            None
        }
    }
}

/// Where the images of a listing come from: one text that may hold several
/// addresses, or a sequence of addresses.
#[derive(Debug)]
pub enum ImagesSource {
    Single(String),
    Multiple(Vec<String>),
}

/// A category chosen by the client.
#[derive(Debug)]
pub struct CategorySelectionInput {
    pub id: String,
    pub tree_id: String,
    pub label: String,
    pub confidence: Decimal,
    pub rationale: String,
}

/// What a client supplies in place of a stage's own work.
#[derive(Debug)]
pub struct PipelineOverrides {
    pub resolved_images: Option<Vec<String>>,
    pub category: Option<CategorySelectionInput>,
    pub product: Option<JsonValue>,
}

/// A request for a listing.
#[derive(Debug)]
pub struct ListingRequest {
    pub images_source: ImagesSource,
    pub sku: String,
    pub merchant_location_key: String,
    pub fulfillment_policy_id: String,
    pub payment_policy_id: String,
    pub return_policy_id: String,
    pub marketplace: MarketplaceId,
    pub llm_provider: Option<String>,
    pub llm_listing_model: Option<String>,
    pub llm_category_model: Option<String>,
    pub use_signed_urls: bool,
    pub overrides: Option<PipelineOverrides>,
    pub dry_run: bool,
}

/// The record of one stage of a run.
#[derive(Debug)]
pub struct StageReport {
    pub name: String,
    pub elapsed_ms: u128,
    /// Milliseconds since the Unix epoch at which the report was made.
    pub timestamp: i64,
    pub output: StageOutput,
}

impl StageReport {
    /// The report of the stage `name` that took `elapsed_ms` and gave
    /// `output`, stamped with the time of the call.
    pub fn new(name: &str, elapsed_ms: u128, output: StageOutput) -> (out: StageReport)
        ensures
            out.name@ == name@,
            out.elapsed_ms == elapsed_ms,
            out.output == output,
    {
        StageReport { name: copy_str(name), elapsed_ms, timestamp: utc_now_millis(), output }
    }
}

/// The answer to a request for a listing.
#[derive(Debug)]
pub struct ListingResponse {
    pub listing_id: String,
    pub stages: Vec<StageReport>,
}

/// An error as a client sees it.
#[derive(Debug)]
pub struct ApiError {
    pub error: String,
    pub detail: Option<String>,
}

/// The names of the stages of `reports`, in order.
pub open spec fn report_names(reports: Seq<StageReport>) -> Seq<Seq<char>> {
    Seq::new(reports.len(), |i: int| reports[i].name@)
}

} // verus!
