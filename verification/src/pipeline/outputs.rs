//! What each stage reports of its work.

use crate::decimal::Decimal;
use crate::ebay::inventory::InventoryItemRequest;
use crate::ebay::offers::{CreateOfferRequest, UpdateOfferRequest};
use crate::pipeline::{CategorySelection, TaxonomyAspect};
use vstd::prelude::*;

verus! {

/// A category that was not chosen.
#[derive(Debug)]
pub struct CategoryAlternative {
    pub id: String,
    pub label: String,
    pub keywords: Vec<String>,
}

/// The output document of a stage. `overridden` says that the client
/// supplied the stage's value and the stage did no work of its own.
#[derive(Debug)]
pub enum StageOutput {
    ResolveImages { count: usize, preview: Vec<String>, use_signed_urls: bool, overridden: bool },
    SelectCategory {
        selected: CategorySelection,
        alternatives: Vec<CategoryAlternative>,
        image_signature: Option<String>,
        overridden: bool,
    },
    FetchTaxonomy { category_id: String, aspect_count: usize, sample_aspects: Vec<TaxonomyAspect> },
    AcquireUserToken { token_preview: String, scopes: Vec<String>, expires_in_seconds: u64 },
    PrepareConditions { allowed: Vec<String>, default_condition: String },
    ExtractProduct {
        name: String,
        brand: Option<String>,
        color: Option<String>,
        images: usize,
        overridden: bool,
    },
    BuildListing {
        title: String,
        price: Decimal,
        currency: String,
        condition: String,
        aspect_count: usize,
    },
    PushInventory {
        sku: String,
        location: String,
        status: &'static str,
        media_attached: usize,
        inventory_request: InventoryItemRequest,
    },
    PublishOffer {
        listing_id: String,
        category: String,
        token_preview: String,
        title: String,
        media_count: usize,
        create_offer: CreateOfferRequest,
        update_offer: UpdateOfferRequest,
        offer_id: Option<String>,
    },
}

} // verus!
