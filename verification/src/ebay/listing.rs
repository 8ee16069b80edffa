//! The parts of a listing that several marketplace requests share.

use crate::aspect_map::AspectMap;
use crate::decimal::Decimal;
use vstd::prelude::*;

verus! {

/// The three business policies of a listing.
#[derive(Debug)]
pub struct ListingPolicies {
    pub fulfillment_policy_id: String,
    pub payment_policy_id: String,
    pub return_policy_id: String,
}

impl ListingPolicies {
    /// A copy of the policies.
    pub fn copy(&self) -> (out: ListingPolicies)
        ensures
            out.fulfillment_policy_id@ == self.fulfillment_policy_id@,
            out.payment_policy_id@ == self.payment_policy_id@,
            out.return_policy_id@ == self.return_policy_id@,
    {
        ListingPolicies {
            fulfillment_policy_id: self.fulfillment_policy_id.clone(),
            payment_policy_id: self.payment_policy_id.clone(),
            return_policy_id: self.return_policy_id.clone(),
        }
    }
}

/// A listing as assembled from a product, before policies and location are known.
#[derive(Debug)]
pub struct EbayListingDraft {
    pub sku: String,
    pub title: String,
    pub description: String,
    pub price: Decimal,
    pub currency: String,
    pub category_id: String,
    pub quantity: i32,
    pub aspects: AspectMap,
    pub images: Vec<String>,
}

/// Weight and size of the package of an item.
#[derive(Debug, Clone, Copy)]
pub struct PackageWeightAndSizePayload {
    pub package_weight: WeightPayload,
    pub package_size: DimensionsPayload,
}

/// A weight with its unit.
#[derive(Debug, Clone, Copy)]
pub struct WeightPayload {
    pub value: Decimal,
    pub unit: &'static str,
}

/// Three lengths with their unit.
#[derive(Debug, Clone, Copy)]
pub struct DimensionsPayload {
    pub height: Decimal,
    pub length: Decimal,
    pub width: Decimal,
    pub unit: &'static str,
}

} // verus!
