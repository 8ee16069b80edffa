//! Offers: the requests that create, change and publish them.

#![allow(non_snake_case)]

use crate::aspect_map::AspectMap;
use crate::decimal::{fixed2_spec, Decimal};
use crate::ebay::listing::{ListingPolicies, PackageWeightAndSizePayload};
use crate::text::{concat2, concat3, copy_str};
use vstd::prelude::*;

verus! {

/// Why an offer call failed.
#[derive(Debug)]
pub enum EbayOfferError {
    Request(String),
    EntityExists,
}

impl EbayOfferError {
    /// The text of the failure.
    pub open spec fn message_spec(self) -> Seq<char> {
        match self {
            EbayOfferError::Request(detail) => "request failed: "@ + detail@,
            EbayOfferError::EntityExists => "entity already exists"@,
        }
    }

    /// The text of the failure.
    pub fn message(&self) -> (out: String)
        ensures
            out@ == self.message_spec(),
    {
        match self {
            EbayOfferError::Request(detail) => concat2("request failed: ", detail.as_str()),
            EbayOfferError::EntityExists => copy_str("entity already exists"),
        }
    }
}

/// The price of an offer.
#[derive(Debug)]
pub struct PricingSummary {
    pub price: Price,
}

/// An amount as a numeral with two fractional digits, and its currency.
#[derive(Debug)]
pub struct Price {
    pub value: String,
    pub currency: String,
}

impl Price {
    /// The price of `amount` in `currency`.
    pub fn from_amount(amount: Decimal, currency: &str) -> (out: Price)
        ensures
            out.value@ == fixed2_spec(amount.micros as int),
            out.currency@ == currency@,
    {
        Price { value: amount.format_fixed2(), currency: copy_str(currency) }
    }

    /// A copy of the price.
    pub fn copy(&self) -> (out: Price)
        ensures
            out.value@ == self.value@,
            out.currency@ == self.currency@,
    {
        Price { value: self.value.clone(), currency: self.currency.clone() }
    }
}

/// The body of the request that creates an offer.
#[derive(Debug)]
pub struct CreateOfferRequest {
    pub sku: String,
    pub marketplace_id: String,
    pub format: &'static str,
    pub category_id: String,
    pub listing_description: String,
    pub pricing_summary: PricingSummary,
    pub available_quantity: i32,
    pub merchant_location_key: String,
    pub listing_policies: ListingPolicies,
    pub aspects: AspectMap,
    pub package_weight_and_size: Option<PackageWeightAndSizePayload>,
    pub image_urls: Vec<String>,
}

/// The body of the request that changes an offer.
#[derive(Debug)]
pub struct UpdateOfferRequest {
    pub format: &'static str,
    pub category_id: String,
    pub listing_description: String,
    pub pricing_summary: PricingSummary,
    pub available_quantity: i32,
    pub listing_policies: ListingPolicies,
    pub merchant_location_key: String,
    pub package_weight_and_size: Option<PackageWeightAndSizePayload>,
}

/// An offer as a search by stock keeping unit reports it.
#[derive(Debug)]
pub struct OfferSummary {
    pub offerId: Option<String>,
    pub marketplaceId: Option<String>,
}

/// The address of the offers collection.
pub fn offers_url(root: &str) -> (out: String)
    ensures
        out@ == root@ + "/sell/inventory/v1/offer"@,
{
    concat2(root, "/sell/inventory/v1/offer")
}

/// The address of the offer `offer_id`.
pub fn offer_url(root: &str, offer_id: &str) -> (out: String)
    ensures
        out@ == root@ + "/sell/inventory/v1/offer/"@ + offer_id@,
{
    concat3(root, "/sell/inventory/v1/offer/", offer_id)
}

/// The address that publishes the offer `offer_id`.
pub fn offer_publish_url(root: &str, offer_id: &str) -> (out: String)
    ensures
        out@ == root@ + "/sell/inventory/v1/offer/"@ + offer_id@ + "/publish"@,
{
    let base = concat3(root, "/sell/inventory/v1/offer/", offer_id);
    concat2(base.as_str(), "/publish")
}

/// The address that withdraws the offer `offer_id`.
pub fn offer_withdraw_url(root: &str, offer_id: &str) -> (out: String)
    ensures
        out@ == root@ + "/sell/inventory/v1/offer/"@ + offer_id@ + "/withdraw"@,
{
    let base = concat3(root, "/sell/inventory/v1/offer/", offer_id);
    concat2(base.as_str(), "/withdraw")
}

/// What an answer's status means for the request that creates an offer:
/// 409 says that the offer exists already, 200 to 299 is success, every
/// other status is a failure that quotes `status_line`.
pub fn check_create_status(status: u16, status_line: &str) -> (out: Result<(), EbayOfferError>)
    ensures
        out is Ok <==> 200 <= status < 300,
        status == 409 ==> out == Err::<(), EbayOfferError>(EbayOfferError::EntityExists),
        (status != 409 && !(200 <= status < 300)) ==> out is Err && out->Err_0 is Request
            && out->Err_0->Request_0@ == "HTTP "@ + status_line@,
{
    if status == 409 {
        Err(EbayOfferError::EntityExists)
    } else if 200 <= status && status < 300 {
        Ok(())
    } else {
        Err(EbayOfferError::Request(concat2("HTTP ", status_line)))
    }
}

/// What an answer's status means for every other offer request: success for
/// 200 to 299, a failure that quotes `status_line` for every other status.
pub fn check_offer_status(status: u16, status_line: &str) -> (out: Result<(), EbayOfferError>)
    ensures
        out is Ok <==> 200 <= status < 300,
        out is Err ==> out->Err_0 is Request && out->Err_0->Request_0@ == "HTTP "@
            + status_line@,
{
    if 200 <= status && status < 300 {
        Ok(())
    } else {
        Err(EbayOfferError::Request(concat2("HTTP ", status_line)))
    }
}

} // verus!
