//! Inventory items and inventory locations.

use crate::aspect_map::AspectMap;
use crate::ebay::listing::PackageWeightAndSizePayload;
use crate::text::concat2;
use vstd::prelude::*;
use vstd::utf8::encode_utf8;

verus! {

/// Why an inventory call failed.
#[derive(Debug)]
pub enum EbayInventoryError {
    Request(String),
}

impl EbayInventoryError {
    /// The text of the failure.
    pub open spec fn message_spec(self) -> Seq<char> {
        match self {
            EbayInventoryError::Request(detail) => "request failed: "@ + detail@,
        }
    }

    /// The text of the failure.
    pub fn message(&self) -> (out: String)
        ensures
            out@ == self.message_spec(),
    {
        match self {
            EbayInventoryError::Request(detail) => concat2("request failed: ", detail.as_str()),
        }
    }
}

/// The body of an inventory item upsert.
#[derive(Debug)]
pub struct InventoryItemRequest {
    pub availability: InventoryAvailability,
    pub product: InventoryProduct,
    pub package_weight_and_size: Option<PackageWeightAndSizePayload>,
}

/// How much of an item can be had.
#[derive(Debug, Clone, Copy)]
pub struct InventoryAvailability {
    pub ship_to_location_availability: ShipToLocationAvailability,
}

/// How much of an item can be shipped.
#[derive(Debug, Clone, Copy)]
pub struct ShipToLocationAvailability {
    pub quantity: i32,
}

/// What an inventory item says of the product. No aspects at all are sent
/// in place of an empty set.
#[derive(Debug)]
pub struct InventoryProduct {
    pub title: String,
    pub description: String,
    pub aspects: Option<AspectMap>,
    pub image_urls: Vec<String>,
}

/// The body of an inventory location upsert.
#[derive(Debug)]
pub struct InventoryLocationRequest {
    pub merchant_location_status: &'static str,
    pub location_types: Vec<&'static str>,
    pub name: String,
    pub location: LocationDetails,
}

/// Where a location is.
#[derive(Debug)]
pub struct LocationDetails {
    pub address: LocationAddress,
    pub geo_coordinates: Option<LocationGeo>,
}

/// The postal address of a location.
#[derive(Debug)]
pub struct LocationAddress {
    pub address_line1: String,
    pub address_line2: Option<String>,
    pub city: String,
    pub state_or_province: String,
    pub postal_code: String,
    pub country: String,
}

/// The coordinates of a location.
#[derive(Debug)]
pub struct LocationGeo {
    pub latitude: Option<String>,
    pub longitude: Option<String>,
}

/// Whether a byte stands for itself in a percent-encoded text: an ASCII
/// letter or digit, or one of `-`, `.`, `_`, `~`.
pub open spec fn is_unreserved(b: u8) -> bool {
    (0x30 <= b <= 0x39) || (0x41 <= b <= 0x5A) || (0x61 <= b <= 0x7A) || b == 0x2D || b == 0x2E
        || b == 0x5F || b == 0x7E
}

/// The upper-case hexadecimal digit for `d`, which is below sixteen.
pub open spec fn hex_digit(d: u8) -> char {
    if d < 10 {
        ((0x30 + d) as u8) as char
    } else {
        ((0x41 + d - 10) as u8) as char
    }
}

/// One byte percent-encoded: itself when unreserved, else `%` and two hexadecimal digits.
pub open spec fn percent_byte(b: u8) -> Seq<char> {
    if is_unreserved(b) {
        seq![b as char]
    } else {
        seq!['%', hex_digit(b / 16), hex_digit(b % 16)]
    }
}

/// The percent-encoding of a byte sequence.
pub open spec fn percent_encoded(bytes: Seq<u8>) -> Seq<char>
    decreases bytes.len(),
{
    if bytes.len() == 0 {
        Seq::<char>::empty()
    } else {
        percent_encoded(bytes.drop_last()) + percent_byte(bytes.last())
    }
}

/// `urlencoding::encode`: every byte of the UTF-8 form of `data` that is not
/// unreserved becomes `%` and two upper-case hexadecimal digits.
#[verifier::external_body]
fn percent_encode(data: &str) -> (out: String)
    ensures
        out@ == percent_encoded(encode_utf8(data@)),
{
    urlencoding::encode(data).into_owned()
}

/// The address of the inventory item with stock keeping unit `sku`.
pub fn inventory_item_url(root: &str, sku: &str) -> (out: String)
    ensures
        out@ == root@ + "/sell/inventory/v1/inventory_item/"@ + percent_encoded(
            encode_utf8(sku@),
        ),
{
    let base = concat2(root, "/sell/inventory/v1/inventory_item/");
    let tail = percent_encode(sku);
    concat2(base.as_str(), tail.as_str())
}

/// The address of the inventory location with key `merchant_location_key`.
pub fn inventory_location_url(root: &str, merchant_location_key: &str) -> (out: String)
    ensures
        out@ == root@ + "/sell/inventory/v1/location/"@ + percent_encoded(
            encode_utf8(merchant_location_key@),
        ),
{
    let base = concat2(root, "/sell/inventory/v1/location/");
    let tail = percent_encode(merchant_location_key);
    concat2(base.as_str(), tail.as_str())
}

/// What an answer's status means for an inventory call: success for
/// 200 to 299, a failure that quotes `status_line` for every other status.
pub fn check_inventory_status(status: u16, status_line: &str) -> (out: Result<
    (),
    EbayInventoryError,
>)
    ensures
        out is Ok <==> 200 <= status < 300,
        out is Err ==> out->Err_0 is Request && out->Err_0->Request_0@ == "HTTP "@
            + status_line@,
{
    if 200 <= status && status < 300 {
        Ok(())
    } else {
        Err(EbayInventoryError::Request(concat2("HTTP ", status_line)))
    }
}

} // verus!
