//! The tenant-config store: what it holds for an organization and how it is asked.

use crate::text::{concat2, concat3, trim_end_matches_slash, trim_end_slash_spec};
use vstd::prelude::*;

verus! {

/// Why the store gave no answer.
#[derive(Debug)]
pub enum SupabaseError {
    Request(String),
    Deserialize(String),
}

impl SupabaseError {
    /// The text of the failure.
    pub open spec fn message_spec(self) -> Seq<char> {
        match self {
            SupabaseError::Request(detail) => "request failed: "@ + detail@,
            SupabaseError::Deserialize(detail) => "invalid response: "@ + detail@,
        }
    }

    /// The text of the failure.
    pub fn message(&self) -> (out: String)
        ensures
            out@ == self.message_spec(),
    {
        match self {
            SupabaseError::Request(detail) => concat2("request failed: ", detail.as_str()),
            SupabaseError::Deserialize(detail) => concat2("invalid response: ", detail.as_str()),
        }
    }
}

/// What the store holds for one organization. The organization is held as
/// the 128 bits of its identifier.
#[derive(Debug)]
pub struct EbayOrgConfig {
    pub org_id: u128,
    pub merchant_location_key: String,
    pub fulfillment_policy_id: String,
    pub payment_policy_id: String,
    pub return_policy_id: String,
    pub marketplace: Option<String>,
    pub location_name: Option<String>,
    pub address_line1: Option<String>,
    pub address_line2: Option<String>,
    pub city: Option<String>,
    pub state_or_province: Option<String>,
    pub postal_code: Option<String>,
    pub country: Option<String>,
    pub latitude: Option<String>,
    pub longitude: Option<String>,
}

/// The root of the store as it is used: `base_url` without trailing slashes.
pub fn store_root(base_url: &str) -> (out: String)
    ensures
        out@ == trim_end_slash_spec(base_url@),
{
    trim_end_matches_slash(base_url)
}

/// The address that answers with the configuration of the organization
/// with the identifier `org_id`.
pub fn org_config_url(root: &str, org_id: u128) -> (out: String)
    ensures
        out@ == root@ + "/rest/v1/ebay_org_config?org_id=eq."@ + crate::ids::hyphenated(org_id)
            + "&select=*&limit=1"@,
{
    let id = crate::ids::format_id(org_id);
    let head = concat3(root, "/rest/v1/ebay_org_config?org_id=eq.", id.as_str());
    concat2(head.as_str(), "&select=*&limit=1")
}

/// The value of the authorization header for the key `service_key`.
pub fn bearer(service_key: &str) -> (out: String)
    ensures
        out@ == "Bearer "@ + service_key@,
{
    concat2("Bearer ", service_key)
}

/// What an answer's status means: success for 200 to 299, a failure that
/// quotes `status_line` for every other status.
pub fn check_store_status(status: u16, status_line: &str) -> (out: Result<(), SupabaseError>)
    ensures
        out is Ok <==> 200 <= status < 300,
        out is Err ==> out->Err_0 is Request && out->Err_0->Request_0@ == "HTTP "@
            + status_line@,
{
    if 200 <= status && status < 300 {
        Ok(())
    } else {
        Err(SupabaseError::Request(concat2("HTTP ", status_line)))
    }
}

} // verus!
