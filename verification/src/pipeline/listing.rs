//! Assembling a listing and the requests that carry it to the marketplace.

use crate::decimal::fixed2_spec;
use crate::ebay::inventory::{
    InventoryAvailability, InventoryItemRequest, InventoryLocationRequest, InventoryProduct,
    LocationAddress, LocationDetails, LocationGeo, ShipToLocationAvailability,
};
use crate::ebay::listing::{EbayListingDraft, ListingPolicies, PackageWeightAndSizePayload};
use crate::ebay::offers::{CreateOfferRequest, Price, PricingSummary, UpdateOfferRequest};
use crate::hsuf::models::Product;
use crate::ids::{fresh_simple_id, is_simple_id};
use crate::models::{marketplace_named, ListingRequest, MarketplaceId};
use crate::pipeline::outputs::StageOutput;
use crate::pipeline::{
    ConditionBundle, ListingPlan, OfferResult, PipelineError, PipelineErrorKind, StageOutcome,
};
use crate::supabase::EbayOrgConfig;
use crate::text::{
    concat2, concat3, copy_opt, copy_str, copy_strings, is_blank, is_blank_str, lines, lines_spec,
    opt_text, prefix, prefix_spec, push_text, texts, trim, trim_spec, uppercase_of,
};
use vstd::prelude::*;

verus! {

/// Where a seller's goods are.
#[derive(Debug)]
pub struct LocationMetadata {
    pub name: String,
    pub address_line1: String,
    pub address_line2: Option<String>,
    pub city: String,
    pub state_or_province: String,
    pub postal_code: String,
    pub country: String,
    pub latitude: Option<String>,
    pub longitude: Option<String>,
}

/// What a run knows of the seller: location key, policies, marketplace and location.
#[derive(Debug)]
pub struct EbayRuntimeConfig {
    pub merchant_location_key: String,
    pub policies: ListingPolicies,
    pub marketplace: MarketplaceId,
    pub location: Option<LocationMetadata>,
}

/// The value of a field: the stored one when there is one, else the request's.
pub open spec fn chosen_value(stored: Option<Seq<char>>, requested: Seq<char>) -> Seq<char> {
    match stored {
        Some(v) => v,
        None => requested,
    }
}

/// The value of the field `field`: the stored one when there is one, else
/// the request's; a blank value is refused.
pub fn select_value(supabase_value: Option<&str>, request_value: &str, field: &str) -> (out:
    Result<String, PipelineError>)
    ensures
        ({
            let candidate = chosen_value(
                match supabase_value {
                    Some(v) => Some(v@),
                    None => None,
                },
                request_value@,
            );
            if is_blank(candidate) {
                out is Err && out->Err_0.is(
                    PipelineErrorKind::InvalidInput,
                    "ebay_config"@,
                    "missing_"@ + field@,
                )
            } else {
                out is Ok && out->Ok_0@ == candidate
            }
        }),
{
    let candidate = match supabase_value {
        Some(v) => copy_str(v),
        None => copy_str(request_value),
    };
    if is_blank_str(candidate.as_str()) {
        let message = concat2("missing_", field);
        Err(PipelineError::invalid_input("ebay_config", message.as_str()))
    } else {
        Ok(candidate)
    }
}

/// An optional text that counts only when it is not blank.
pub open spec fn unless_blank(value: Option<String>) -> Option<Seq<char>> {
    match value {
        Some(v) => if is_blank(v@) {
            None
        } else {
            Some(v@)
        },
        None => None,
    }
}

fn keep_unless_blank(value: &Option<String>) -> (out: Option<String>)
    ensures
        opt_text(out) == unless_blank(*value),
{
    match value {
        Some(v) => if is_blank_str(v.as_str()) {
            None
        } else {
            Some(v.clone())
        },
        None => None,
    }
}

/// Whether a stored configuration names a whole location.
pub open spec fn has_location(cfg: EbayOrgConfig) -> bool {
    cfg.location_name is Some && cfg.address_line1 is Some && cfg.city is Some
        && cfg.state_or_province is Some && cfg.postal_code is Some && cfg.country is Some
}

/// Whether `loc` is the location that the stored configuration `cfg`
/// names: each text trimmed; second address line and coordinates count
/// when not blank.
pub open spec fn is_location_of(loc: LocationMetadata, cfg: EbayOrgConfig) -> bool {
    &&& loc.name@ == trim_spec(cfg.location_name->0@)
    &&& loc.address_line1@ == trim_spec(cfg.address_line1->0@)
    &&& opt_text(loc.address_line2) == unless_blank(cfg.address_line2)
    &&& loc.city@ == trim_spec(cfg.city->0@)
    &&& loc.state_or_province@ == trim_spec(cfg.state_or_province->0@)
    &&& loc.postal_code@ == trim_spec(cfg.postal_code->0@)
    &&& loc.country@ == trim_spec(cfg.country->0@)
    &&& opt_text(loc.latitude) == unless_blank(cfg.latitude)
    &&& opt_text(loc.longitude) == unless_blank(cfg.longitude)
}

/// The location that a stored configuration names: all of name, first
/// address line, city, state, postal code and country must be there, and
/// each is trimmed; second address line and coordinates count when not blank.
pub fn location_from_config(cfg: &EbayOrgConfig) -> (out: Option<LocationMetadata>)
    ensures
        out is Some <==> has_location(*cfg),
        out is Some ==> is_location_of(out->0, *cfg),
{
    let name = match &cfg.location_name {
        Some(v) => trim(v.as_str()),
        None => {
            return None;
        },
    };
    let address_line1 = match &cfg.address_line1 {
        Some(v) => trim(v.as_str()),
        None => {
            return None;
        },
    };
    let city = match &cfg.city {
        Some(v) => trim(v.as_str()),
        None => {
            return None;
        },
    };
    let state_or_province = match &cfg.state_or_province {
        Some(v) => trim(v.as_str()),
        None => {
            return None;
        },
    };
    let postal_code = match &cfg.postal_code {
        Some(v) => trim(v.as_str()),
        None => {
            return None;
        },
    };
    let country = match &cfg.country {
        Some(v) => trim(v.as_str()),
        None => {
            return None;
        },
    };
    Some(
        LocationMetadata {
            name,
            address_line1,
            address_line2: keep_unless_blank(&cfg.address_line2),
            city,
            state_or_province,
            postal_code,
            country,
            latitude: keep_unless_blank(&cfg.latitude),
            longitude: keep_unless_blank(&cfg.longitude),
        },
    )
}

/// The first of the four seller fields that is blank, by name, if any is:
/// location key, fulfillment, payment and return policy, each the stored
/// value when a configuration is stored, else the request's.
pub open spec fn missing_field(request: ListingRequest, config: Option<EbayOrgConfig>) -> Option<
    Seq<char>,
> {
    if is_blank(seller_field(request, config, 0)) {
        Some("merchant_location_key"@)
    } else if is_blank(seller_field(request, config, 1)) {
        Some("fulfillment_policy_id"@)
    } else if is_blank(seller_field(request, config, 2)) {
        Some("payment_policy_id"@)
    } else if is_blank(seller_field(request, config, 3)) {
        Some("return_policy_id"@)
    } else {
        None
    }
}

/// The seller field number `which`: 0 the location key, 1 to 3 the policies.
pub open spec fn seller_field(request: ListingRequest, config: Option<EbayOrgConfig>, which: int) -> Seq<
    char,
> {
    match config {
        Some(cfg) => if which == 0 {
            cfg.merchant_location_key@
        } else if which == 1 {
            cfg.fulfillment_policy_id@
        } else if which == 2 {
            cfg.payment_policy_id@
        } else {
            cfg.return_policy_id@
        },
        None => if which == 0 {
            request.merchant_location_key@
        } else if which == 1 {
            request.fulfillment_policy_id@
        } else if which == 2 {
            request.payment_policy_id@
        } else {
            request.return_policy_id@
        },
    }
}

/// The marketplace of a run: the one that the stored configuration names,
/// else the request's.
pub open spec fn chosen_marketplace(request: ListingRequest, config: Option<EbayOrgConfig>) -> MarketplaceId {
    match config {
        Some(cfg) => match cfg.marketplace {
            Some(m) => match marketplace_named(uppercase_of(trim_spec(m@))) {
                Some(id) => id,
                None => request.marketplace,
            },
            None => request.marketplace,
        },
        None => request.marketplace,
    }
}

fn stored_field(config: Option<&EbayOrgConfig>, which: u8) -> (out: Option<&str>)
    ensures
        match out {
            Some(v) => config is Some && v@ == (if which == 0 {
                config->0.merchant_location_key@
            } else if which == 1 {
                config->0.fulfillment_policy_id@
            } else if which == 2 {
                config->0.payment_policy_id@
            } else {
                config->0.return_policy_id@
            }),
            None => config is None,
        },
{
    match config {
        Some(cfg) => Some(
            if which == 0 {
                cfg.merchant_location_key.as_str()
            } else if which == 1 {
                cfg.fulfillment_policy_id.as_str()
            } else if which == 2 {
                cfg.payment_policy_id.as_str()
            } else {
                cfg.return_policy_id.as_str()
            },
        ),
        None => None,
    }
}

/// Whether `seller` is what a run knows of the seller from `request` and
/// the stored configuration `config`: each field the stored value when a
/// configuration is stored, else the request's.
pub open spec fn is_seller_of(
    seller: EbayRuntimeConfig,
    request: ListingRequest,
    config: Option<EbayOrgConfig>,
) -> bool {
    &&& seller.merchant_location_key@ == seller_field(request, config, 0)
    &&& seller.policies.fulfillment_policy_id@ == seller_field(request, config, 1)
    &&& seller.policies.payment_policy_id@ == seller_field(request, config, 2)
    &&& seller.policies.return_policy_id@ == seller_field(request, config, 3)
    &&& seller.marketplace == chosen_marketplace(request, config)
    &&& seller.location is Some <==> (config is Some && has_location(config->0))
    &&& seller.location is Some ==> is_location_of(seller.location->0, config->0)
}

/// What a run knows of the seller, from the request and from what is stored
/// for the organization. A blank location key or policy is refused.
pub fn resolve_ebay_config(request: &ListingRequest, config: Option<&EbayOrgConfig>) -> (out:
    Result<EbayRuntimeConfig, PipelineError>)
    ensures
        ({
            let cfg = match config {
                Some(c) => Some(*c),
                None => None,
            };
            match missing_field(*request, cfg) {
                Some(field) => out is Err && out->Err_0.is(
                    PipelineErrorKind::InvalidInput,
                    "ebay_config"@,
                    "missing_"@ + field,
                ),
                None => out is Ok && is_seller_of(out->Ok_0, *request, cfg),
            }
        }),
{
    let merchant_location_key = match select_value(
        stored_field(config, 0),
        request.merchant_location_key.as_str(),
        "merchant_location_key",
    ) {
        Ok(v) => v,
        Err(e) => {
            return Err(e);
        },
    };
    let fulfillment_policy_id = match select_value(
        stored_field(config, 1),
        request.fulfillment_policy_id.as_str(),
        "fulfillment_policy_id",
    ) {
        Ok(v) => v,
        Err(e) => {
            return Err(e);
        },
    };
    let payment_policy_id = match select_value(
        stored_field(config, 2),
        request.payment_policy_id.as_str(),
        "payment_policy_id",
    ) {
        Ok(v) => v,
        Err(e) => {
            return Err(e);
        },
    };
    let return_policy_id = match select_value(
        stored_field(config, 3),
        request.return_policy_id.as_str(),
        "return_policy_id",
    ) {
        Ok(v) => v,
        Err(e) => {
            return Err(e);
        },
    };
    let marketplace = match config {
        Some(cfg) => match &cfg.marketplace {
            Some(m) => match MarketplaceId::from_str(m.as_str()) {
                Some(id) => id,
                None => request.marketplace,
            },
            None => request.marketplace,
        },
        None => request.marketplace,
    };
    let location = match config {
        Some(cfg) => location_from_config(cfg),
        None => None,
    };
    Ok(
        EbayRuntimeConfig {
            merchant_location_key,
            policies: ListingPolicies { fulfillment_policy_id, payment_policy_id, return_policy_id },
            marketplace,
            location,
        },
    )
}

/// `before`, `value` and `after` as one line, or no line without a value.
pub open spec fn framed(before: Seq<char>, value: Option<Seq<char>>, after: Seq<char>) -> Seq<
    Seq<char>,
> {
    match value {
        Some(v) => seq![before + v + after],
        None => Seq::empty(),
    }
}

/// The first line of a text, or the text itself when it has no line.
pub open spec fn first_line(text: Seq<char>) -> Seq<char> {
    if lines_spec(text).len() > 0 {
        lines_spec(text)[0]
    } else {
        text
    }
}

/// What a product has to say for itself, before a stand-in is put in.
pub open spec fn own_bullets(product: Product) -> Seq<Seq<char>> {
    framed("Authentic "@, product.brand_name(), " craftsmanship"@) + framed(
        "Distinctive "@,
        opt_text(product.color),
        " finish"@,
    ) + framed("Premium "@, opt_text(product.material), " materials"@) + (
    match product.description {
        Some(d) => seq![first_line(d@)],
        None => Seq::empty(),
    })
}

/// The selling points of a product: brand, colour, material and the first
/// line of its description, or one stand-in when it has none of them.
pub open spec fn bullets_spec(product: Product) -> Seq<Seq<char>> {
    if own_bullets(product).len() == 0 {
        seq!["LLM-enriched listing details"@]
    } else {
        own_bullets(product)
    }
}

fn push_framed(lines: &mut Vec<String>, before: &str, value: Option<&String>, after: &str)
    ensures
        texts(final(lines)@) == texts(old(lines)@) + framed(
            before@,
            match value {
                Some(v) => Some(v@),
                None => None,
            },
            after@,
        ),
{
    let ghost start = texts(lines@);
    match value {
        Some(v) => {
            lines.push(concat3(before, v.as_str(), after));
            assert(texts(lines@) =~= start + seq![before@ + v@ + after@]);
        },
        None => {
            assert(texts(lines@) =~= start + Seq::<Seq<char>>::empty());
        },
    }
}

/// The selling points of a product.
pub fn bullet_points_from_product(product: &Product) -> (out: Vec<String>)
    ensures
        texts(out@) == bullets_spec(*product),
{
    let mut bullets: Vec<String> = Vec::new();
    assert(texts(bullets@) =~= Seq::empty());
    push_framed(&mut bullets, "Authentic ", product.brand_name_of(), " craftsmanship");
    push_framed(&mut bullets, "Distinctive ", product.color.as_ref(), " finish");
    push_framed(&mut bullets, "Premium ", product.material.as_ref(), " materials");
    let ghost before = texts(bullets@);
    match &product.description {
        Some(d) => {
            let all = lines(d.as_str());
            assert(texts(all@).len() == all@.len());
            let first = if all.len() > 0 {
                assert(texts(all@)[0] == all@[0]@);
                all[0].clone()
            } else {
                d.clone()
            };
            let ghost f = first@;
            bullets.push(first);
            assert(texts(bullets@) =~= before + seq![f]);
        },
        None => {
            assert(texts(bullets@) =~= before + Seq::<Seq<char>>::empty());
        },
    }
    assert(texts(bullets@) =~= own_bullets(*product));
    assert(texts(bullets@).len() == bullets@.len());
    if bullets.len() == 0 {
        push_text(&mut bullets, "LLM-enriched listing details");
        assert(texts(bullets@) =~= seq!["LLM-enriched listing details"@]);
    }
    bullets
}

/// How a list of texts is written for inspection: in square brackets, each
/// text in double quotes with its special characters escaped, commas between.
pub uninterp spec fn debug_list(items: Seq<Seq<char>>) -> Seq<char>;

/// `Debug` of std for a vector of strings: the text depends on the strings alone.
#[verifier::external_body]
fn debug_format(items: &Vec<String>) -> (out: String)
    ensures
        out@ == debug_list(texts(items@)),
{
    format!("{:?}", items)
}

/// What the model is asked when a description is wanted.
pub open spec fn description_prompt_spec(title: Seq<char>, bullets: Seq<Seq<char>>) -> Seq<char> {
    "Generate a compelling, policy-compliant eBay listing description. Title: "@ + title
        + ". Bullet points: "@ + debug_list(bullets) + "."@
}

/// What the model is asked when a description is wanted.
pub fn description_prompt(title: &str, bullets: &Vec<String>) -> (out: String)
    ensures
        out@ == description_prompt_spec(title@, texts(bullets@)),
{
    let head = concat3(
        "Generate a compelling, policy-compliant eBay listing description. Title: ",
        title,
        ". Bullet points: ",
    );
    let list = debug_format(bullets);
    concat3(head.as_str(), list.as_str(), ".")
}

/// The selling points as lines of a list.
pub open spec fn bullet_lines(bullets: Seq<Seq<char>>) -> Seq<char>
    decreases bullets.len(),
{
    if bullets.len() == 0 {
        Seq::empty()
    } else {
        bullet_lines(bullets.drop_last()) + "- "@ + bullets.last() + "\n"@
    }
}

/// The description that stands in when the model gives none.
pub open spec fn templated_description_spec(title: Seq<char>, bullets: Seq<Seq<char>>) -> Seq<char> {
    title + "\n\n"@ + "Highlights:\n"@ + bullet_lines(bullets)
        + "\nAuto-generated demo description. Details may be approximations."@
}

/// The description that stands in when the model gives none: the title,
/// the selling points as a list, and a note.
pub fn templated_description(title: &str, bullets: &Vec<String>) -> (out: String)
    ensures
        out@ == templated_description_spec(title@, texts(bullets@)),
{
    let mut out = concat3(title, "\n\n", "Highlights:\n");
    let ghost head = out@;
    let mut i: usize = 0;
    assert(texts(bullets@).take(0) =~= Seq::<Seq<char>>::empty());
    assert(head + Seq::<char>::empty() =~= head);
    while i < bullets.len()
        invariant
            i <= bullets@.len(),
            out@ == head + bullet_lines(texts(bullets@).take(i as int)),
        decreases bullets@.len() - i,
    {
        let ghost part = texts(bullets@).take(i + 1);
        assert(part.drop_last() =~= texts(bullets@).take(i as int));
        assert(part.last() == bullets@[i as int]@);
        let line = concat3("- ", bullets[i].as_str(), "\n");
        let ghost before = out@;
        out = concat2(out.as_str(), line.as_str());
        assert(out@ =~= head + bullet_lines(part));
        i += 1;
    }
    assert(texts(bullets@).take(bullets@.len() as int) =~= texts(bullets@));
    concat2(out.as_str(), "\nAuto-generated demo description. Details may be approximations.")
}

/// The description of a listing: the model's answer, or the stand-in when
/// the model failed.
pub fn choose_description(answer: Result<String, String>, title: &str, bullets: &Vec<String>) -> (out:
    String)
    ensures
        out@ == match answer {
            Ok(text) => text@,
            Err(_) => templated_description_spec(title@, texts(bullets@)),
        },
{
    match answer {
        Ok(text) => text,
        Err(_) => templated_description(title, bullets),
    }
}

/// Whether `listing`, with the report `output`, is the listing made of
/// `draft`, `package`, `description`, the default of `conditions`, and what
/// is known of the seller, for the stock keeping unit `sku`.
pub open spec fn is_listing_of(
    listing: ListingPlan,
    output: StageOutput,
    sku: Seq<char>,
    draft: EbayListingDraft,
    package: Option<PackageWeightAndSizePayload>,
    description: Seq<char>,
    conditions: ConditionBundle,
    seller: EbayRuntimeConfig,
) -> bool {
    &&& listing.sku@ == sku
    &&& listing.title@ == draft.title@
    &&& listing.price == draft.price
    &&& listing.currency@ == draft.currency@
    &&& listing.condition@ == conditions.default_condition@
    &&& listing.description@ == description
    &&& listing.marketplace == seller.marketplace
    &&& listing.merchant_location_key@ == seller.merchant_location_key@
    &&& listing.category_id@ == draft.category_id@
    &&& texts(listing.media@) == texts(draft.images@)
    &&& listing.policies.fulfillment_policy_id@ == seller.policies.fulfillment_policy_id@
    &&& listing.policies.payment_policy_id@ == seller.policies.payment_policy_id@
    &&& listing.policies.return_policy_id@ == seller.policies.return_policy_id@
    &&& listing.aspects@ == draft.aspects@
    &&& listing.package == package
    &&& output matches StageOutput::BuildListing { title, price, currency, condition, aspect_count }
        && title@ == draft.title@ && price == draft.price && currency@ == draft.currency@
        && condition@ == conditions.default_condition@ && aspect_count == draft.aspects@.len()
}

/// The listing made of a draft, a description, the conditions and what is
/// known of the seller, with its report.
pub fn assemble_listing(
    request: &ListingRequest,
    draft: EbayListingDraft,
    package: Option<PackageWeightAndSizePayload>,
    description: String,
    conditions: &ConditionBundle,
    ebay_cfg: &EbayRuntimeConfig,
) -> (out: StageOutcome<ListingPlan>)
    ensures
        is_listing_of(
            out.value,
            out.output,
            request.sku@,
            draft,
            package,
            description@,
            *conditions,
            *ebay_cfg,
        ),
{
    let output = StageOutput::BuildListing {
        title: draft.title.clone(),
        price: draft.price,
        currency: draft.currency.clone(),
        condition: conditions.default_condition.clone(),
        aspect_count: draft.aspects.len(),
    };
    let listing = ListingPlan {
        sku: request.sku.clone(),
        title: draft.title,
        price: draft.price,
        currency: draft.currency,
        condition: conditions.default_condition.clone(),
        description,
        marketplace: ebay_cfg.marketplace,
        merchant_location_key: ebay_cfg.merchant_location_key.clone(),
        category_id: draft.category_id,
        media: draft.images,
        policies: ebay_cfg.policies.copy(),
        aspects: draft.aspects,
        package,
    };
    StageOutcome { value: listing, output }
}

/// Whether `item` is the inventory item of `listing`: one piece, with
/// title, description, images, package, and the aspects unless there is none.
pub open spec fn is_inventory_of(item: InventoryItemRequest, listing: ListingPlan) -> bool {
    &&& item.availability.ship_to_location_availability.quantity == 1
    &&& item.product.title@ == listing.title@
    &&& item.product.description@ == listing.description@
    &&& item.product.aspects is Some <==> listing.aspects@.len() > 0
    &&& item.product.aspects is Some ==> item.product.aspects->0@ == listing.aspects@
    &&& texts(item.product.image_urls@) == texts(listing.media@)
    &&& item.package_weight_and_size == listing.package
}

/// The inventory item of a listing: one piece, with title, description,
/// images, package, and the aspects unless there is none.
pub fn inventory_request_from_listing(listing: &ListingPlan) -> (out: InventoryItemRequest)
    ensures
        is_inventory_of(out, *listing),
{
    let aspects = if listing.aspects.is_empty() {
        None
    } else {
        Some(listing.aspects.copy())
    };
    InventoryItemRequest {
        availability: InventoryAvailability {
            ship_to_location_availability: ShipToLocationAvailability { quantity: 1 },
        },
        product: InventoryProduct {
            title: listing.title.clone(),
            description: listing.description.clone(),
            aspects,
            image_urls: copy_strings(&listing.media),
        },
        package_weight_and_size: listing.package,
    }
}

/// Whether `payload` is the inventory location that `location` stands
/// for: enabled, a warehouse, with the address and the coordinates.
pub open spec fn is_location_payload(
    payload: InventoryLocationRequest,
    location: LocationMetadata,
) -> bool {
    &&& payload.merchant_location_status@ == "ENABLED"@
    &&& payload.location_types@.len() == 1
    &&& payload.location_types@[0]@ == "WAREHOUSE"@
    &&& payload.name@ == location.name@
    &&& payload.location.address.address_line1@ == location.address_line1@
    &&& opt_text(payload.location.address.address_line2) == opt_text(location.address_line2)
    &&& payload.location.address.city@ == location.city@
    &&& payload.location.address.state_or_province@ == location.state_or_province@
    &&& payload.location.address.postal_code@ == location.postal_code@
    &&& payload.location.address.country@ == location.country@
    &&& payload.location.geo_coordinates is Some
    &&& opt_text(payload.location.geo_coordinates->0.latitude) == opt_text(location.latitude)
    &&& opt_text(payload.location.geo_coordinates->0.longitude) == opt_text(location.longitude)
}

/// The inventory location that a seller's location stands for: enabled, a warehouse.
pub fn location_payload(location: &LocationMetadata) -> (out: InventoryLocationRequest)
    ensures
        is_location_payload(out, *location),
{
    let mut kinds: Vec<&'static str> = Vec::new();
    kinds.push("WAREHOUSE");
    InventoryLocationRequest {
        merchant_location_status: "ENABLED",
        location_types: kinds,
        name: location.name.clone(),
        location: LocationDetails {
            address: LocationAddress {
                address_line1: location.address_line1.clone(),
                address_line2: copy_opt(&location.address_line2),
                city: location.city.clone(),
                state_or_province: location.state_or_province.clone(),
                postal_code: location.postal_code.clone(),
                country: location.country.clone(),
            },
            geo_coordinates: Some(
                LocationGeo {
                    latitude: copy_opt(&location.latitude),
                    longitude: copy_opt(&location.longitude),
                },
            ),
        },
    }
}

/// Whether a location has all that an inventory location must have: a
/// name, a first address line, a city, a state, a postal code and a
/// country, none of them empty.
pub open spec fn is_complete_location(location: LocationMetadata) -> bool {
    &&& location.name@.len() > 0
    &&& location.address_line1@.len() > 0
    &&& location.city@.len() > 0
    &&& location.state_or_province@.len() > 0
    &&& location.postal_code@.len() > 0
    &&& location.country@.len() > 0
}

/// Whether a location has all that an inventory location must have.
pub fn location_is_complete(location: &LocationMetadata) -> (out: bool)
    ensures
        out == is_complete_location(*location),
{
    !location.name.as_str().is_empty() && !location.address_line1.as_str().is_empty()
        && !location.city.as_str().is_empty() && !location.state_or_province.as_str().is_empty()
        && !location.postal_code.as_str().is_empty() && !location.country.as_str().is_empty()
}

/// Whether the inventory push upserts the location first: a token and a
/// location are there, and the location is complete.
pub open spec fn upserts_location(has_token: bool, location: Option<LocationMetadata>) -> bool {
    has_token && location is Some && is_complete_location(location->0)
}

/// Whether two price summaries say the same.
pub open spec fn same_pricing(a: PricingSummary, b: PricingSummary) -> bool {
    a.price.value@ == b.price.value@ && a.price.currency@ == b.price.currency@
}

/// Whether `create` and `update` are the requests that create and change
/// the offer of `listing`: a fixed price, one piece, and all that the
/// listing says.
pub open spec fn are_offer_requests(
    create: CreateOfferRequest,
    update: UpdateOfferRequest,
    listing: ListingPlan,
) -> bool {
    &&& create.sku@ == listing.sku@
    &&& create.marketplace_id@ == listing.marketplace.code_spec()
    &&& create.format@ == "FIXED_PRICE"@
    &&& create.category_id@ == listing.category_id@
    &&& create.listing_description@ == listing.description@
    &&& create.pricing_summary.price.value@ == fixed2_spec(listing.price.micros as int)
    &&& create.pricing_summary.price.currency@ == listing.currency@
    &&& create.available_quantity == 1
    &&& create.merchant_location_key@ == listing.merchant_location_key@
    &&& create.listing_policies.fulfillment_policy_id@ == listing.policies.fulfillment_policy_id@
    &&& create.listing_policies.payment_policy_id@ == listing.policies.payment_policy_id@
    &&& create.listing_policies.return_policy_id@ == listing.policies.return_policy_id@
    &&& create.aspects@ == listing.aspects@
    &&& create.package_weight_and_size == listing.package
    &&& texts(create.image_urls@) == texts(listing.media@)
    &&& update.format@ == "FIXED_PRICE"@
    &&& update.category_id@ == listing.category_id@
    &&& update.listing_description@ == listing.description@
    &&& same_pricing(update.pricing_summary, create.pricing_summary)
    &&& update.available_quantity == 1
    &&& update.listing_policies.fulfillment_policy_id@ == listing.policies.fulfillment_policy_id@
    &&& update.listing_policies.payment_policy_id@ == listing.policies.payment_policy_id@
    &&& update.listing_policies.return_policy_id@ == listing.policies.return_policy_id@
    &&& update.merchant_location_key@ == listing.merchant_location_key@
    &&& update.package_weight_and_size == listing.package
}

/// The requests that create and change the offer of a listing: a fixed
/// price, one piece, and all that the listing says.
pub fn build_offer_requests(listing: &ListingPlan) -> (out: (CreateOfferRequest, UpdateOfferRequest))
    ensures
        are_offer_requests(out.0, out.1, *listing),
{
    let price = Price::from_amount(listing.price, listing.currency.as_str());
    let again = price.copy();
    let create = CreateOfferRequest {
        sku: listing.sku.clone(),
        marketplace_id: copy_str(listing.marketplace.ebay_code()),
        format: "FIXED_PRICE",
        category_id: listing.category_id.clone(),
        listing_description: listing.description.clone(),
        pricing_summary: PricingSummary { price },
        available_quantity: 1,
        merchant_location_key: listing.merchant_location_key.clone(),
        listing_policies: listing.policies.copy(),
        aspects: listing.aspects.copy(),
        package_weight_and_size: listing.package,
        image_urls: copy_strings(&listing.media),
    };
    let update = UpdateOfferRequest {
        format: "FIXED_PRICE",
        category_id: listing.category_id.clone(),
        listing_description: listing.description.clone(),
        pricing_summary: PricingSummary { price: again },
        available_quantity: 1,
        listing_policies: listing.policies.copy(),
        merchant_location_key: listing.merchant_location_key.clone(),
        package_weight_and_size: listing.package,
    };
    (create, update)
}

/// A listing id made here, where the marketplace gave none: `HER-` and 32
/// hexadecimal digits.
pub fn fallback_listing_id() -> (out: String)
    ensures
        out@.len() == 36,
        out@.take(4) == "HER-"@,
        is_simple_id(out@.skip(4)),
{
    let id = fresh_simple_id();
    let out = concat2("HER-", id.as_str());
    proof {
        reveal_strlit("HER-");
        assert(out@.take(4) =~= "HER-"@);
        assert(out@.skip(4) =~= id@);
    }
    out
}

/// The listing id of a dry run: `PREVIEW-` and 32 hexadecimal digits.
pub fn preview_listing_id() -> (out: String)
    ensures
        out@.len() == 40,
        out@.take(8) == "PREVIEW-"@,
        is_simple_id(out@.skip(8)),
{
    let id = fresh_simple_id();
    let out = concat2("PREVIEW-", id.as_str());
    proof {
        reveal_strlit("PREVIEW-");
        assert(out@.take(8) =~= "PREVIEW-"@);
        assert(out@.skip(8) =~= id@);
    }
    out
}

/// The listing id of a published offer: the marketplace's, or `fresh` when
/// the marketplace gave an empty one.
pub fn final_listing_id(published: String, fresh: String) -> (out: String)
    ensures
        out@ == if published@.len() == 0 {
            fresh@
        } else {
            published@
        },
{
    if published.as_str().is_empty() {
        fresh
    } else {
        published
    }
}

/// The published offer as the run hands it on: the listing id, the route of
/// the marketplace's offers, and a preview address with the first twelve
/// characters of the id.
pub fn offer_result(listing_id: &str, marketplace: MarketplaceId) -> (out: OfferResult)
    ensures
        out.listing_id@ == listing_id@,
        out.route@ == marketplace.route_spec() + "/offers"@,
        out.preview_url@ == "https://sandbox.ebay.com/itm/"@ + prefix_spec(listing_id@, 12),
{
    let head = prefix(listing_id, 12);
    OfferResult {
        listing_id: copy_str(listing_id),
        route: concat2(marketplace.marketplace_route(), "/offers"),
        preview_url: concat2("https://sandbox.ebay.com/itm/", head.as_str()),
    }
}

} // verus!
