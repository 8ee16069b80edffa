//! The orchestrator: one run of the pipeline, stage by stage.
//!
//! A run is a state machine. Whatever needs the outside world (a pause, a
//! call to the model, to the marketplace or to the tenant store, reading a
//! document) is handed to the caller as an action; the caller performs it
//! and hands back the event. All decisions are made here.

use crate::ebay::inventory::{InventoryItemRequest, InventoryLocationRequest};
use crate::ebay::listing::{EbayListingDraft, PackageWeightAndSizePayload};
use crate::ebay::offers::{CreateOfferRequest, UpdateOfferRequest};
use crate::hsuf::ingest::{
    extraction_payload, extraction_payload_spec, fallback_product, is_fallback,
    normalize_product_value, normalized_spec, strip_fence_spec, strip_markdown_fence, SYSTEM_PROMPT,
};
use crate::hsuf::models::Product;
use crate::hsuf::transform::{
    build_listing_draft, draft_fault, estimate_package, is_draft_of, is_package_of,
    HsufListingContext,
};
use crate::ids::{hyphenated, is_simple_id, parse_id, uuid_parsed};
use crate::json::JsonValue;
use crate::models::{
    report_names, CategorySelectionInput, ListingRequest, ListingResponse, StageReport,
};
use crate::pipeline::listing::{
    are_offer_requests, assemble_listing, build_offer_requests, bullet_points_from_product,
    bullets_spec, choose_description, description_prompt, description_prompt_spec,
    fallback_listing_id, inventory_request_from_listing, is_inventory_of, is_listing_of,
    is_location_payload, is_seller_of, location_is_complete, location_payload, missing_field,
    offer_result, preview_listing_id, resolve_ebay_config, templated_description_spec,
    upserts_location, EbayRuntimeConfig,
};
use crate::pipeline::offer_flow::{
    follows, OfferCall, OfferFlow, OfferProgress, OfferReply, OfferStep, PublishedOffer,
};
use crate::pipeline::outputs::StageOutput;
use crate::pipeline::seed::{compute_seed, seed_spec};
use crate::pipeline::stages::{
    acquire_user_token, are_conditions_of, category_views, chosen_by_client, chosen_by_seed,
    fetch_taxonomy, images_fault, is_choice_of_seed, is_fresh_credential, is_images_report,
    is_taxonomy_of, opt_texts, override_category, prepare_conditions, preview_spec, preview_token,
    resolve_images, resolved_spec, select_category, token_scopes, user_scopes,
};
use crate::pipeline::{
    CategoryDefinition, CategorySelection, ConditionBundle, DemoCredentials, ListingPlan,
    PipelineConfig, PipelineError, PipelineErrorKind, TaxonomySpec,
};
use crate::security::AuthContext;
use crate::supabase::EbayOrgConfig;
use crate::text::{copy_opt, copy_strings, first_strings, opt_text, texts};
use vstd::prelude::*;

verus! {

/// The names of the stages of a full run, in their order.
pub open spec fn stage_names() -> Seq<Seq<char>> {
    seq![
        "resolve_images"@,
        "select_category"@,
        "fetch_taxonomy"@,
        "acquire_user_token"@,
        "prepare_conditions"@,
        "extract_product"@,
        "build_listing"@,
        "push_inventory"@,
        "publish_offer"@,
    ]
}

/// The name of the stage at position `index`.
pub fn stage_name(index: usize) -> (out: &'static str)
    requires
        index < 9,
    ensures
        out@ == stage_names()[index as int],
{
    if index == 0 {
        "resolve_images"
    } else if index == 1 {
        "select_category"
    } else if index == 2 {
        "fetch_taxonomy"
    } else if index == 3 {
        "acquire_user_token"
    } else if index == 4 {
        "prepare_conditions"
    } else if index == 5 {
        "extract_product"
    } else if index == 6 {
        "build_listing"
    } else if index == 7 {
        "push_inventory"
    } else {
        "publish_offer"
    }
}

/// Where a run stands: what it waits for.
#[derive(Debug, Clone, Copy, PartialEq, Eq, Structural)]
pub enum RunStep {
    Created,
    OrgLookup,
    ResolveImages,
    SelectCategory,
    FetchTaxonomy,
    AcquireUserToken,
    PrepareConditions,
    ExtractPause,
    ExtractChat,
    ExtractParse,
    ExtractDecode,
    BuildPause,
    BuildChat,
    EbayToken,
    PushPause,
    PushLocation,
    PushItem,
    PublishPause,
    Publishing,
    Done,
}

impl RunStep {
    /// How many stages have reported when a run stands here.
    pub open spec fn completed(self) -> nat {
        match self {
            RunStep::Created => 0,
            RunStep::OrgLookup => 0,
            RunStep::ResolveImages => 0,
            RunStep::SelectCategory => 1,
            RunStep::FetchTaxonomy => 2,
            RunStep::AcquireUserToken => 3,
            RunStep::PrepareConditions => 4,
            RunStep::ExtractPause => 5,
            RunStep::ExtractChat => 5,
            RunStep::ExtractParse => 5,
            RunStep::ExtractDecode => 5,
            RunStep::BuildPause => 6,
            RunStep::BuildChat => 6,
            RunStep::EbayToken => 7,
            RunStep::PushPause => 7,
            RunStep::PushLocation => 7,
            RunStep::PushItem => 7,
            RunStep::PublishPause => 8,
            RunStep::Publishing => 8,
            RunStep::Done => 9,
        }
    }

    /// The milliseconds that a run pauses before the work that it then waits to do.
    pub open spec fn pause(self) -> nat {
        match self {
            RunStep::ResolveImages => 18,
            RunStep::SelectCategory => 22,
            RunStep::FetchTaxonomy => 25,
            RunStep::AcquireUserToken => 12,
            RunStep::PrepareConditions => 10,
            RunStep::ExtractPause => 40,
            RunStep::BuildPause => 28,
            RunStep::PushPause => 15,
            RunStep::PublishPause => 20,
            _ => 0,
        }
    }
}

/// What the caller is to do next.
#[derive(Debug)]
#[allow(inconsistent_fields)]
pub enum RunAction {
    /// Ask the tenant store for the configuration of the organization.
    LookupOrgConfig { org_id: u128 },
    /// Wait for so many milliseconds.
    Pause { millis: u64 },
    /// Ask the model for a product: `system` opens the chat, and `payload`,
    /// written as JSON text, is the user's message.
    ChatExtract { system: &'static str, payload: JsonValue },
    /// Ask the model for a description with this prompt.
    ChatDescribe { prompt: String },
    /// Read `text` as a JSON document.
    ParseJson { text: String },
    /// Read `value` as a product.
    DecodeProduct { value: JsonValue },
    /// Exchange the refresh token for an access token.
    FetchEbayToken { refresh_token: String, scopes: Vec<String> },
    /// Upsert the inventory location.
    UpsertLocation { merchant_location_key: String, payload: InventoryLocationRequest },
    /// Upsert the inventory item; the run holds the request.
    UpsertItem { sku: String },
    /// Make this call on the listing's offer; the run holds the requests.
    Offer { call: OfferCall },
    /// The run has ended.
    Finish { outcome: Result<ListingResponse, PipelineError> },
}

/// What came of the action that was due.
#[derive(Debug)]
pub enum RunEvent {
    Begin,
    OrgConfig { found: Result<Option<EbayOrgConfig>, String> },
    Paused,
    ChatReply { answer: Result<String, String> },
    Parsed { value: Option<JsonValue> },
    Decoded { product: Option<Product> },
    EbayToken { token: Result<String, String> },
    LocationUpserted { ok: bool },
    ItemUpserted { done: Result<(), String> },
    Offer { reply: OfferReply },
}

/// A pipeline: its settings, and what it is allowed to reach.
#[derive(Debug)]
pub struct Pipeline {
    pub config: PipelineConfig,
    pub ebay_refresh_token: Option<String>,
    pub ebay_network_enabled: bool,
    pub org_store_configured: bool,
}

/// One run of a pipeline.
#[derive(Debug)]
pub struct PipelineRun {
    config: PipelineConfig,
    ebay_refresh_token: Option<String>,
    ebay_network_enabled: bool,
    org_store_configured: bool,
    request: ListingRequest,
    override_images: Option<Vec<String>>,
    override_category: Option<CategorySelectionInput>,
    override_product: Option<JsonValue>,
    product_overridden: bool,
    auth: Option<AuthContext>,
    step: RunStep,
    started_ms: u64,
    stages: Vec<StageReport>,
    org_config: Option<EbayOrgConfig>,
    images: Vec<String>,
    seed: u64,
    selection: Option<CategorySelection>,
    taxonomy: Option<TaxonomySpec>,
    token: Option<DemoCredentials>,
    conditions: Option<ConditionBundle>,
    product: Option<Product>,
    ebay_cfg: Option<EbayRuntimeConfig>,
    draft: Option<EbayListingDraft>,
    package: Option<PackageWeightAndSizePayload>,
    bullets: Vec<String>,
    listing: Option<ListingPlan>,
    ebay_token: Option<String>,
    inventory: Option<InventoryItemRequest>,
    create_offer: Option<CreateOfferRequest>,
    update_offer: Option<UpdateOfferRequest>,
    flow: Option<OfferFlow>,
}

/// The event that answers the action due at `step`.
pub open spec fn answers(step: RunStep, event: RunEvent) -> bool {
    match step {
        RunStep::Created => event is Begin,
        RunStep::OrgLookup => event is OrgConfig,
        RunStep::ResolveImages => event is Paused,
        RunStep::SelectCategory => event is Paused,
        RunStep::FetchTaxonomy => event is Paused,
        RunStep::AcquireUserToken => event is Paused,
        RunStep::PrepareConditions => event is Paused,
        RunStep::ExtractPause => event is Paused,
        RunStep::ExtractChat => event is ChatReply,
        RunStep::ExtractParse => event is Parsed,
        RunStep::ExtractDecode => event is Decoded,
        RunStep::BuildPause => event is Paused,
        RunStep::BuildChat => event is ChatReply,
        RunStep::EbayToken => event is EbayToken,
        RunStep::PushPause => event is Paused,
        RunStep::PushLocation => event is LocationUpserted,
        RunStep::PushItem => event is ItemUpserted,
        RunStep::PublishPause => event is Paused,
        RunStep::Publishing => event is Offer,
        RunStep::Done => false,
    }
}

/// The failure of a run that was handed an event out of turn.
pub open spec fn is_out_of_turn(e: PipelineError) -> bool {
    e.is(
        PipelineErrorKind::Internal,
        "pipeline"@,
        "event does not answer the action that was due"@,
    )
}

/// Whether `action` ends a run with the failure of `stage` that says `message`.
pub open spec fn fails(
    action: RunAction,
    kind: PipelineErrorKind,
    stage: Seq<char>,
    message: Seq<char>,
) -> bool {
    action matches RunAction::Finish { outcome: Err(e) } && e.is(kind, stage, message)
}

/// Whether `action` ends a run because an event came out of turn.
pub open spec fn fails_out_of_turn(action: RunAction) -> bool {
    action matches RunAction::Finish { outcome: Err(e) } && is_out_of_turn(e)
}

/// Whether `action` is what a run does on coming to stand at `step`:
/// the pause of the step, or the call that the step waits on.
pub open spec fn opens(step: RunStep, action: RunAction) -> bool {
    match step {
        RunStep::Created => false,
        RunStep::OrgLookup => action is LookupOrgConfig,
        RunStep::ExtractChat => action is ChatExtract,
        RunStep::ExtractParse => action is ParseJson,
        RunStep::ExtractDecode => action is DecodeProduct,
        RunStep::BuildChat => action is ChatDescribe,
        RunStep::EbayToken => action is FetchEbayToken,
        RunStep::PushLocation => action is UpsertLocation,
        RunStep::PushItem => action is UpsertItem,
        RunStep::Publishing => action is Offer,
        RunStep::Done => action is Finish,
        _ => action matches RunAction::Pause { millis } && millis == step.pause(),
    }
}

/// Whether a run that stands at `before` may come to stand at `after`.
/// No run ever goes back, and none skips a stage but by an override.
pub open spec fn may_follow(before: RunStep, after: RunStep) -> bool {
    after is Done || match before {
        RunStep::Created => after is OrgLookup || after is ResolveImages || after
            is SelectCategory || after is FetchTaxonomy,
        RunStep::OrgLookup => after is ResolveImages || after is SelectCategory || after
            is FetchTaxonomy,
        RunStep::ResolveImages => after is SelectCategory || after is FetchTaxonomy,
        RunStep::SelectCategory => after is FetchTaxonomy,
        RunStep::FetchTaxonomy => after is AcquireUserToken,
        RunStep::AcquireUserToken => after is PrepareConditions,
        RunStep::PrepareConditions => after is ExtractPause || after is ExtractDecode,
        RunStep::ExtractPause => after is ExtractChat,
        RunStep::ExtractChat => after is ExtractParse || after is BuildPause,
        RunStep::ExtractParse => after is ExtractDecode || after is BuildPause,
        RunStep::ExtractDecode => after is BuildPause,
        RunStep::BuildPause => after is BuildChat,
        RunStep::BuildChat => after is EbayToken || after is PushPause,
        RunStep::EbayToken => after is PushPause,
        RunStep::PushPause => after is PushLocation || after is PushItem || after
            is PublishPause,
        RunStep::PushLocation => after is PushItem,
        RunStep::PushItem => after is PublishPause,
        RunStep::PublishPause => after is Publishing,
        RunStep::Publishing => after is Publishing,
        RunStep::Done => false,
    }
}

/// Whether the reports `after` begin with the reports `before`.
pub open spec fn extends(before: Seq<StageReport>, after: Seq<StageReport>) -> bool {
    before.len() <= after.len() && forall|i: int| 0 <= i < before.len() ==> after[i] == before[i]
}

/// Whether `output` is the report of the extraction of `product` from
/// `count` images: its name, brand and colour, and whether the client
/// supplied the product.
pub open spec fn is_product_report(
    output: StageOutput,
    product: Product,
    count: nat,
    supplied: bool,
) -> bool {
    output matches StageOutput::ExtractProduct { name, brand, color, images, overridden }
        && name@ == product.name@ && opt_text(brand) == product.brand_name() && opt_text(color)
        == opt_text(product.color) && images == count && overridden == supplied
}

/// Whether `output` is the report of the inventory push of `listing`.
pub open spec fn is_push_report(output: StageOutput, listing: ListingPlan) -> bool {
    output matches StageOutput::PushInventory {
        sku,
        location,
        status,
        media_attached,
        inventory_request,
    } && sku@ == listing.sku@ && location@ == listing.merchant_location_key@ && status@
        == "UPSERTED"@ && media_attached == listing.media@.len() && is_inventory_of(
        inventory_request,
        listing,
    )
}

/// Whether `output` is the report of the publication of `listing` under
/// the id `listing_id`, as the offer `offer_id` where the marketplace made
/// one: the category's label, the first characters of the credential, and
/// the requests that create and change the offer.
pub open spec fn is_offer_report(
    output: StageOutput,
    listing_id: Seq<char>,
    offer: Option<Seq<char>>,
    listing: ListingPlan,
    selection: CategorySelection,
    credentials: DemoCredentials,
) -> bool {
    output matches StageOutput::PublishOffer {
        listing_id: id,
        category,
        token_preview,
        title,
        media_count,
        create_offer,
        update_offer,
        offer_id,
    } && id@ == listing_id && category@ == selection.label@ && token_preview@ == preview_spec(
        credentials.token@,
    ) && title@ == listing.title@ && media_count == listing.media@.len() && are_offer_requests(
        create_offer,
        update_offer,
        listing,
    ) && opt_text(offer_id) == offer
}

/// The milliseconds from `started_ms` to `now_ms`, none when the clock went back.
pub open spec fn elapsed_spec(started_ms: u64, now_ms: u64) -> int {
    if now_ms >= started_ms {
        now_ms - started_ms
    } else {
        0
    }
}

/// Whether the reports that `after` adds to `before` say how long their
/// stages took: the first of them the time from `started_ms` to `now_ms`
/// where the stage did work of its own, and every other no time at all.
pub open spec fn reports_timed(
    before: Seq<StageReport>,
    after: Seq<StageReport>,
    worked: bool,
    started_ms: u64,
    now_ms: u64,
) -> bool {
    forall|i: int|
        before.len() <= i < after.len() ==> (#[trigger] after[i]).elapsed_ms == if worked && i
            == before.len() {
            elapsed_spec(started_ms, now_ms)
        } else {
            0
        }
}

/// How a step at the time `now_ms` keeps the time. A stage that ends has
/// taken the time since the run came to pause before it; a stage whose
/// value the client supplied has taken none. The time of the next stage
/// counts from the moment at which the run comes to pause before it, or
/// hands out the client's product to be read.
pub open spec fn timed(pre: PipelineRun, now_ms: u64, post: PipelineRun, out: RunAction) -> bool {
    let reports = match out {
        RunAction::Finish { outcome: Ok(response) } => response.stages@,
        _ => post.stages_spec(),
    };
    &&& reports_timed(
        pre.stages_spec(),
        reports,
        !(pre.step_spec() is Created || pre.step_spec() is OrgLookup),
        pre.started_spec(),
        now_ms,
    )
    &&& post.started_spec() == if !(post.step_spec() is Done) && (post.step_spec().pause() > 0
        || pre.step_spec() is PrepareConditions) {
        now_ms
    } else {
        pre.started_spec()
    }
}

/// What no step of a run changes: the request, the settings and what the
/// run may reach; what the client supplied, until it is used; and what each
/// stage has made, once the stage has reported. The reports of a run that
/// has not ended are never changed, only added to.
pub open spec fn keeps(pre: PipelineRun, post: PipelineRun) -> bool {
    let k = pre.step_spec().completed();
    &&& post.request_spec() == pre.request_spec()
    &&& post.config_spec() == pre.config_spec()
    &&& post.caller_spec() == pre.caller_spec()
    &&& post.reaches_store() == pre.reaches_store()
    &&& post.reaches_marketplace() == pre.reaches_marketplace()
    &&& post.refresh_token_spec() == pre.refresh_token_spec()
    &&& post.given_images() == pre.given_images()
    &&& post.given_category() == pre.given_category()
    &&& (!(pre.step_spec() is PrepareConditions) ==> post.given_product() == pre.given_product()
        && post.product_overridden_spec() == pre.product_overridden_spec())
    &&& (!(pre.step_spec() is OrgLookup) ==> post.org_config_spec() == pre.org_config_spec())
    &&& (!(pre.step_spec() is EbayToken) ==> post.access_token_spec() == pre.access_token_spec())
    &&& (k >= 1 ==> post.images_spec() == pre.images_spec() && post.seed_value()
        == pre.seed_value())
    &&& (k >= 2 ==> post.selection_spec() == pre.selection_spec())
    &&& (k >= 3 ==> post.taxonomy_spec() == pre.taxonomy_spec())
    &&& (k >= 4 ==> post.credentials_spec() == pre.credentials_spec())
    &&& (k >= 5 ==> post.conditions_spec() == pre.conditions_spec())
    &&& (k >= 6 ==> post.product_spec() == pre.product_spec() && post.seller_spec()
        == pre.seller_spec())
    &&& (k >= 7 ==> post.listing_spec() == pre.listing_spec())
    &&& (pre.step_spec() is PushLocation || pre.step_spec() is PushItem ==> post.inventory_spec()
        == pre.inventory_spec())
    &&& (!(post.step_spec() is Done) ==> extends(pre.stages_spec(), post.stages_spec()))
}

/// What a run does where the category is due. With a category that the
/// client supplied the stage reports it at once and the taxonomy is next;
/// else the run pauses before it selects one.
pub open spec fn opens_category(pre: PipelineRun, post: PipelineRun, out: RunAction) -> bool {
    match pre.given_category() {
        None => post.step_spec() is SelectCategory,
        Some(input) => {
            &&& post.step_spec() is FetchTaxonomy
            &&& post.selection_spec() is Some
            &&& chosen_by_client(
                post.selection_spec()->0,
                post.stages_spec()[1].output,
                input,
                post.images_spec(),
                pre.config_spec().categories@,
            )
        },
    }
}

/// What a run does where the images are due. Images that the client
/// supplied are refused when there is none or too many; else the stage
/// reports them at once, the seed is made of them, and the category is
/// next. Without such images the run pauses before it resolves them.
pub open spec fn opens_images(pre: PipelineRun, post: PipelineRun, out: RunAction) -> bool {
    match pre.given_images() {
        None => post.step_spec() is ResolveImages,
        Some(urls) => if urls.len() == 0 {
            fails(out, PipelineErrorKind::InvalidInput, "resolve_images"@, "no images provided"@)
        } else if urls.len() > pre.config_spec().max_images {
            fails(out, PipelineErrorKind::InvalidInput, "resolve_images"@, "too_many_images"@)
        } else {
            &&& !(out is Finish)
            &&& post.images_spec() == urls
            &&& post.seed_value() == seed_spec(pre.request_spec(), urls)
            &&& is_images_report(
                post.stages_spec()[0].output,
                urls,
                pre.request_spec().use_signed_urls,
                2,
                true,
            )
            &&& opens_category(pre, post, out)
        },
    }
}

/// The first step. For a caller of an organization, where the tenant store
/// can be reached, the run asks for what is stored for the organization; an
/// organization id that is no identifier ends the run. Else the images are due.
pub open spec fn begun(pre: PipelineRun, post: PipelineRun, out: RunAction) -> bool {
    if pre.caller_spec() is Some && pre.reaches_store() {
        match uuid_parsed(pre.caller_spec()->0.org_id@) {
            Ok(bits) => post.step_spec() is OrgLookup && out == (RunAction::LookupOrgConfig {
                org_id: bits,
            }),
            Err(m) => fails(out, PipelineErrorKind::Internal, "supabase"@, m),
        }
    } else {
        opens_images(pre, post, out)
    }
}

/// The answer of the tenant store: the run keeps what was found, and
/// nothing where the store failed; the images are due.
pub open spec fn store_answered(
    pre: PipelineRun,
    found: Result<Option<EbayOrgConfig>, String>,
    post: PipelineRun,
    out: RunAction,
) -> bool {
    &&& post.org_config_spec() == match found {
        Ok(config) => config,
        Err(_) => None,
    }
    &&& opens_images(pre, post, out)
}

/// The first stage: the images of the request are resolved, or the run
/// ends with what is wrong with them; the seed is made of them, and the
/// category is next.
pub open spec fn images_resolved(pre: PipelineRun, post: PipelineRun, out: RunAction) -> bool {
    let request = pre.request_spec();
    let urls = resolved_spec(request.images_source, request.use_signed_urls);
    match images_fault(
        urls,
        pre.config_spec().max_images as nat,
        opt_texts(pre.config_spec().image_domain_allowlist),
    ) {
        Some(m) => fails(out, PipelineErrorKind::InvalidInput, "resolve_images"@, m),
        None => {
            &&& !(out is Finish)
            &&& post.images_spec() == urls
            &&& post.seed_value() == seed_spec(request, urls)
            &&& is_images_report(
                post.stages_spec()[0].output,
                urls,
                request.use_signed_urls,
                4,
                false,
            )
            &&& opens_category(pre, post, out)
        },
    }
}

/// The second stage: the seed chooses the category, and the run ends
/// where there is none to choose from.
pub open spec fn category_selected(pre: PipelineRun, post: PipelineRun, out: RunAction) -> bool {
    let cats = pre.config_spec().categories@;
    if cats.len() == 0 {
        fails(out, PipelineErrorKind::Internal, "select_category"@, "no categories configured"@)
    } else {
        &&& post.step_spec() is FetchTaxonomy
        &&& post.selection_spec() is Some
        &&& chosen_by_seed(
            post.selection_spec()->0,
            post.stages_spec()[1].output,
            pre.request_spec().sku@,
            pre.images_spec(),
            cats,
            pre.seed_value(),
        )
    }
}

/// The third stage: the reference taxonomy of the chosen category.
pub open spec fn taxonomy_fetched(pre: PipelineRun, post: PipelineRun) -> bool {
    &&& post.step_spec() is AcquireUserToken
    &&& post.taxonomy_spec() is Some
    &&& is_taxonomy_of(
        post.taxonomy_spec()->0,
        post.stages_spec()[2].output,
        pre.selection_spec()->0,
    )
}

/// The fourth stage: a fresh demo credential.
pub open spec fn token_acquired(pre: PipelineRun, post: PipelineRun) -> bool {
    &&& post.step_spec() is PrepareConditions
    &&& post.credentials_spec() is Some
    &&& is_fresh_credential(post.credentials_spec()->0, post.stages_spec()[3].output)
}

/// The fifth stage: the conditions of the chosen category. A product that
/// the client supplied is then handed out to be read; else the run pauses
/// before it asks the model.
pub open spec fn conditions_prepared(pre: PipelineRun, post: PipelineRun, out: RunAction) -> bool {
    &&& post.conditions_spec() is Some
    &&& are_conditions_of(
        post.conditions_spec()->0,
        post.stages_spec()[4].output,
        pre.selection_spec()->0,
    )
    &&& post.given_product() is None
    &&& post.product_overridden_spec() == (pre.given_product() is Some)
    &&& match pre.given_product() {
        Some(value) => post.step_spec() is ExtractDecode && out == (RunAction::DecodeProduct {
            value,
        }),
        None => post.step_spec() is ExtractPause,
    }
}

/// The model is asked for a product: the system prompt, and the document
/// of the stock keeping unit and the images.
pub open spec fn extraction_asked(pre: PipelineRun, post: PipelineRun, out: RunAction) -> bool {
    &&& post.step_spec() is ExtractChat
    &&& out matches RunAction::ChatExtract { system, payload } && system@ == SYSTEM_PROMPT@
        && payload.model() == extraction_payload_spec(pre.request_spec().sku@, pre.images_spec())
}

/// The sixth stage ends with `product`: the stage reports it, and what is
/// known of the seller is put together from the request and from what is
/// stored for the organization. A blank location key or policy ends the
/// run; else the run pauses before it builds the listing.
pub open spec fn extracted(pre: PipelineRun, product: Product, post: PipelineRun, out: RunAction) -> bool {
    &&& post.product_spec() == Some(product)
    &&& is_product_report(
        post.stages_spec()[5].output,
        product,
        pre.images_spec().len(),
        pre.product_overridden_spec(),
    )
    &&& match missing_field(pre.request_spec(), pre.org_config_spec()) {
        Some(field) => fails(
            out,
            PipelineErrorKind::InvalidInput,
            "ebay_config"@,
            "missing_"@ + field,
        ),
        None => {
            &&& post.step_spec() is BuildPause
            &&& post.seller_spec() is Some
            &&& is_seller_of(post.seller_spec()->0, pre.request_spec(), pre.org_config_spec())
        },
    }
}

/// The sixth stage ends with the stand-in product.
pub open spec fn fell_back(pre: PipelineRun, post: PipelineRun, out: RunAction) -> bool {
    &&& post.product_spec() is Some
    &&& is_fallback(post.product_spec()->0, pre.request_spec().sku@, pre.images_spec())
    &&& extracted(pre, post.product_spec()->0, post, out)
}

/// The model's answer to the extraction: its text, without the fence, is
/// handed out to be read as a document; where the model failed the
/// stand-in product is taken.
pub open spec fn extraction_answered(
    pre: PipelineRun,
    answer: Result<String, String>,
    post: PipelineRun,
    out: RunAction,
) -> bool {
    match answer {
        Ok(reply) => post.step_spec() is ExtractParse && (out matches RunAction::ParseJson { text }
            && text@ == strip_fence_spec(reply@)),
        Err(_) => fell_back(pre, post, out),
    }
}

/// The document that was read: made fit, with a fresh identifier as the
/// stock keeping unit where it has none, it is handed out to be read as a product; where the
/// text was no document the stand-in product is taken.
pub open spec fn document_read(
    pre: PipelineRun,
    value: Option<JsonValue>,
    post: PipelineRun,
    out: RunAction,
) -> bool {
    match value {
        Some(document) => post.step_spec() is ExtractDecode && (out matches RunAction::DecodeProduct {
            value: fit,
        } && exists|bits: u128|
            fit.model() == normalized_spec(
                document.model(),
                pre.images_spec(),
                #[trigger] hyphenated(bits),
            )),
        None => fell_back(pre, post, out),
    }
}

/// The product that was read. Where the document was no product, one that
/// the client supplied ends the run, and one of the model's gives way to
/// the stand-in product.
pub open spec fn product_read(
    pre: PipelineRun,
    product: Option<Product>,
    post: PipelineRun,
    out: RunAction,
) -> bool {
    match product {
        Some(p) => extracted(pre, p, post, out),
        None => if pre.product_overridden_spec() {
            fails(
                out,
                PipelineErrorKind::InvalidInput,
                "extract_product"@,
                "invalid_product_override"@,
            )
        } else {
            fell_back(pre, post, out)
        },
    }
}

/// The draft of the listing is made of the product and the taxonomy, in
/// US dollars where the product names no currency, and the model is asked
/// for a description of it. A product without price or images ends the run.
pub open spec fn draft_made(pre: PipelineRun, post: PipelineRun, out: RunAction) -> bool {
    let product = pre.product_spec()->0;
    let taxonomy = pre.taxonomy_spec()->0;
    match draft_fault(product, "USD"@) {
        Some(e) => fails(out, PipelineErrorKind::Internal, "build_listing"@, e.message_spec()),
        None => {
            &&& post.step_spec() is BuildChat
            &&& post.draft_spec() is Some
            &&& is_draft_of(
                post.draft_spec()->0,
                product,
                taxonomy.raw.aspects@,
                taxonomy.category_id@,
                "USD"@,
            )
            &&& out matches RunAction::ChatDescribe { prompt } && prompt@
                == description_prompt_spec(post.draft_spec()->0.title@, bullets_spec(product))
        },
    }
}

/// What a run does when the listing is built. A dry run ends with the
/// seven reports and a preview id. Else, where the marketplace can be
/// reached, the refresh token is exchanged, and the run ends where there is
/// none; where it cannot, the run pauses before the inventory push.
pub open spec fn closes_build(pre: PipelineRun, post: PipelineRun, out: RunAction) -> bool {
    if pre.dry_run_spec() {
        out matches RunAction::Finish { outcome: Ok(response) } && report_names(response.stages@)
            == stage_names().take(7) && response.listing_id@.len() == 40
            && response.listing_id@.take(8) == "PREVIEW-"@ && is_simple_id(
            response.listing_id@.skip(8),
        )
    } else if pre.reaches_marketplace() {
        match pre.refresh_token_spec() {
            Some(refresh) => post.step_spec() is EbayToken && (out matches RunAction::FetchEbayToken {
                refresh_token,
                scopes,
            } && refresh_token@ == refresh && texts(scopes@) == token_scopes()),
            None => fails(
                out,
                PipelineErrorKind::Internal,
                "ebay_auth"@,
                "EBAY_REFRESH_TOKEN is not set"@,
            ),
        }
    } else {
        post.step_spec() is PushPause
    }
}

/// The seventh stage: the listing is made of the draft, the package of the
/// product, the conditions, what is known of the seller, and the model's
/// description, or the templated one where the model failed.
pub open spec fn listing_built(
    pre: PipelineRun,
    answer: Result<String, String>,
    post: PipelineRun,
    out: RunAction,
) -> bool {
    let product = pre.product_spec()->0;
    let draft = pre.draft_spec()->0;
    let description = match answer {
        Ok(reply) => reply@,
        Err(_) => templated_description_spec(draft.title@, bullets_spec(product)),
    };
    let reports = match out {
        RunAction::Finish { outcome: Ok(response) } => response.stages@,
        _ => post.stages_spec(),
    };
    &&& post.listing_spec() is Some
    &&& is_package_of(post.listing_spec()->0.package, product)
    &&& extends(pre.stages_spec(), reports)
    &&& is_listing_of(
        post.listing_spec()->0,
        reports[6].output,
        pre.request_spec().sku@,
        draft,
        post.listing_spec()->0.package,
        description,
        pre.conditions_spec()->0,
        pre.seller_spec()->0,
    )
    &&& closes_build(pre, post, out)
}

/// The marketplace's answer to the exchange of the refresh token: the run
/// keeps the access token and pauses before the inventory push, or ends.
pub open spec fn token_fetched(
    pre: PipelineRun,
    token: Result<String, String>,
    post: PipelineRun,
    out: RunAction,
) -> bool {
    match token {
        Ok(access) => post.step_spec() is PushPause && post.access_token_spec() == Some(access@),
        Err(m) => fails(out, PipelineErrorKind::Internal, "ebay_auth"@, m@),
    }
}

/// The eighth stage ends: it reports the push, and the run pauses before
/// the offer.
pub open spec fn pushed(pre: PipelineRun, post: PipelineRun) -> bool {
    post.step_spec() is PublishPause && is_push_report(
        post.stages_spec()[7].output,
        pre.listing_spec()->0,
    )
}

/// The inventory push begins. Without an access token nothing is sent and
/// the stage ends at once. With one, the location is upserted first where
/// the seller has a complete one, and then the item.
pub open spec fn push_opened(pre: PipelineRun, post: PipelineRun, out: RunAction) -> bool {
    let listing = pre.listing_spec()->0;
    let location = pre.seller_spec()->0.location;
    &&& post.inventory_spec() is Some
    &&& is_inventory_of(post.inventory_spec()->0, listing)
    &&& if pre.access_token_spec() is None {
        pushed(pre, post)
    } else if upserts_location(true, location) {
        post.step_spec() is PushLocation && (out matches RunAction::UpsertLocation {
            merchant_location_key,
            payload,
        } && merchant_location_key@ == listing.merchant_location_key@ && is_location_payload(
            payload,
            location->0,
        ))
    } else {
        sends_item(pre, post, out)
    }
}

/// The inventory item that the run holds is to be upserted.
pub open spec fn sends_item(pre: PipelineRun, post: PipelineRun, out: RunAction) -> bool {
    &&& post.step_spec() is PushItem
    &&& out matches RunAction::UpsertItem { sku } && sku@ == pre.request_spec().sku@
}

/// The marketplace's answer to the upsert of the item: the stage ends, or
/// the run does.
pub open spec fn item_upserted(
    pre: PipelineRun,
    done: Result<(), String>,
    post: PipelineRun,
    out: RunAction,
) -> bool {
    match done {
        Ok(_) => pushed(pre, post),
        Err(m) => fails(out, PipelineErrorKind::Internal, "push_inventory"@, m@),
    }
}

/// A run ends well with `response`: all nine reports, the last of them
/// the report of the publication under the response's listing id.
pub open spec fn published(pre: PipelineRun, response: ListingResponse, offer: Option<Seq<char>>) -> bool {
    &&& report_names(response.stages@) == stage_names()
    &&& extends(pre.stages_spec(), response.stages@)
    &&& is_offer_report(
        response.stages@[8].output,
        response.listing_id@,
        offer,
        pre.listing_spec()->0,
        pre.selection_spec()->0,
        pre.credentials_spec()->0,
    )
}

/// The publication begins: the requests that create and change the offer
/// are made of the listing. Without an access token nothing is sent, and
/// the run ends with a listing id made here: `HER-` and 32 hexadecimal
/// digits. With one, the offer is to be created.
pub open spec fn publish_opened(pre: PipelineRun, post: PipelineRun, out: RunAction) -> bool {
    let listing = pre.listing_spec()->0;
    if pre.access_token_spec() is Some {
        &&& post.step_spec() is Publishing
        &&& out == (RunAction::Offer { call: OfferCall::CreateOffer })
        &&& post.create_offer_spec() is Some
        &&& post.update_offer_spec() is Some
        &&& are_offer_requests(post.create_offer_spec()->0, post.update_offer_spec()->0, listing)
        &&& post.flow_spec() is Some
        &&& post.flow_spec()->0.step is Creating
        &&& post.flow_spec()->0.sku@ == listing.sku@
        &&& post.flow_spec()->0.marketplace_id@ == listing.marketplace.code_spec()
    } else {
        out matches RunAction::Finish { outcome: Ok(response) } && response.listing_id@.len() == 36
            && response.listing_id@.take(4) == "HER-"@ && is_simple_id(
            response.listing_id@.skip(4),
        ) && published(pre, response, None)
    }
}

/// What an action of a run says of the offer's flow: the call that is due,
/// or how the flow ended.
pub open spec fn progress_of(out: RunAction) -> OfferProgress {
    match out {
        RunAction::Finish { outcome: Ok(response) } => OfferProgress::Finished {
            outcome: Ok(
                PublishedOffer {
                    listing_id: response.listing_id,
                    offer_id: response.stages@.last().output->PublishOffer_offer_id,
                },
            ),
        },
        RunAction::Finish { outcome: Err(e) } => OfferProgress::Finished { outcome: Err(e) },
        RunAction::Offer { call } => OfferProgress::Call { call },
        _ => OfferProgress::Call { call: OfferCall::CreateOffer },
    }
}

/// The marketplace's reply to a call on the offer: the offer's flow takes
/// it, and the run does what the flow says: the next call, or its end,
/// with all nine reports where the offer was published.
pub open spec fn offer_answered(
    pre: PipelineRun,
    reply: OfferReply,
    post: PipelineRun,
    out: RunAction,
) -> bool {
    let flow = pre.flow_spec()->0;
    &&& follows(
        flow.step,
        reply,
        if post.step_spec() is Publishing {
            post.flow_spec()->0.step
        } else {
            OfferStep::Done
        },
        progress_of(out),
        flow.sku@,
        flow.marketplace_id@,
    )
    &&& post.step_spec() is Publishing ==> {
        &&& post.flow_spec() is Some
        &&& post.flow_spec()->0.sku@ == flow.sku@
        &&& post.flow_spec()->0.marketplace_id@ == flow.marketplace_id@
        &&& post.create_offer_spec() == pre.create_offer_spec()
        &&& post.update_offer_spec() == pre.update_offer_spec()
    }
    &&& out matches RunAction::Finish { outcome: Ok(response) } ==> published(
        pre,
        response,
        opt_text(response.stages@.last().output->PublishOffer_offer_id),
    )
}

/// What a run does with an event: the step decides what the event means,
/// and an event that does not answer the action that was due ends the run.
pub open spec fn step_taken(pre: PipelineRun, event: RunEvent, post: PipelineRun, out: RunAction) -> bool {
    match (pre.step_spec(), event) {
        (RunStep::Created, RunEvent::Begin) => begun(pre, post, out),
        (RunStep::OrgLookup, RunEvent::OrgConfig { found }) => store_answered(
            pre,
            found,
            post,
            out,
        ),
        (RunStep::ResolveImages, RunEvent::Paused) => images_resolved(pre, post, out),
        (RunStep::SelectCategory, RunEvent::Paused) => category_selected(pre, post, out),
        (RunStep::FetchTaxonomy, RunEvent::Paused) => taxonomy_fetched(pre, post),
        (RunStep::AcquireUserToken, RunEvent::Paused) => token_acquired(pre, post),
        (RunStep::PrepareConditions, RunEvent::Paused) => conditions_prepared(pre, post, out),
        (RunStep::ExtractPause, RunEvent::Paused) => extraction_asked(pre, post, out),
        (RunStep::ExtractChat, RunEvent::ChatReply { answer }) => extraction_answered(
            pre,
            answer,
            post,
            out,
        ),
        (RunStep::ExtractParse, RunEvent::Parsed { value }) => document_read(pre, value, post, out),
        (RunStep::ExtractDecode, RunEvent::Decoded { product }) => product_read(
            pre,
            product,
            post,
            out,
        ),
        (RunStep::BuildPause, RunEvent::Paused) => draft_made(pre, post, out),
        (RunStep::BuildChat, RunEvent::ChatReply { answer }) => listing_built(
            pre,
            answer,
            post,
            out,
        ),
        (RunStep::EbayToken, RunEvent::EbayToken { token }) => token_fetched(pre, token, post, out),
        (RunStep::PushPause, RunEvent::Paused) => push_opened(pre, post, out),
        (RunStep::PushLocation, RunEvent::LocationUpserted { .. }) => sends_item(pre, post, out),
        (RunStep::PushItem, RunEvent::ItemUpserted { done }) => item_upserted(pre, done, post, out),
        (RunStep::PublishPause, RunEvent::Paused) => publish_opened(pre, post, out),
        (RunStep::Publishing, RunEvent::Offer { reply }) => offer_answered(pre, reply, post, out),
        _ => fails_out_of_turn(out),
    }
}

/// What one call of `advance` makes of a run that stands at `pre`, given
/// `event`: the run comes to stand at `post` and `out` is due.
pub open spec fn advanced(pre: PipelineRun, event: RunEvent, post: PipelineRun, out: RunAction) -> bool {
    &&& pre.wf()
    &&& post.wf()
    &&& opens(post.step_spec(), out)
    &&& out is Finish <==> post.step_spec() is Done
    &&& may_follow(pre.step_spec(), post.step_spec()) || pre.step_spec() is Done
    &&& keeps(pre, post)
    &&& step_taken(pre, event, post, out)
}

/// What one call of `advance` at the time `now_ms` makes of a run.
pub open spec fn advanced_at(
    pre: PipelineRun,
    event: RunEvent,
    now_ms: u64,
    post: PipelineRun,
    out: RunAction,
) -> bool {
    advanced(pre, event, post, out) && timed(pre, now_ms, post, out)
}

/// Whether `states` are the states of one run from its start on, each made
/// of the one before by `advance` with the event and the action at its place.
pub open spec fn is_run(
    states: Seq<PipelineRun>,
    events: Seq<RunEvent>,
    actions: Seq<RunAction>,
) -> bool {
    &&& states.len() == events.len() + 1
    &&& actions.len() == events.len()
    &&& states[0].step_spec() is Created
    &&& forall|i: int|
        0 <= i < events.len() ==> #[trigger] advanced(
            states[i],
            events[i],
            states[i + 1],
            actions[i],
        )
}

/// No two of the nine stages have the same name.
pub proof fn lemma_stage_names_differ()
    ensures
        stage_names().len() == 9,
        forall|i: int, j: int| 0 <= i < j < 9 ==> stage_names()[i] != stage_names()[j],
{
    let n = stage_names();
    reveal_strlit("resolve_images");
    reveal_strlit("select_category");
    reveal_strlit("fetch_taxonomy");
    reveal_strlit("acquire_user_token");
    reveal_strlit("prepare_conditions");
    reveal_strlit("extract_product");
    reveal_strlit("build_listing");
    reveal_strlit("push_inventory");
    reveal_strlit("publish_offer");
    assert(n[0].len() == 14 && n[0][0] == 'r');
    assert(n[1].len() == 15 && n[1][0] == 's');
    assert(n[2].len() == 14 && n[2][0] == 'f');
    assert(n[3].len() == 18 && n[3][0] == 'a');
    assert(n[4].len() == 18 && n[4][0] == 'p');
    assert(n[5].len() == 15 && n[5][0] == 'e');
    assert(n[6].len() == 13 && n[6][0] == 'b');
    assert(n[7].len() == 14 && n[7][0] == 'p');
    assert(n[8].len() == 13 && n[8][0] == 'p');
    assert forall|i: int, j: int| 0 <= i < j < 9 implies n[i] != n[j] by {
        if n[i] == n[j] {
            assert(n[i].len() == n[j].len());
            assert(n[i][0] == n[j][0]);
        }
    }
}

proof fn lemma_run_keeps_request(
    states: Seq<PipelineRun>,
    events: Seq<RunEvent>,
    actions: Seq<RunAction>,
    at: int,
)
    requires
        is_run(states, events, actions),
        0 <= at < states.len(),
    ensures
        states[at].request_spec() == states[0].request_spec(),
        states[at].given_images() == states[0].given_images(),
        states[at].given_category() == states[0].given_category(),
    decreases at,
{
    if at > 0 {
        lemma_run_keeps_request(states, events, actions, at - 1);
        let k = at - 1;
        assert(advanced(states[k], events[k], states[k + 1], actions[k]));
    }
}

/// A run that ends well has reported each of the first seven stages once
/// and in their order when it is a dry run, and each of the nine when it
/// is not; the listing id of a dry run begins with `PREVIEW-`. And while a
/// run has not ended, what it has reported are the first of the nine
/// stages in their order.
pub proof fn lemma_run_reports_in_order(
    states: Seq<PipelineRun>,
    events: Seq<RunEvent>,
    actions: Seq<RunAction>,
)
    requires
        is_run(states, events, actions),
        events.len() > 0,
    ensures
        forall|i: int|
            1 <= i < states.len() && !(states[i].step_spec() is Done) ==> report_names(
                #[trigger] states[i].stages_spec(),
            ) == stage_names().take(states[i].step_spec().completed() as int),
        actions.last() matches RunAction::Finish { outcome: Ok(response) } ==> {
            &&& report_names(response.stages@) == stage_names().take(
                if states[0].dry_run_spec() {
                    7int
                } else {
                    9int
                },
            )
            &&& forall|i: int, j: int|
                0 <= i < j < response.stages@.len() ==> response.stages@[i].name@
                    != response.stages@[j].name@
            &&& states[0].dry_run_spec() ==> response.listing_id@.len() == 40
                && response.listing_id@.take(8) == "PREVIEW-"@
        },
{
    lemma_stage_names_differ();
    assert forall|i: int|
        1 <= i < states.len() && !(states[i].step_spec() is Done) implies report_names(
        #[trigger] states[i].stages_spec(),
    ) == stage_names().take(states[i].step_spec().completed() as int) by {
        let k = i - 1;
        assert(advanced(states[k], events[k], states[k + 1], actions[k]));
    }
    let last = events.len() - 1;
    let pre = states[last];
    let out = actions.last();
    assert(advanced(pre, events[last], states[last + 1], out));
    lemma_run_keeps_request(states, events, actions, last);
    assert(stage_names().take(9) =~= stage_names());
    if out is Finish && out->outcome is Ok {
        let response = out->outcome->Ok_0;
        let names = report_names(response.stages@);
        assert(names.len() == response.stages@.len());
        assert forall|i: int, j: int| 0 <= i < j < response.stages@.len() implies response.stages@[i].name@
            != response.stages@[j].name@ by {
            assert(names[i] == response.stages@[i].name@);
            assert(names[j] == response.stages@[j].name@);
            assert(names[i] == stage_names()[i]);
            assert(names[j] == stage_names()[j]);
        }
    }
}

fn elapsed_since(started_ms: u64, now_ms: u64) -> (out: u128)
    ensures
        out == if now_ms >= started_ms {
            now_ms - started_ms
        } else {
            0
        },
{
    if now_ms >= started_ms {
        (now_ms - started_ms) as u128
    } else {
        0
    }
}

fn record(
    stages: &mut Vec<StageReport>,
    index: usize,
    started_ms: u64,
    now_ms: u64,
    output: StageOutput,
)
    requires
        index < 9,
        report_names(old(stages)@) == stage_names().take(index as int),
    ensures
        report_names(final(stages)@) == stage_names().take(index + 1),
        final(stages)@.len() == index + 1,
        final(stages)@.last().output == output,
        final(stages)@.last().elapsed_ms == elapsed_spec(started_ms, now_ms),
        old(stages)@.len() == index,
        extends(old(stages)@, final(stages)@),
{
    let ghost before = report_names(stages@);
    assert(before.len() == stages@.len());
    let report = StageReport::new(stage_name(index), elapsed_since(started_ms, now_ms), output);
    stages.push(report);
    assert(report_names(stages@) =~= before.push(stage_names()[index as int]));
    assert(stage_names().take(index + 1) =~= stage_names().take(index as int).push(
        stage_names()[index as int],
    ));
}

fn finish_err(e: PipelineError) -> (out: RunAction)
    ensures
        out == (RunAction::Finish { outcome: Err(e) }),
{
    RunAction::Finish { outcome: Err(e) }
}

impl Pipeline {
    /// A pipeline with the given settings that reaches nothing outside.
    pub fn new(config: PipelineConfig) -> (out: Pipeline)
        ensures
            out.config == config,
            out.ebay_refresh_token is None,
            !out.ebay_network_enabled,
            !out.org_store_configured,
    {
        Pipeline {
            config,
            ebay_refresh_token: None,
            ebay_network_enabled: false,
            org_store_configured: false,
        }
    }

    /// A pipeline with the default categories, at most six images and every
    /// host allowed, that reaches nothing outside.
    pub fn demo() -> (out: Pipeline)
        ensures
            crate::pipeline::stages::category_views(out.config.categories@)
                == crate::pipeline::stages::default_categories_spec(),
            out.config.max_images == 6,
            out.config.image_domain_allowlist is None,
            out.ebay_refresh_token is None,
            !out.ebay_network_enabled,
            !out.org_store_configured,
    {
        Pipeline::new(
            PipelineConfig {
                categories: crate::pipeline::stages::default_categories(),
                max_images: 6,
                image_domain_allowlist: None,
            },
        )
    }

    /// The images of `request`, as the first stage resolves them.
    pub fn stage_resolve_images(&self, request: &ListingRequest) -> (out: Result<
        Vec<String>,
        PipelineError,
    >)
        ensures
            ({
                let urls = resolved_spec(request.images_source, request.use_signed_urls);
                let fault = images_fault(
                    urls,
                    self.config.max_images as nat,
                    opt_texts(self.config.image_domain_allowlist),
                );
                match out {
                    Ok(images) => fault is None && texts(images@) == urls,
                    Err(e) => fault is Some && e.is(
                        PipelineErrorKind::InvalidInput,
                        "resolve_images"@,
                        fault->0,
                    ),
                }
            }),
    {
        match resolve_images(request, &self.config) {
            Ok(outcome) => Ok(outcome.value),
            Err(e) => Err(e),
        }
    }

    /// The category of `request` with the resolved `images`, as the second
    /// stage selects it by the seed of the request.
    pub fn stage_select_category(&self, request: &ListingRequest, images: &Vec<String>) -> (out:
        Result<CategorySelection, PipelineError>)
        ensures
            match out {
                Ok(selection) => self.config.categories@.len() > 0 && is_choice_of_seed(
                    selection,
                    request.sku@,
                    self.config.categories@,
                    seed_spec(*request, texts(images@)),
                ),
                Err(e) => self.config.categories@.len() == 0 && e.is(
                    PipelineErrorKind::Internal,
                    "select_category"@,
                    "no categories configured"@,
                ),
            },
    {
        let seed = compute_seed(request, images);
        match select_category(request, images, &self.config.categories, seed) {
            Ok(outcome) => Ok(outcome.value),
            Err(e) => Err(e),
        }
    }

    /// A run of `request` on behalf of `auth`. Nothing has happened yet: the
    /// run waits for `Begin`.
    pub fn start(&self, request: ListingRequest, auth: Option<AuthContext>) -> (out: PipelineRun)
        ensures
            out.wf(),
            out.step_spec() == RunStep::Created,
            out.stages_spec().len() == 0,
            out.dry_run_spec() == request.dry_run,
            out.request_spec() == (ListingRequest { overrides: None, ..request }),
            out.config_spec().max_images == self.config.max_images,
            opt_texts(out.config_spec().image_domain_allowlist) == opt_texts(
                self.config.image_domain_allowlist,
            ),
            category_views(out.config_spec().categories@) == category_views(
                self.config.categories@,
            ),
            out.caller_spec() == auth,
            out.reaches_store() == self.org_store_configured,
            out.reaches_marketplace() == self.ebay_network_enabled,
            out.refresh_token_spec() == opt_text(self.ebay_refresh_token),
            out.given_images() == match request.overrides {
                Some(given) => opt_texts(given.resolved_images),
                None => None,
            },
            out.given_category() == match request.overrides {
                Some(given) => given.category,
                None => None,
            },
            out.given_product() == match request.overrides {
                Some(given) => given.product,
                None => None,
            },
            !out.product_overridden_spec(),
            out.org_config_spec() is None,
            out.access_token_spec() is None,
    {
        let mut request = request;
        let mut overrides = None;
        std::mem::swap(&mut request.overrides, &mut overrides);
        let (override_images, override_category, override_product) = match overrides {
            Some(o) => (o.resolved_images, o.category, o.product),
            None => (None, None, None),
        };
        let stages: Vec<StageReport> = Vec::new();
        assert(report_names(stages@) =~= stage_names().take(0));
        let categories = copy_categories(&self.config.categories);
        assert(category_views(categories@) =~= category_views(self.config.categories@));
        PipelineRun {
            config: PipelineConfig {
                categories,
                max_images: self.config.max_images,
                image_domain_allowlist: match &self.config.image_domain_allowlist {
                    Some(a) => Some(copy_strings(a)),
                    None => None,
                },
            },
            ebay_refresh_token: copy_opt(&self.ebay_refresh_token),
            ebay_network_enabled: self.ebay_network_enabled,
            org_store_configured: self.org_store_configured,
            request,
            override_images,
            override_category,
            override_product,
            product_overridden: false,
            auth,
            step: RunStep::Created,
            started_ms: 0,
            stages,
            org_config: None,
            images: Vec::new(),
            seed: 0,
            selection: None,
            taxonomy: None,
            token: None,
            conditions: None,
            product: None,
            ebay_cfg: None,
            draft: None,
            package: None,
            bullets: Vec::new(),
            listing: None,
            ebay_token: None,
            inventory: None,
            create_offer: None,
            update_offer: None,
            flow: None,
        }
    }
}

fn copy_categories(categories: &Vec<CategoryDefinition>) -> (out: Vec<CategoryDefinition>)
    ensures
        out@.len() == categories@.len(),
        forall|i: int|
            0 <= i < out@.len() ==> crate::pipeline::stages::category_view(#[trigger] out@[i])
                == crate::pipeline::stages::category_view(categories@[i]),
{
    let mut out: Vec<CategoryDefinition> = Vec::new();
    let mut i: usize = 0;
    while i < categories.len()
        invariant
            i <= categories@.len(),
            out@.len() == i,
            forall|k: int|
                0 <= k < i ==> crate::pipeline::stages::category_view(#[trigger] out@[k])
                    == crate::pipeline::stages::category_view(categories@[k]),
        decreases categories@.len() - i,
    {
        let c = &categories[i];
        out.push(
            CategoryDefinition {
                id: c.id.clone(),
                tree_id: c.tree_id.clone(),
                label: c.label.clone(),
                narrative: c.narrative.clone(),
                keywords: copy_strings(&c.keywords),
            },
        );
        i += 1;
    }
    out
}

impl PipelineRun {
    /// Where the run stands.
    pub closed spec fn step_spec(self) -> RunStep {
        self.step
    }

    /// Whether the run ends after the listing is built.
    pub closed spec fn dry_run_spec(self) -> bool {
        self.request.dry_run
    }

    /// The request of the run, without what the client supplied in place of stages.
    pub closed spec fn request_spec(self) -> ListingRequest {
        self.request
    }

    /// The settings of the run.
    pub closed spec fn config_spec(self) -> PipelineConfig {
        self.config
    }

    /// On whose behalf the run is made.
    pub closed spec fn caller_spec(self) -> Option<AuthContext> {
        self.auth
    }

    /// Whether the run may ask the tenant store.
    pub closed spec fn reaches_store(self) -> bool {
        self.org_store_configured
    }

    /// Whether the run may call the marketplace.
    pub closed spec fn reaches_marketplace(self) -> bool {
        self.ebay_network_enabled
    }

    /// The refresh token of the marketplace, when there is one.
    pub closed spec fn refresh_token_spec(self) -> Option<Seq<char>> {
        opt_text(self.ebay_refresh_token)
    }

    /// The images that the client supplied in place of the first stage.
    pub closed spec fn given_images(self) -> Option<Seq<Seq<char>>> {
        opt_texts(self.override_images)
    }

    /// The category that the client supplied in place of the second stage.
    pub closed spec fn given_category(self) -> Option<CategorySelectionInput> {
        self.override_category
    }

    /// The product that the client supplied in place of the model's, until it is read.
    pub closed spec fn given_product(self) -> Option<JsonValue> {
        self.override_product
    }

    /// What is stored for the caller's organization, when something was found.
    pub closed spec fn org_config_spec(self) -> Option<EbayOrgConfig> {
        self.org_config
    }

    /// The seed of the run, once the images are resolved.
    pub closed spec fn seed_value(self) -> u64 {
        self.seed
    }

    /// The resolved images.
    pub closed spec fn images_spec(self) -> Seq<Seq<char>> {
        texts(self.images@)
    }

    /// The chosen category, once it is chosen.
    pub closed spec fn selection_spec(self) -> Option<CategorySelection> {
        self.selection
    }

    /// The taxonomy of the chosen category, once it is fetched.
    pub closed spec fn taxonomy_spec(self) -> Option<TaxonomySpec> {
        self.taxonomy
    }

    /// The demo credential, once it is acquired.
    pub closed spec fn credentials_spec(self) -> Option<DemoCredentials> {
        self.token
    }

    /// The conditions, once they are prepared.
    pub closed spec fn conditions_spec(self) -> Option<ConditionBundle> {
        self.conditions
    }

    /// Whether the product of the run is one that the client supplied.
    pub closed spec fn product_overridden_spec(self) -> bool {
        self.product_overridden
    }

    /// The product, once it is extracted.
    pub closed spec fn product_spec(self) -> Option<Product> {
        self.product
    }

    /// What the run knows of the seller, once the product is extracted.
    pub closed spec fn seller_spec(self) -> Option<EbayRuntimeConfig> {
        self.ebay_cfg
    }

    /// The draft of the listing, while the model is asked for a description.
    pub closed spec fn draft_spec(self) -> Option<EbayListingDraft> {
        self.draft
    }

    /// The listing, once it is built.
    pub closed spec fn listing_spec(self) -> Option<ListingPlan> {
        self.listing
    }

    /// The marketplace's access token, when the run has one.
    pub closed spec fn access_token_spec(self) -> Option<Seq<char>> {
        opt_text(self.ebay_token)
    }

    /// The inventory item that `UpsertItem` is to send.
    pub closed spec fn inventory_spec(self) -> Option<InventoryItemRequest> {
        self.inventory
    }

    /// The request that `CreateOffer` is to send.
    pub closed spec fn create_offer_spec(self) -> Option<CreateOfferRequest> {
        self.create_offer
    }

    /// The request that `UpdateOffer` is to send.
    pub closed spec fn update_offer_spec(self) -> Option<UpdateOfferRequest> {
        self.update_offer
    }

    /// The flow of the offer, while it is being published.
    pub closed spec fn flow_spec(self) -> Option<OfferFlow> {
        self.flow
    }

    /// The reports of the stages that have ended.
    pub closed spec fn stages_spec(self) -> Seq<StageReport> {
        self.stages@
    }

    /// The time at which the run came to pause before the stage at hand.
    pub closed spec fn started_spec(self) -> u64 {
        self.started_ms
    }

    /// The run is sound: while it has not ended, the stages that have
    /// reported are the first of the nine, in their order, as many as the
    /// step says; and it holds what the stages up to there have made.
    pub closed spec fn wf(self) -> bool {
        !(self.step is Done) ==> {
            let k = self.step.completed();
            &&& report_names(self.stages@) == stage_names().take(k as int)
            &&& (k >= 1 ==> self.images@.len() > 0)
            &&& (k >= 2 ==> self.selection is Some)
            &&& (k >= 3 ==> self.taxonomy is Some)
            &&& (k >= 4 ==> self.token is Some)
            &&& (k >= 5 ==> self.conditions is Some)
            &&& (k >= 6 ==> self.product is Some && self.ebay_cfg is Some)
            &&& (self.step is BuildChat ==> self.draft is Some && texts(self.bullets@)
                == bullets_spec(self.product->0) && is_package_of(self.package, self.product->0))
            &&& (k >= 7 ==> self.listing is Some)
            &&& (k >= 7 ==> !self.request.dry_run)
            &&& (self.step is PushLocation || self.step is PushItem ==> self.inventory is Some
                && self.ebay_token is Some)
            &&& (k >= 8 ==> self.inventory is Some)
            &&& (self.step is Publishing ==> self.create_offer is Some && self.update_offer
                is Some && self.flow is Some && !(self.flow->0.step is Done)
                && are_offer_requests(
                self.create_offer->0,
                self.update_offer->0,
                self.listing->0,
            ))
        }
    }

    /// Where the run stands.
    pub fn step(&self) -> (out: RunStep)
        ensures
            out == self.step_spec(),
    {
        self.step
    }

    /// The reports of the stages that have ended.
    pub fn stages(&self) -> (out: &Vec<StageReport>)
        ensures
            out@ == self.stages_spec(),
    {
        &self.stages
    }

    /// The inventory item that `UpsertItem` is to send.
    pub fn inventory_request(&self) -> (out: Option<&InventoryItemRequest>)
        ensures
            match out {
                Some(request) => self.inventory_spec() == Some(*request),
                None => self.inventory_spec() is None,
            },
    {
        self.inventory.as_ref()
    }

    /// The request that `CreateOffer` is to send.
    pub fn create_offer_request(&self) -> (out: Option<&CreateOfferRequest>)
        ensures
            match out {
                Some(request) => self.create_offer_spec() == Some(*request),
                None => self.create_offer_spec() is None,
            },
    {
        self.create_offer.as_ref()
    }

    /// The request that `UpdateOffer` is to send.
    pub fn update_offer_request(&self) -> (out: Option<&UpdateOfferRequest>)
        ensures
            match out {
                Some(request) => self.update_offer_spec() == Some(*request),
                None => self.update_offer_spec() is None,
            },
    {
        self.update_offer.as_ref()
    }

    /// The marketplace's access token, when the run has one.
    pub fn access_token(&self) -> (out: Option<&String>)
        ensures
            match out {
                Some(token) => self.access_token_spec() == Some(token@),
                None => self.access_token_spec() is None,
            },
    {
        self.ebay_token.as_ref()
    }

    /// While a run has not ended, the stages that have reported are the
    /// first of the nine in their order, and none has reported twice.
    pub proof fn lemma_stages_in_order(self)
        requires
            self.wf(),
            !(self.step_spec() is Done),
        ensures
            report_names(self.stages_spec()) == stage_names().take(
                self.step_spec().completed() as int,
            ),
            forall|i: int, j: int|
                0 <= i < j < self.stages_spec().len() ==> self.stages_spec()[i].name@
                    != self.stages_spec()[j].name@,
    {
        let names = report_names(self.stages@);
        let n = stage_names();
        assert(names.len() == self.stages@.len());
        lemma_stage_names_differ();
        assert forall|i: int, j: int| 0 <= i < j < self.stages@.len() implies self.stages@[i].name@
            != self.stages@[j].name@ by {
            assert(names[i] == n[i]);
            assert(names[j] == n[j]);
            assert(names[i] == self.stages@[i].name@);
            assert(names[j] == self.stages@[j].name@);
        }
    }

    fn fail(&mut self, e: PipelineError) -> (out: RunAction)
        ensures
            *final(self) == (PipelineRun { step: RunStep::Done, ..*old(self) }),
            final(self).wf(),
            out == (RunAction::Finish { outcome: Err(e) }),
    {
        self.step = RunStep::Done;
        finish_err(e)
    }

    fn out_of_turn(&mut self) -> (out: RunAction)
        ensures
            *final(self) == (PipelineRun { step: RunStep::Done, ..*old(self) }),
            final(self).wf(),
            fails_out_of_turn(out),
    {
        self.fail(
            PipelineError::internal("pipeline", "event does not answer the action that was due"),
        )
    }

    fn begin_select(&mut self, now_ms: u64) -> (out: RunAction)
        requires
            report_names(old(self).stages@) == stage_names().take(1),
            old(self).images@.len() > 0,
            !(old(self).step is Done),
        ensures
            final(self).wf(),
            *final(self) == (PipelineRun {
                step: final(self).step,
                started_ms: final(self).started_ms,
                stages: final(self).stages,
                selection: final(self).selection,
                ..*old(self)
            }),
            opens(final(self).step, out),
            final(self).step is SelectCategory || final(self).step is FetchTaxonomy,
            extends(old(self).stages@, final(self).stages@),
            reports_timed(old(self).stages@, final(self).stages@, false, 0, now_ms),
            final(self).started_ms == now_ms,
            opens_category(*old(self), *final(self), out),
    {
        let outcome = match &self.override_category {
            Some(input) => Some(override_category(input, &self.images, &self.config.categories)),
            None => None,
        };
        match outcome {
            Some(outcome) => {
                record(&mut self.stages, 1, now_ms, now_ms, outcome.output);
                self.selection = Some(outcome.value);
                self.step = RunStep::FetchTaxonomy;
                self.started_ms = now_ms;
                RunAction::Pause { millis: 25 }
            },
            None => {
                self.step = RunStep::SelectCategory;
                self.started_ms = now_ms;
                RunAction::Pause { millis: 22 }
            },
        }
    }

    fn begin_resolve(&mut self, now_ms: u64) -> (out: RunAction)
        requires
            old(self).wf(),
            old(self).step.completed() == 0,
        ensures
            final(self).wf(),
            *final(self) == (PipelineRun {
                step: final(self).step,
                started_ms: final(self).started_ms,
                stages: final(self).stages,
                selection: final(self).selection,
                images: final(self).images,
                seed: final(self).seed,
                ..*old(self)
            }),
            opens(final(self).step, out),
            final(self).step is Done || final(self).step is ResolveImages || final(self).step
                is SelectCategory || final(self).step is FetchTaxonomy,
            extends(old(self).stages@, final(self).stages@),
            reports_timed(old(self).stages@, final(self).stages@, false, 0, now_ms),
            final(self).started_ms == if final(self).step is Done {
                old(self).started_ms
            } else {
                now_ms
            },
            opens_images(*old(self), *final(self), out),
    {
        let given = match &self.override_images {
            Some(images) => {
                assert(texts(images@).len() == images@.len());
                Some(copy_strings(images))
            },
            None => None,
        };
        match given {
            Some(images) => {
                if images.len() == 0 {
                    return self.fail(
                        PipelineError::invalid_input("resolve_images", "no images provided"),
                    );
                }
                if images.len() > self.config.max_images {
                    return self.fail(
                        PipelineError::invalid_input("resolve_images", "too_many_images"),
                    );
                }
                let output = StageOutput::ResolveImages {
                    count: images.len(),
                    preview: first_strings(&images, 2),
                    use_signed_urls: self.request.use_signed_urls,
                    overridden: true,
                };
                record(&mut self.stages, 0, now_ms, now_ms, output);
                self.seed = compute_seed(&self.request, &images);
                self.images = images;
                self.begin_select(now_ms)
            },
            None => {
                self.step = RunStep::ResolveImages;
                self.started_ms = now_ms;
                RunAction::Pause { millis: 18 }
            },
        }
    }

    fn on_begin(&mut self, now_ms: u64) -> (out: RunAction)
        requires
            old(self).wf(),
            old(self).step is Created,
        ensures
            final(self).wf(),
            keeps(*old(self), *final(self)),
            timed(*old(self), now_ms, *final(self), out),
            opens(final(self).step, out),
            may_follow(RunStep::Created, final(self).step),
            begun(*old(self), *final(self), out),
    {
        let org_id: Option<u128> = match &self.auth {
            Some(ctx) => if self.org_store_configured {
                match parse_id(ctx.org_id.as_str()) {
                    Ok(bits) => Some(bits),
                    Err(message) => {
                        return self.fail(PipelineError::internal("supabase", message.as_str()));
                    },
                }
            } else {
                None
            },
            None => None,
        };
        match org_id {
            Some(bits) => {
                self.step = RunStep::OrgLookup;
                RunAction::LookupOrgConfig { org_id: bits }
            },
            None => self.begin_resolve(now_ms),
        }
    }

    fn on_org_config(&mut self, found: Result<Option<EbayOrgConfig>, String>, now_ms: u64) -> (out:
        RunAction)
        requires
            old(self).wf(),
            old(self).step is OrgLookup,
        ensures
            final(self).wf(),
            keeps(*old(self), *final(self)),
            timed(*old(self), now_ms, *final(self), out),
            opens(final(self).step, out),
            may_follow(RunStep::OrgLookup, final(self).step),
            store_answered(*old(self), found, *final(self), out),
    {
        self.org_config = match found {
            Ok(config) => config,
            Err(_) => None,
        };
        self.begin_resolve(now_ms)
    }

    fn on_resolve(&mut self, now_ms: u64) -> (out: RunAction)
        requires
            old(self).wf(),
            old(self).step is ResolveImages,
        ensures
            final(self).wf(),
            keeps(*old(self), *final(self)),
            timed(*old(self), now_ms, *final(self), out),
            opens(final(self).step, out),
            may_follow(RunStep::ResolveImages, final(self).step),
            images_resolved(*old(self), *final(self), out),
    {
        match resolve_images(&self.request, &self.config) {
            Ok(outcome) => {
                assert(texts(outcome.value@).len() == outcome.value@.len());
                record(&mut self.stages, 0, self.started_ms, now_ms, outcome.output);
                self.seed = compute_seed(&self.request, &outcome.value);
                self.images = outcome.value;
                self.begin_select(now_ms)
            },
            Err(e) => self.fail(e),
        }
    }

    fn on_select(&mut self, now_ms: u64) -> (out: RunAction)
        requires
            old(self).wf(),
            old(self).step is SelectCategory,
        ensures
            final(self).wf(),
            keeps(*old(self), *final(self)),
            timed(*old(self), now_ms, *final(self), out),
            opens(final(self).step, out),
            may_follow(RunStep::SelectCategory, final(self).step),
            category_selected(*old(self), *final(self), out),
    {
        match select_category(&self.request, &self.images, &self.config.categories, self.seed) {
            Ok(outcome) => {
                record(&mut self.stages, 1, self.started_ms, now_ms, outcome.output);
                self.selection = Some(outcome.value);
                self.step = RunStep::FetchTaxonomy;
                self.started_ms = now_ms;
                RunAction::Pause { millis: 25 }
            },
            Err(e) => self.fail(e),
        }
    }

    fn on_taxonomy(&mut self, now_ms: u64) -> (out: RunAction)
        requires
            old(self).wf(),
            old(self).step is FetchTaxonomy,
        ensures
            final(self).wf(),
            keeps(*old(self), *final(self)),
            timed(*old(self), now_ms, *final(self), out),
            opens(final(self).step, out),
            taxonomy_fetched(*old(self), *final(self)),
    {
        let outcome = match &self.selection {
            Some(selection) => fetch_taxonomy(selection),
            None => {
                proof {
                    assert(false);
                }
                return self.out_of_turn();
            },
        };
        record(&mut self.stages, 2, self.started_ms, now_ms, outcome.output);
        self.taxonomy = Some(outcome.value);
        self.step = RunStep::AcquireUserToken;
        self.started_ms = now_ms;
        RunAction::Pause { millis: 12 }
    }

    fn on_token(&mut self, now_ms: u64) -> (out: RunAction)
        requires
            old(self).wf(),
            old(self).step is AcquireUserToken,
        ensures
            final(self).wf(),
            keeps(*old(self), *final(self)),
            timed(*old(self), now_ms, *final(self), out),
            opens(final(self).step, out),
            token_acquired(*old(self), *final(self)),
    {
        let outcome = acquire_user_token();
        record(&mut self.stages, 3, self.started_ms, now_ms, outcome.output);
        self.token = Some(outcome.value);
        self.step = RunStep::PrepareConditions;
        self.started_ms = now_ms;
        RunAction::Pause { millis: 10 }
    }

    fn on_conditions(&mut self, now_ms: u64) -> (out: RunAction)
        requires
            old(self).wf(),
            old(self).step is PrepareConditions,
        ensures
            final(self).wf(),
            keeps(*old(self), *final(self)),
            timed(*old(self), now_ms, *final(self), out),
            opens(final(self).step, out),
            final(self).step is ExtractPause || final(self).step is ExtractDecode,
            conditions_prepared(*old(self), *final(self), out),
    {
        let outcome = match &self.selection {
            Some(selection) => prepare_conditions(selection),
            None => {
                proof {
                    assert(false);
                }
                return self.out_of_turn();
            },
        };
        record(&mut self.stages, 4, self.started_ms, now_ms, outcome.output);
        self.conditions = Some(outcome.value);
        self.started_ms = now_ms;
        let mut given: Option<JsonValue> = None;
        std::mem::swap(&mut self.override_product, &mut given);
        match given {
            Some(value) => {
                self.product_overridden = true;
                self.step = RunStep::ExtractDecode;
                RunAction::DecodeProduct { value }
            },
            None => {
                self.product_overridden = false;
                self.step = RunStep::ExtractPause;
                RunAction::Pause { millis: 40 }
            },
        }
    }

    fn finish_extract(&mut self, product: Product, now_ms: u64) -> (out: RunAction)
        requires
            old(self).wf(),
            old(self).step.completed() == 5,
        ensures
            final(self).wf(),
            *final(self) == (PipelineRun {
                step: final(self).step,
                started_ms: final(self).started_ms,
                stages: final(self).stages,
                product: final(self).product,
                ebay_cfg: final(self).ebay_cfg,
                ..*old(self)
            }),
            opens(final(self).step, out),
            final(self).step is BuildPause || final(self).step is Done,
            extends(old(self).stages@, final(self).stages@),
            reports_timed(
                old(self).stages@,
                final(self).stages@,
                true,
                old(self).started_ms,
                now_ms,
            ),
            final(self).started_ms == if final(self).step is Done {
                old(self).started_ms
            } else {
                now_ms
            },
            extracted(*old(self), product, *final(self), out),
    {
        let output = StageOutput::ExtractProduct {
            name: product.name.clone(),
            brand: match product.brand_name_of() {
                Some(b) => Some(b.clone()),
                None => None,
            },
            color: copy_opt(&product.color),
            images: self.images.len(),
            overridden: self.product_overridden,
        };
        assert(texts(self.images@).len() == self.images@.len());
        record(&mut self.stages, 5, self.started_ms, now_ms, output);
        self.product = Some(product);
        match resolve_ebay_config(&self.request, self.org_config.as_ref()) {
            Ok(cfg) => {
                self.ebay_cfg = Some(cfg);
                self.step = RunStep::BuildPause;
                self.started_ms = now_ms;
                RunAction::Pause { millis: 28 }
            },
            Err(e) => self.fail(e),
        }
    }

    fn fall_back(&mut self, now_ms: u64) -> (out: RunAction)
        requires
            old(self).wf(),
            old(self).step.completed() == 5,
        ensures
            final(self).wf(),
            *final(self) == (PipelineRun {
                step: final(self).step,
                started_ms: final(self).started_ms,
                stages: final(self).stages,
                product: final(self).product,
                ebay_cfg: final(self).ebay_cfg,
                ..*old(self)
            }),
            opens(final(self).step, out),
            final(self).step is BuildPause || final(self).step is Done,
            extends(old(self).stages@, final(self).stages@),
            reports_timed(
                old(self).stages@,
                final(self).stages@,
                true,
                old(self).started_ms,
                now_ms,
            ),
            final(self).started_ms == if final(self).step is Done {
                old(self).started_ms
            } else {
                now_ms
            },
            fell_back(*old(self), *final(self), out),
    {
        let product = fallback_product(self.request.sku.as_str(), &self.images);
        self.finish_extract(product, now_ms)
    }

    fn on_extract_pause(&mut self, now_ms: u64) -> (out: RunAction)
        requires
            old(self).wf(),
            old(self).step is ExtractPause,
        ensures
            final(self).wf(),
            keeps(*old(self), *final(self)),
            timed(*old(self), now_ms, *final(self), out),
            opens(final(self).step, out),
            may_follow(RunStep::ExtractPause, final(self).step),
            extraction_asked(*old(self), *final(self), out),
    {
        match extraction_payload(self.request.sku.as_str(), &self.images) {
            Ok(payload) => {
                self.step = RunStep::ExtractChat;
                RunAction::ChatExtract { system: SYSTEM_PROMPT, payload }
            },
            Err(_) => {
                proof {
                    assert(false);
                }
                self.out_of_turn()
            },
        }
    }

    fn on_extract_chat(&mut self, answer: Result<String, String>, now_ms: u64) -> (out: RunAction)
        requires
            old(self).wf(),
            old(self).step is ExtractChat,
        ensures
            final(self).wf(),
            keeps(*old(self), *final(self)),
            timed(*old(self), now_ms, *final(self), out),
            opens(final(self).step, out),
            may_follow(RunStep::ExtractChat, final(self).step),
            extraction_answered(*old(self), answer, *final(self), out),
    {
        match answer {
            Ok(text) => {
                self.step = RunStep::ExtractParse;
                RunAction::ParseJson { text: strip_markdown_fence(text.as_str()) }
            },
            Err(_) => self.fall_back(now_ms),
        }
    }

    fn on_parsed(&mut self, value: Option<JsonValue>, now_ms: u64) -> (out: RunAction)
        requires
            old(self).wf(),
            old(self).step is ExtractParse,
        ensures
            final(self).wf(),
            keeps(*old(self), *final(self)),
            timed(*old(self), now_ms, *final(self), out),
            opens(final(self).step, out),
            may_follow(RunStep::ExtractParse, final(self).step),
            document_read(*old(self), value, *final(self), out),
    {
        match value {
            Some(v) => {
                let mut v = v;
                normalize_product_value(&mut v, &self.images);
                self.step = RunStep::ExtractDecode;
                RunAction::DecodeProduct { value: v }
            },
            None => self.fall_back(now_ms),
        }
    }

    fn on_decoded(&mut self, product: Option<Product>, now_ms: u64) -> (out: RunAction)
        requires
            old(self).wf(),
            old(self).step is ExtractDecode,
        ensures
            final(self).wf(),
            keeps(*old(self), *final(self)),
            timed(*old(self), now_ms, *final(self), out),
            opens(final(self).step, out),
            may_follow(RunStep::ExtractDecode, final(self).step),
            product_read(*old(self), product, *final(self), out),
    {
        match product {
            Some(p) => self.finish_extract(p, now_ms),
            None => {
                if self.product_overridden {
                    self.fail(
                        PipelineError::invalid_input("extract_product", "invalid_product_override"),
                    )
                } else {
                    self.fall_back(now_ms)
                }
            },
        }
    }

    fn on_build_pause(&mut self) -> (out: RunAction)
        requires
            old(self).wf(),
            old(self).step is BuildPause,
        ensures
            final(self).wf(),
            keeps(*old(self), *final(self)),
            final(self).started_ms == old(self).started_ms,
            final(self).stages == old(self).stages,
            opens(final(self).step, out),
            may_follow(RunStep::BuildPause, final(self).step),
            draft_made(*old(self), *final(self), out),
    {
        let (product, taxonomy) = match (&self.product, &self.taxonomy) {
            (Some(p), Some(t)) => (p, t),
            _ => {
                proof {
                    assert(false);
                }
                return self.out_of_turn();
            },
        };
        let ctx = HsufListingContext {
            taxonomy: &taxonomy.raw,
            category_id: taxonomy.category_id.as_str(),
            default_currency: "USD",
        };
        match build_listing_draft(product, ctx) {
            Ok(draft) => {
                let package = estimate_package(product);
                let bullets = bullet_points_from_product(product);
                let prompt = description_prompt(draft.title.as_str(), &bullets);
                self.draft = Some(draft);
                self.package = package;
                self.bullets = bullets;
                self.step = RunStep::BuildChat;
                RunAction::ChatDescribe { prompt }
            },
            Err(e) => {
                let m = e.message();
                self.fail(PipelineError::internal("build_listing", m.as_str()))
            },
        }
    }

    fn on_build_chat(&mut self, answer: Result<String, String>, now_ms: u64) -> (out: RunAction)
        requires
            old(self).wf(),
            old(self).step is BuildChat,
        ensures
            final(self).wf(),
            keeps(*old(self), *final(self)),
            timed(*old(self), now_ms, *final(self), out),
            opens(final(self).step, out),
            may_follow(RunStep::BuildChat, final(self).step),
            listing_built(*old(self), answer, *final(self), out),
    {
        let mut taken: Option<EbayListingDraft> = None;
        std::mem::swap(&mut self.draft, &mut taken);
        let draft = match taken {
            Some(d) => d,
            None => {
                proof {
                    assert(false);
                }
                return self.out_of_turn();
            },
        };
        let (conditions, ebay_cfg) = match (&self.conditions, &self.ebay_cfg) {
            (Some(c), Some(e)) => (c, e),
            _ => {
                proof {
                    assert(false);
                }
                return self.out_of_turn();
            },
        };
        let description = choose_description(answer, draft.title.as_str(), &self.bullets);
        let outcome = assemble_listing(
            &self.request,
            draft,
            self.package,
            description,
            conditions,
            ebay_cfg,
        );
        record(&mut self.stages, 6, self.started_ms, now_ms, outcome.output);
        self.listing = Some(outcome.value);
        if self.request.dry_run {
            let mut stages: Vec<StageReport> = Vec::new();
            std::mem::swap(&mut self.stages, &mut stages);
            self.step = RunStep::Done;
            return RunAction::Finish {
                outcome: Ok(ListingResponse { listing_id: preview_listing_id(), stages }),
            };
        }
        if self.ebay_network_enabled {
            match &self.ebay_refresh_token {
                Some(refresh) => {
                    let refresh_token = refresh.clone();
                    self.step = RunStep::EbayToken;
                    RunAction::FetchEbayToken { refresh_token, scopes: user_scopes() }
                },
                None => self.fail(
                    PipelineError::internal("ebay_auth", "EBAY_REFRESH_TOKEN is not set"),
                ),
            }
        } else {
            self.step = RunStep::PushPause;
            self.started_ms = now_ms;
            RunAction::Pause { millis: 15 }
        }
    }

    fn on_ebay_token(&mut self, token: Result<String, String>, now_ms: u64) -> (out: RunAction)
        requires
            old(self).wf(),
            old(self).step is EbayToken,
        ensures
            final(self).wf(),
            keeps(*old(self), *final(self)),
            timed(*old(self), now_ms, *final(self), out),
            opens(final(self).step, out),
            may_follow(RunStep::EbayToken, final(self).step),
            token_fetched(*old(self), token, *final(self), out),
    {
        match token {
            Ok(t) => {
                self.ebay_token = Some(t);
                self.step = RunStep::PushPause;
                self.started_ms = now_ms;
                RunAction::Pause { millis: 15 }
            },
            Err(m) => self.fail(PipelineError::internal("ebay_auth", m.as_str())),
        }
    }

    fn finish_push(&mut self, now_ms: u64) -> (out: RunAction)
        requires
            old(self).wf(),
            old(self).step.completed() == 7,
            old(self).inventory is Some,
        ensures
            final(self).wf(),
            *final(self) == (PipelineRun {
                step: final(self).step,
                started_ms: final(self).started_ms,
                stages: final(self).stages,
                ..*old(self)
            }),
            opens(final(self).step, out),
            extends(old(self).stages@, final(self).stages@),
            reports_timed(
                old(self).stages@,
                final(self).stages@,
                true,
                old(self).started_ms,
                now_ms,
            ),
            final(self).started_ms == now_ms,
            pushed(*old(self), *final(self)),
    {
        let listing = match &self.listing {
            Some(l) => l,
            None => {
                proof {
                    assert(false);
                }
                return self.out_of_turn();
            },
        };
        let output = StageOutput::PushInventory {
            sku: listing.sku.clone(),
            location: listing.merchant_location_key.clone(),
            status: "UPSERTED",
            media_attached: listing.media.len(),
            inventory_request: inventory_request_from_listing(listing),
        };
        record(&mut self.stages, 7, self.started_ms, now_ms, output);
        self.step = RunStep::PublishPause;
        self.started_ms = now_ms;
        RunAction::Pause { millis: 20 }
    }

    fn on_push_pause(&mut self, now_ms: u64) -> (out: RunAction)
        requires
            old(self).wf(),
            old(self).step is PushPause,
        ensures
            final(self).wf(),
            keeps(*old(self), *final(self)),
            timed(*old(self), now_ms, *final(self), out),
            opens(final(self).step, out),
            may_follow(RunStep::PushPause, final(self).step),
            !(out is Finish),
            push_opened(*old(self), *final(self), out),
    {
        let listing = match &self.listing {
            Some(l) => l,
            None => {
                proof {
                    assert(false);
                }
                return self.out_of_turn();
            },
        };
        self.inventory = Some(inventory_request_from_listing(listing));
        if self.ebay_token.is_none() {
            return self.finish_push(now_ms);
        }
        let location = match &self.ebay_cfg {
            Some(cfg) => match &cfg.location {
                Some(loc) => if location_is_complete(loc) {
                    Some(location_payload(loc))
                } else {
                    None
                },
                None => None,
            },
            None => None,
        };
        match location {
            Some(payload) => {
                let key = match &self.listing {
                    Some(l) => l.merchant_location_key.clone(),
                    None => String::new(),
                };
                self.step = RunStep::PushLocation;
                RunAction::UpsertLocation { merchant_location_key: key, payload }
            },
            None => {
                self.step = RunStep::PushItem;
                RunAction::UpsertItem { sku: self.request.sku.clone() }
            },
        }
    }

    fn on_location(&mut self) -> (out: RunAction)
        requires
            old(self).wf(),
            old(self).step is PushLocation,
        ensures
            final(self).wf(),
            keeps(*old(self), *final(self)),
            final(self).started_ms == old(self).started_ms,
            final(self).stages == old(self).stages,
            opens(final(self).step, out),
            sends_item(*old(self), *final(self), out),
    {
        self.step = RunStep::PushItem;
        RunAction::UpsertItem { sku: self.request.sku.clone() }
    }

    fn on_item(&mut self, done: Result<(), String>, now_ms: u64) -> (out: RunAction)
        requires
            old(self).wf(),
            old(self).step is PushItem,
        ensures
            final(self).wf(),
            keeps(*old(self), *final(self)),
            timed(*old(self), now_ms, *final(self), out),
            opens(final(self).step, out),
            may_follow(RunStep::PushItem, final(self).step),
            item_upserted(*old(self), done, *final(self), out),
    {
        match done {
            Ok(_) => self.finish_push(now_ms),
            Err(m) => self.fail(PipelineError::internal("push_inventory", m.as_str())),
        }
    }

    fn finish_publish(&mut self, listing_id: String, offer_id: Option<String>, now_ms: u64) -> (out:
        RunAction)
        requires
            report_names(old(self).stages@) == stage_names().take(8),
            old(self).listing is Some,
            old(self).selection is Some,
            old(self).token is Some,
            !old(self).request.dry_run,
            old(self).create_offer is Some,
            old(self).update_offer is Some,
            are_offer_requests(
                old(self).create_offer->0,
                old(self).update_offer->0,
                old(self).listing->0,
            ),
        ensures
            final(self).wf(),
            *final(self) == (PipelineRun {
                step: RunStep::Done,
                stages: final(self).stages,
                create_offer: None,
                update_offer: None,
                ..*old(self)
            }),
            out matches RunAction::Finish { outcome: Ok(response) } && response.listing_id
                == listing_id && response.stages@.last().output->PublishOffer_offer_id == offer_id
                && published(*old(self), response, opt_text(offer_id)),
            reports_timed(
                old(self).stages@,
                out->outcome->Ok_0.stages@,
                true,
                old(self).started_ms,
                now_ms,
            ),
    {
        let mut create: Option<CreateOfferRequest> = None;
        std::mem::swap(&mut self.create_offer, &mut create);
        let mut update: Option<UpdateOfferRequest> = None;
        std::mem::swap(&mut self.update_offer, &mut update);
        let (create_offer, update_offer) = match (create, update) {
            (Some(c), Some(u)) => (c, u),
            _ => {
                proof {
                    assert(false);
                }
                return self.out_of_turn();
            },
        };
        let (listing, selection, token) = match (&self.listing, &self.selection, &self.token) {
            (Some(l), Some(s), Some(t)) => (l, s, t),
            _ => {
                proof {
                    assert(false);
                }
                return self.out_of_turn();
            },
        };
        let offer = offer_result(listing_id.as_str(), self.request.marketplace);
        let output = StageOutput::PublishOffer {
            listing_id: offer.listing_id,
            category: selection.label.clone(),
            token_preview: preview_token(token.token.as_str()),
            title: listing.title.clone(),
            media_count: listing.media.len(),
            create_offer,
            update_offer,
            offer_id,
        };
        record(&mut self.stages, 8, self.started_ms, now_ms, output);
        let mut stages: Vec<StageReport> = Vec::new();
        std::mem::swap(&mut self.stages, &mut stages);
        self.step = RunStep::Done;
        proof {
            assert(stage_names().take(9) =~= stage_names());
        }
        RunAction::Finish { outcome: Ok(ListingResponse { listing_id, stages }) }
    }

    fn on_publish_pause(&mut self, now_ms: u64) -> (out: RunAction)
        requires
            old(self).wf(),
            old(self).step is PublishPause,
        ensures
            final(self).wf(),
            keeps(*old(self), *final(self)),
            timed(*old(self), now_ms, *final(self), out),
            opens(final(self).step, out),
            may_follow(RunStep::PublishPause, final(self).step),
            publish_opened(*old(self), *final(self), out),
    {
        let listing = match &self.listing {
            Some(l) => l,
            None => {
                proof {
                    assert(false);
                }
                return self.out_of_turn();
            },
        };
        let (create, update) = build_offer_requests(listing);
        let sku = create.sku.clone();
        let marketplace_id = create.marketplace_id.clone();
        self.create_offer = Some(create);
        self.update_offer = Some(update);
        if self.ebay_token.is_some() {
            let (flow, call) = OfferFlow::start(sku.as_str(), marketplace_id.as_str());
            self.flow = Some(flow);
            self.step = RunStep::Publishing;
            RunAction::Offer { call }
        } else {
            self.finish_publish(fallback_listing_id(), None, now_ms)
        }
    }

    fn on_offer(&mut self, reply: OfferReply, now_ms: u64) -> (out: RunAction)
        requires
            old(self).wf(),
            old(self).step is Publishing,
        ensures
            final(self).wf(),
            keeps(*old(self), *final(self)),
            timed(*old(self), now_ms, *final(self), out),
            opens(final(self).step, out),
            may_follow(RunStep::Publishing, final(self).step),
            offer_answered(*old(self), reply, *final(self), out),
    {
        let mut taken: Option<OfferFlow> = None;
        std::mem::swap(&mut self.flow, &mut taken);
        let mut flow = match taken {
            Some(f) => f,
            None => {
                proof {
                    assert(false);
                }
                return self.out_of_turn();
            },
        };
        let progress = flow.advance(reply);
        match progress {
            OfferProgress::Call { call } => {
                self.flow = Some(flow);
                RunAction::Offer { call }
            },
            OfferProgress::Finished { outcome } => match outcome {
                Ok(done) => self.finish_publish(done.listing_id, done.offer_id, now_ms),
                Err(e) => self.fail(e),
            },
        }
    }

    /// Takes what came of the action that was due, at the time `now_ms` of
    /// a clock that never goes back, and says what is due next.
    ///
    /// - What the run does with the event is what `step_taken` says, stage
    ///   by stage; an event that does not answer the action that was due
    ///   ends the run with a failure of the service.
    /// - The run never goes back: the step that follows is one that
    ///   `may_follow` allows, and the action is the one that opens it.
    /// - What a stage has made stays as it is: see `keeps`.
    /// - Each report says how long its stage took: see `timed`.
    /// - A run that ends well has reported the first seven stages when it
    ///   is a dry run, and all nine when it is not; a dry run's listing id
    ///   begins with `PREVIEW-`.
    pub fn advance(&mut self, event: RunEvent, now_ms: u64) -> (out: RunAction)
        requires
            old(self).wf(),
        ensures
            final(self).wf(),
            advanced_at(*old(self), event, now_ms, *final(self), out),
            !answers(old(self).step_spec(), event) ==> fails_out_of_turn(out),
            (out is Finish && out->outcome is Ok) ==> old(self).step_spec() is BuildChat || old(
                self,
            ).step_spec() is PublishPause || old(self).step_spec() is Publishing,
            out matches RunAction::Finish { outcome: Ok(response) } ==> {
                &&& old(self).dry_run_spec() <==> old(self).step_spec() is BuildChat
                &&& report_names(response.stages@) == stage_names().take(
                    if old(self).dry_run_spec() {
                        7int
                    } else {
                        9int
                    },
                )
                &&& old(self).dry_run_spec() ==> response.listing_id@.len() == 40
                    && response.listing_id@.take(8) == "PREVIEW-"@
            },
    {
        proof {
            assert(stage_names().take(9) =~= stage_names());
        }
        match self.step {
            RunStep::Created => match event {
                RunEvent::Begin => self.on_begin(now_ms),
                _ => self.out_of_turn(),
            },
            RunStep::OrgLookup => match event {
                RunEvent::OrgConfig { found } => self.on_org_config(found, now_ms),
                _ => self.out_of_turn(),
            },
            RunStep::ResolveImages => match event {
                RunEvent::Paused => self.on_resolve(now_ms),
                _ => self.out_of_turn(),
            },
            RunStep::SelectCategory => match event {
                RunEvent::Paused => self.on_select(now_ms),
                _ => self.out_of_turn(),
            },
            RunStep::FetchTaxonomy => match event {
                RunEvent::Paused => self.on_taxonomy(now_ms),
                _ => self.out_of_turn(),
            },
            RunStep::AcquireUserToken => match event {
                RunEvent::Paused => self.on_token(now_ms),
                _ => self.out_of_turn(),
            },
            RunStep::PrepareConditions => match event {
                RunEvent::Paused => self.on_conditions(now_ms),
                _ => self.out_of_turn(),
            },
            RunStep::ExtractPause => match event {
                RunEvent::Paused => self.on_extract_pause(now_ms),
                _ => self.out_of_turn(),
            },
            RunStep::ExtractChat => match event {
                RunEvent::ChatReply { answer } => self.on_extract_chat(answer, now_ms),
                _ => self.out_of_turn(),
            },
            RunStep::ExtractParse => match event {
                RunEvent::Parsed { value } => self.on_parsed(value, now_ms),
                _ => self.out_of_turn(),
            },
            RunStep::ExtractDecode => match event {
                RunEvent::Decoded { product } => self.on_decoded(product, now_ms),
                _ => self.out_of_turn(),
            },
            RunStep::BuildPause => match event {
                RunEvent::Paused => self.on_build_pause(),
                _ => self.out_of_turn(),
            },
            RunStep::BuildChat => match event {
                RunEvent::ChatReply { answer } => self.on_build_chat(answer, now_ms),
                _ => self.out_of_turn(),
            },
            RunStep::EbayToken => match event {
                RunEvent::EbayToken { token } => self.on_ebay_token(token, now_ms),
                _ => self.out_of_turn(),
            },
            RunStep::PushPause => match event {
                RunEvent::Paused => self.on_push_pause(now_ms),
                _ => self.out_of_turn(),
            },
            RunStep::PushLocation => match event {
                RunEvent::LocationUpserted { .. } => self.on_location(),
                _ => self.out_of_turn(),
            },
            RunStep::PushItem => match event {
                RunEvent::ItemUpserted { done } => self.on_item(done, now_ms),
                _ => self.out_of_turn(),
            },
            RunStep::PublishPause => match event {
                RunEvent::Paused => self.on_publish_pause(now_ms),
                _ => self.out_of_turn(),
            },
            RunStep::Publishing => match event {
                RunEvent::Offer { reply } => self.on_offer(reply, now_ms),
                _ => self.out_of_turn(),
            },
            RunStep::Done => self.out_of_turn(),
        }
    }
}

} // verus!
