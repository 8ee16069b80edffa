use hermes_api::decimal::Decimal;
use hermes_api::ebay::offers::{EbayOfferError, OfferSummary};
use hermes_api::json::{JsonMember, JsonValue};
use hermes_api::models::{
    CategorySelectionInput, ImagesSource, ListingRequest, ListingResponse, MarketplaceId,
    PipelineOverrides,
};
use hermes_api::pipeline::offer_flow::{OfferCall, OfferReply};
use hermes_api::pipeline::outputs::StageOutput;
use hermes_api::pipeline::run::{Pipeline, PipelineRun, RunAction, RunEvent, RunStep};
use hermes_api::pipeline::{PipelineError, PipelineErrorKind};
use hermes_api::security::AuthContext;
use hermes_api::supabase::EbayOrgConfig;

fn sample_request() -> ListingRequest {
    ListingRequest {
        images_source: ImagesSource::Multiple(vec![
            "https://example.com/a.jpg".to_string(),
            "https://example.com/b.jpg".to_string(),
        ]),
        sku: "test-sku-001".to_string(),
        merchant_location_key: "loc-1".to_string(),
        fulfillment_policy_id: "fulfill-123".to_string(),
        payment_policy_id: "payment-123".to_string(),
        return_policy_id: "return-123".to_string(),
        marketplace: MarketplaceId::EbayUs,
        llm_provider: None,
        llm_listing_model: None,
        llm_category_model: None,
        use_signed_urls: false,
        overrides: None,
        dry_run: false,
    }
}

fn single_image_request() -> ListingRequest {
    ListingRequest {
        images_source: ImagesSource::Single("https://example.com/a.jpg".to_string()),
        ..sample_request()
    }
}

/// Runs a pipeline that reaches nothing: pauses pass at once and the model fails.
fn drive_offline(run: &mut PipelineRun) -> Result<ListingResponse, PipelineError> {
    let mut now: u64 = 1_000;
    let mut action = run.advance(RunEvent::Begin, now);
    loop {
        action = match action {
            RunAction::Pause { millis } => {
                now += millis;
                run.advance(RunEvent::Paused, now)
            }
            RunAction::ChatExtract { .. } => {
                run.advance(RunEvent::ChatReply { answer: Err("offline".to_string()) }, now)
            }
            RunAction::ChatDescribe { .. } => {
                run.advance(RunEvent::ChatReply { answer: Err("offline".to_string()) }, now)
            }
            RunAction::Finish { outcome } => return outcome,
            other => panic!("unexpected action: {:?}", other),
        };
    }
}

fn names(resp: &ListingResponse) -> Vec<String> {
    resp.stages.iter().map(|s| s.name.clone()).collect()
}

#[test]
fn pipeline_run_stage_sequence() {
    let pipeline = Pipeline::demo();
    let req = sample_request();
    let mut run = pipeline.start(req, None);
    let resp = drive_offline(&mut run).expect("pipeline run");
    assert_eq!(
        names(&resp),
        vec![
            "resolve_images",
            "select_category",
            "fetch_taxonomy",
            "acquire_user_token",
            "prepare_conditions",
            "extract_product",
            "build_listing",
            "push_inventory",
            "publish_offer",
        ]
    );
}

#[test]
fn pipeline_dry_run_stops_at_build() {
    let pipeline = Pipeline::demo();
    let mut req = sample_request();
    req.dry_run = true;
    let mut run = pipeline.start(req, None);
    let resp = drive_offline(&mut run).expect("pipeline run");
    assert_eq!(
        names(&resp),
        vec![
            "resolve_images",
            "select_category",
            "fetch_taxonomy",
            "acquire_user_token",
            "prepare_conditions",
            "extract_product",
            "build_listing",
        ]
    );
    assert!(resp.listing_id.starts_with("PREVIEW-"));
}

#[test]
fn single_image_happy_path() {
    let pipeline = Pipeline::demo();
    let mut run = pipeline.start(single_image_request(), None);
    let resp = drive_offline(&mut run).expect("pipeline run");
    assert_eq!(resp.stages.len(), 9);
    assert!(resp.listing_id.starts_with("HER-"));
    let rest = &resp.listing_id[4..];
    assert_eq!(rest.len(), 32);
    assert!(rest.chars().all(|c| c.is_ascii_digit() || ('a'..='f').contains(&c)));
    assert_eq!(run.step(), RunStep::Done);
    match &resp.stages[8].output {
        StageOutput::PublishOffer { listing_id, offer_id, create_offer, title, .. } => {
            assert_eq!(listing_id, &resp.listing_id);
            assert_eq!(offer_id, &None);
            assert_eq!(create_offer.sku, "test-sku-001");
            assert_eq!(create_offer.marketplace_id, "EBAY_US");
            assert_eq!(create_offer.format, "FIXED_PRICE");
            assert_eq!(create_offer.pricing_summary.price.value, "99.00");
            assert_eq!(create_offer.pricing_summary.price.currency, "USD");
            assert_eq!(title, "test-sku-001 listing");
        }
        other => panic!("wrong output: {:?}", other),
    }
    match &resp.stages[7].output {
        StageOutput::PushInventory { sku, location, status, media_attached, .. } => {
            assert_eq!(sku, "test-sku-001");
            assert_eq!(location, "loc-1");
            assert_eq!(*status, "UPSERTED");
            assert_eq!(*media_attached, 1);
        }
        other => panic!("wrong output: {:?}", other),
    }
}

#[test]
fn dry_run_of_a_single_image() {
    let pipeline = Pipeline::demo();
    let mut req = single_image_request();
    req.dry_run = true;
    let mut run = pipeline.start(req, None);
    let resp = drive_offline(&mut run).expect("pipeline run");
    assert_eq!(resp.stages.len(), 7);
    assert!(resp.listing_id.starts_with("PREVIEW-"));
    assert_eq!(resp.listing_id.len(), 40);
}

#[test]
fn elapsed_time_is_the_pause_of_each_stage() {
    let pipeline = Pipeline::demo();
    let mut run = pipeline.start(sample_request(), None);
    let resp = drive_offline(&mut run).expect("pipeline run");
    let elapsed: Vec<u128> = resp.stages.iter().map(|s| s.elapsed_ms).collect();
    assert_eq!(elapsed, vec![18, 22, 25, 12, 10, 40, 28, 15, 20]);
}

#[test]
fn override_injection() {
    let pipeline = Pipeline::demo();
    let mut req = sample_request();
    req.overrides = Some(PipelineOverrides {
        resolved_images: Some(vec!["https://a/1".to_string(), "https://a/2".to_string()]),
        category: Some(CategorySelectionInput {
            id: "31387".to_string(),
            tree_id: "0".to_string(),
            label: "Consumer Electronics".to_string(),
            confidence: Decimal { micros: 800_000 },
            rationale: "r".to_string(),
        }),
        product: None,
    });
    let mut run = pipeline.start(req, None);
    let resp = drive_offline(&mut run).expect("pipeline run");
    assert_eq!(resp.stages.len(), 9);
    match &resp.stages[0].output {
        StageOutput::ResolveImages { count, preview, overridden, .. } => {
            assert!(*overridden);
            assert_eq!(*count, 2);
            assert_eq!(preview, &vec!["https://a/1".to_string(), "https://a/2".to_string()]);
        }
        other => panic!("wrong output: {:?}", other),
    }
    assert_eq!(resp.stages[0].elapsed_ms, 0);
    match &resp.stages[1].output {
        StageOutput::SelectCategory { selected, overridden, .. } => {
            assert!(*overridden);
            assert_eq!(selected.label, "Consumer Electronics");
            assert_eq!(selected.id, "31387");
        }
        other => panic!("wrong output: {:?}", other),
    }
    match &resp.stages[2].output {
        StageOutput::FetchTaxonomy { aspect_count, .. } => assert_eq!(*aspect_count, 4),
        other => panic!("wrong output: {:?}", other),
    }
}

#[test]
fn empty_override_images_are_refused() {
    let pipeline = Pipeline::demo();
    let mut req = sample_request();
    req.overrides =
        Some(PipelineOverrides { resolved_images: Some(Vec::new()), category: None, product: None });
    let mut run = pipeline.start(req, None);
    let err = drive_offline(&mut run).expect_err("empty override");
    assert_eq!(err.kind(), PipelineErrorKind::InvalidInput);
    assert_eq!(err.stage(), "resolve_images");
    assert_eq!(err.detail(), "no images provided");
}

#[test]
fn too_many_override_images_are_refused() {
    let pipeline = Pipeline::demo();
    let mut req = sample_request();
    let urls: Vec<String> = (0..7).map(|i| format!("https://a/{}", i)).collect();
    req.overrides =
        Some(PipelineOverrides { resolved_images: Some(urls), category: None, product: None });
    let mut run = pipeline.start(req, None);
    let err = drive_offline(&mut run).expect_err("too many");
    assert_eq!(err.kind(), PipelineErrorKind::InvalidInput);
    assert_eq!(err.detail(), "too_many_images");
}

#[test]
fn too_many_images_end_the_run_with_400() {
    let pipeline = Pipeline::demo();
    let urls: Vec<String> = (0..21).map(|i| format!("https://example.com/{}.jpg", i)).collect();
    let req = ListingRequest { images_source: ImagesSource::Multiple(urls), ..sample_request() };
    let mut run = pipeline.start(req, None);
    let err = drive_offline(&mut run).expect_err("too many");
    assert_eq!(err.http_status(), 400);
    assert_eq!(err.stage(), "resolve_images");
    assert_eq!(err.detail(), "too_many_images");
    assert_eq!(run.step(), RunStep::Done);
}

#[test]
fn malformed_product_override_is_refused() {
    let pipeline = Pipeline::demo();
    let mut req = sample_request();
    req.overrides = Some(PipelineOverrides {
        resolved_images: None,
        category: None,
        product: Some(JsonValue::Text("nonsense".to_string())),
    });
    let mut run = pipeline.start(req, None);
    let mut now = 0;
    let mut action = run.advance(RunEvent::Begin, now);
    let err = loop {
        action = match action {
            RunAction::Pause { millis } => {
                now += millis;
                run.advance(RunEvent::Paused, now)
            }
            RunAction::DecodeProduct { value } => {
                assert!(matches!(value, JsonValue::Text(_)));
                run.advance(RunEvent::Decoded { product: None }, now)
            }
            RunAction::Finish { outcome } => break outcome.expect_err("must fail"),
            other => panic!("unexpected action: {:?}", other),
        };
    };
    assert_eq!(err.kind(), PipelineErrorKind::InvalidInput);
    assert_eq!(err.stage(), "extract_product");
    assert_eq!(err.detail(), "invalid_product_override");
}

#[test]
fn model_answer_is_unfenced_and_normalized() {
    let pipeline = Pipeline::demo();
    let mut run = pipeline.start(single_image_request(), None);
    let mut now = 0;
    let mut action = run.advance(RunEvent::Begin, now);
    let mut fenced = false;
    let mut normalized = false;
    let resp = loop {
        action = match action {
            RunAction::Pause { millis } => {
                now += millis;
                run.advance(RunEvent::Paused, now)
            }
            RunAction::ChatExtract { system, payload } => {
                assert!(system.contains("product ingestion agent"));
                match payload {
                    JsonValue::Object(members) => {
                        assert_eq!(members.len(), 3);
                        assert_eq!(members[0].key, "sku");
                        assert_eq!(members[1].key, "images");
                        assert_eq!(members[2].key, "instruction");
                    }
                    other => panic!("payload: {:?}", other),
                }
                run.advance(
                    RunEvent::ChatReply { answer: Ok("```json\n{\"name\": \" \"}\n```".to_string()) },
                    now,
                )
            }
            RunAction::ParseJson { text } => {
                assert_eq!(text, "{\"name\": \" \"}");
                fenced = true;
                let value = JsonValue::Object(vec![JsonMember {
                    key: "name".to_string(),
                    value: JsonValue::Text(" ".to_string()),
                }]);
                run.advance(RunEvent::Parsed { value: Some(value) }, now)
            }
            RunAction::DecodeProduct { value } => {
                match &value {
                    JsonValue::Object(members) => {
                        let keys: Vec<&str> = members.iter().map(|m| m.key.as_str()).collect();
                        assert_eq!(keys, vec!["name", "sku", "image", "offers"]);
                        assert!(
                            matches!(&members[0].value, JsonValue::Text(t) if t == "Untitled Product")
                        );
                    }
                    other => panic!("value: {:?}", other),
                }
                normalized = true;
                run.advance(RunEvent::Decoded { product: None }, now)
            }
            RunAction::ChatDescribe { prompt } => {
                assert!(prompt.starts_with(
                    "Generate a compelling, policy-compliant eBay listing description. Title: test-sku-001 listing. Bullet points: [\"Authentic Hermes Labs craftsmanship\", "
                ));
                assert!(prompt.ends_with("\"Automated fallback description\"]."));
                run.advance(RunEvent::ChatReply { answer: Ok("A fine thing.".to_string()) }, now)
            }
            RunAction::Finish { outcome } => break outcome.expect("run"),
            other => panic!("unexpected action: {:?}", other),
        };
    };
    assert!(fenced && normalized);
    assert_eq!(resp.stages.len(), 9);
    match &resp.stages[8].output {
        StageOutput::PublishOffer { create_offer, .. } => {
            assert_eq!(create_offer.listing_description, "A fine thing.");
        }
        other => panic!("wrong output: {:?}", other),
    }
}

#[test]
fn event_out_of_turn_ends_the_run() {
    let pipeline = Pipeline::demo();
    let mut run = pipeline.start(sample_request(), None);
    let action = run.advance(RunEvent::Paused, 0);
    match action {
        RunAction::Finish { outcome } => {
            let err = outcome.expect_err("out of turn");
            assert_eq!(err.kind(), PipelineErrorKind::Internal);
            assert_eq!(err.stage(), "pipeline");
        }
        other => panic!("unexpected action: {:?}", other),
    }
    assert_eq!(run.step(), RunStep::Done);
    assert!(matches!(run.advance(RunEvent::Begin, 1), RunAction::Finish { outcome: Err(_) }));
}

#[test]
fn missing_policy_is_refused_before_the_listing_is_built() {
    let pipeline = Pipeline::demo();
    let mut req = sample_request();
    req.payment_policy_id = "  ".to_string();
    let mut run = pipeline.start(req, None);
    let err = drive_offline(&mut run).expect_err("missing policy");
    assert_eq!(err.kind(), PipelineErrorKind::InvalidInput);
    assert_eq!(err.stage(), "ebay_config");
    assert_eq!(err.detail(), "missing_payment_policy_id");
}

#[test]
fn bad_organization_id_is_a_failure_of_the_service() {
    let mut pipeline = Pipeline::demo();
    pipeline.org_store_configured = true;
    let auth = AuthContext { org_id: "demo-org".to_string(), api_key_id: "key-01".to_string() };
    let mut run = pipeline.start(sample_request(), Some(auth));
    match run.advance(RunEvent::Begin, 0) {
        RunAction::Finish { outcome } => {
            let err = outcome.expect_err("bad org id");
            assert_eq!(err.kind(), PipelineErrorKind::Internal);
            assert_eq!(err.stage(), "supabase");
            assert!(!err.detail().is_empty());
        }
        other => panic!("unexpected action: {:?}", other),
    }
}

#[test]
fn organization_is_looked_up_by_its_identifier() {
    let mut pipeline = Pipeline::demo();
    pipeline.org_store_configured = true;
    let auth = AuthContext {
        org_id: "00000000-0000-0000-0000-00000000002a".to_string(),
        api_key_id: "key-01".to_string(),
    };
    let mut run = pipeline.start(sample_request(), Some(auth));
    match run.advance(RunEvent::Begin, 0) {
        RunAction::LookupOrgConfig { org_id } => assert_eq!(org_id, 42),
        other => panic!("unexpected action: {:?}", other),
    }
    assert_eq!(run.step(), RunStep::OrgLookup);
    let next = run.advance(RunEvent::OrgConfig { found: Err("down".to_string()) }, 0);
    assert!(matches!(next, RunAction::Pause { millis: 18 }));
    assert_eq!(run.step(), RunStep::ResolveImages);
}

#[test]
fn network_without_refresh_token_fails_at_ebay_auth() {
    let mut pipeline = Pipeline::demo();
    pipeline.ebay_network_enabled = true;
    let mut run = pipeline.start(sample_request(), None);
    let err = drive_offline(&mut run).expect_err("no refresh token");
    assert_eq!(err.kind(), PipelineErrorKind::Internal);
    assert_eq!(err.stage(), "ebay_auth");
    assert_eq!(err.detail(), "EBAY_REFRESH_TOKEN is not set");
}

/// Runs a pipeline against a marketplace whose offer exists already.
fn drive_conflict(run: &mut PipelineRun) -> (Result<ListingResponse, PipelineError>, Vec<String>) {
    let mut now: u64 = 0;
    let mut calls: Vec<String> = Vec::new();
    let mut action = run.advance(RunEvent::Begin, now);
    loop {
        action = match action {
            RunAction::Pause { millis } => {
                now += millis;
                run.advance(RunEvent::Paused, now)
            }
            RunAction::ChatExtract { .. } | RunAction::ChatDescribe { .. } => {
                run.advance(RunEvent::ChatReply { answer: Err("offline".to_string()) }, now)
            }
            RunAction::FetchEbayToken { refresh_token, scopes } => {
                assert_eq!(refresh_token, "refresh-1");
                assert_eq!(scopes.len(), 2);
                run.advance(RunEvent::EbayToken { token: Ok("access-1".to_string()) }, now)
            }
            RunAction::UpsertItem { sku } => {
                assert_eq!(sku, "test-sku-001");
                assert!(run.inventory_request().is_some());
                assert_eq!(run.access_token().map(|t| t.as_str()), Some("access-1"));
                run.advance(RunEvent::ItemUpserted { done: Ok(()) }, now)
            }
            RunAction::Offer { call } => {
                let reply = match call {
                    OfferCall::CreateOffer => {
                        calls.push("create".to_string());
                        assert!(run.create_offer_request().is_some());
                        OfferReply::Created { outcome: Err(EbayOfferError::EntityExists) }
                    }
                    OfferCall::GetOffersBySku { sku } => {
                        calls.push(format!("lookup {}", sku));
                        OfferReply::Found {
                            outcome: Ok(vec![OfferSummary {
                                offerId: Some("O1".to_string()),
                                marketplaceId: Some("EBAY_US".to_string()),
                            }]),
                        }
                    }
                    OfferCall::UpdateOffer { offer_id } => {
                        calls.push(format!("update {}", offer_id));
                        assert!(run.update_offer_request().is_some());
                        OfferReply::Updated { outcome: Ok(()) }
                    }
                    OfferCall::PublishOffer { offer_id } => {
                        calls.push(format!("publish {}", offer_id));
                        OfferReply::Published { outcome: Ok("L1".to_string()) }
                    }
                    OfferCall::WithdrawOffer { offer_id } => {
                        calls.push(format!("withdraw {}", offer_id));
                        OfferReply::Withdrawn { outcome: Ok(()) }
                    }
                };
                run.advance(RunEvent::Offer { reply }, now)
            }
            RunAction::Finish { outcome } => return (outcome, calls),
            other => panic!("unexpected action: {:?}", other),
        };
    }
}

#[test]
fn offer_conflict_is_reconciled_within_a_run() {
    let mut pipeline = Pipeline::demo();
    pipeline.ebay_network_enabled = true;
    pipeline.ebay_refresh_token = Some("refresh-1".to_string());
    let mut run = pipeline.start(single_image_request(), None);
    let (outcome, calls) = drive_conflict(&mut run);
    let resp = outcome.expect("run");
    assert_eq!(resp.listing_id, "L1");
    assert_eq!(calls, vec!["create", "lookup test-sku-001", "update O1", "publish O1"]);
    assert_eq!(resp.stages.len(), 9);
    match &resp.stages[8].output {
        StageOutput::PublishOffer { listing_id, offer_id, .. } => {
            assert_eq!(listing_id, "L1");
            assert_eq!(offer_id.as_deref(), Some("O1"));
        }
        other => panic!("wrong output: {:?}", other),
    }
}

#[test]
fn stage_endpoints_resolve_and_select() {
    let pipeline = Pipeline::demo();
    let req = sample_request();
    let images = pipeline.stage_resolve_images(&req).expect("resolve");
    assert_eq!(images, vec!["https://example.com/a.jpg", "https://example.com/b.jpg"]);
    let selection = pipeline.stage_select_category(&req, &images).expect("select");
    assert_eq!(selection.id, "293");
    assert_eq!(selection.confidence, Decimal { micros: 940_000 });
}

#[test]
fn stage_build_listing_offline_description() {
    let pipeline = Pipeline::demo();
    let req = ListingRequest {
        images_source: ImagesSource::Multiple(vec!["https://example.com/a.jpg".to_string()]),
        ..sample_request()
    };
    let mut run = pipeline.start(req, None);
    let resp = drive_offline(&mut run).expect("build_listing");
    match &resp.stages[6].output {
        StageOutput::BuildListing { title, price, currency, condition, aspect_count } => {
            assert!(!title.trim().is_empty());
            assert!(price.micros > 0);
            assert_eq!(*price, Decimal { micros: 99_000_000 });
            assert_eq!(currency, "USD");
            assert_eq!(condition, "NEW");
            assert_eq!(*aspect_count, 2);
        }
        other => panic!("wrong output: {:?}", other),
    }
    match &resp.stages[8].output {
        StageOutput::PublishOffer { create_offer, .. } => {
            assert!(!create_offer.listing_description.trim().is_empty());
            assert!(create_offer.listing_description.starts_with("test-sku-001 listing\n\nHighlights:\n- Authentic Hermes Labs craftsmanship\n"));
            assert_eq!(create_offer.aspects.get("Brand"), Some(&vec!["Hermes Labs".to_string()]));
            assert_eq!(create_offer.aspects.get("Color"), Some(&vec!["Black".to_string()]));
            let pack = create_offer.package_weight_and_size.expect("package");
            assert_eq!(pack.package_weight.value, Decimal { micros: 3_000_000 });
            assert_eq!(pack.package_size.length, Decimal { micros: 12_000_000 });
        }
        other => panic!("wrong output: {:?}", other),
    }
}

#[test]
fn failures_are_shown_to_clients_by_stage() {
    let e = PipelineError::invalid_input("jobs", "not_found");
    let api = e.to_api_error();
    assert_eq!(api.error, "jobs");
    assert_eq!(api.detail.as_deref(), Some("not_found"));
    assert_eq!(e.http_status(), 400);
}

/// What is stored for an organization that has a warehouse.
fn stored_config() -> EbayOrgConfig {
    EbayOrgConfig {
        org_id: 42,
        merchant_location_key: "stored-loc".to_string(),
        fulfillment_policy_id: "stored-fulfill".to_string(),
        payment_policy_id: "stored-payment".to_string(),
        return_policy_id: "stored-return".to_string(),
        marketplace: Some(" ebay_de ".to_string()),
        location_name: Some(" Main warehouse ".to_string()),
        address_line1: Some("1 Dock Road".to_string()),
        address_line2: Some("   ".to_string()),
        city: Some("Hamburg".to_string()),
        state_or_province: Some("HH".to_string()),
        postal_code: Some("20457".to_string()),
        country: Some("DE".to_string()),
        latitude: Some("53.54".to_string()),
        longitude: None,
    }
}

/// Runs a pipeline up to the first action that is neither a pause nor a
/// chat, with a model that fails and what is stored for the organization.
fn drive_to_marketplace(run: &mut PipelineRun) -> RunAction {
    let mut now: u64 = 0;
    let mut action = run.advance(RunEvent::Begin, now);
    loop {
        action = match action {
            RunAction::LookupOrgConfig { org_id } => {
                assert_eq!(org_id, 42);
                run.advance(RunEvent::OrgConfig { found: Ok(Some(stored_config())) }, now)
            }
            RunAction::Pause { millis } => {
                now += millis;
                run.advance(RunEvent::Paused, now)
            }
            RunAction::ChatExtract { .. } | RunAction::ChatDescribe { .. } => {
                run.advance(RunEvent::ChatReply { answer: Err("offline".to_string()) }, now)
            }
            RunAction::FetchEbayToken { .. } => {
                run.advance(RunEvent::EbayToken { token: Ok("access-1".to_string()) }, now)
            }
            other => return other,
        };
    }
}

fn organization_pipeline() -> (Pipeline, AuthContext) {
    let mut pipeline = Pipeline::demo();
    pipeline.org_store_configured = true;
    pipeline.ebay_network_enabled = true;
    pipeline.ebay_refresh_token = Some("refresh-1".to_string());
    let auth = AuthContext {
        org_id: "00000000-0000-0000-0000-00000000002a".to_string(),
        api_key_id: "key-01".to_string(),
    };
    (pipeline, auth)
}

#[test]
fn location_is_upserted_before_the_item_and_may_fail() {
    let (pipeline, auth) = organization_pipeline();
    let mut run = pipeline.start(single_image_request(), Some(auth));
    match drive_to_marketplace(&mut run) {
        RunAction::UpsertLocation { merchant_location_key, payload } => {
            assert_eq!(merchant_location_key, "stored-loc");
            assert_eq!(payload.merchant_location_status, "ENABLED");
            assert_eq!(payload.location_types, vec!["WAREHOUSE"]);
            assert_eq!(payload.name, "Main warehouse");
            assert_eq!(payload.location.address.address_line1, "1 Dock Road");
            assert_eq!(payload.location.address.address_line2, None);
            assert_eq!(payload.location.address.city, "Hamburg");
            assert_eq!(payload.location.address.postal_code, "20457");
            let geo = payload.location.geo_coordinates.expect("coordinates");
            assert_eq!(geo.latitude.as_deref(), Some("53.54"));
            assert_eq!(geo.longitude, None);
        }
        other => panic!("unexpected action: {:?}", other),
    }
    assert_eq!(run.step(), RunStep::PushLocation);
    match run.advance(RunEvent::LocationUpserted { ok: false }, 500) {
        RunAction::UpsertItem { sku } => assert_eq!(sku, "test-sku-001"),
        other => panic!("unexpected action: {:?}", other),
    }
    assert_eq!(run.step(), RunStep::PushItem);
    let item = run.inventory_request().expect("inventory item");
    assert_eq!(item.availability.ship_to_location_availability.quantity, 1);
    assert_eq!(item.product.image_urls, vec!["https://example.com/a.jpg".to_string()]);
    match run.advance(RunEvent::ItemUpserted { done: Ok(()) }, 600) {
        RunAction::Pause { millis } => assert_eq!(millis, 20),
        other => panic!("unexpected action: {:?}", other),
    }
    assert_eq!(run.stages().len(), 8);
    assert_eq!(run.stages()[7].name, "push_inventory");
    match run.advance(RunEvent::Paused, 620) {
        RunAction::Offer { call: OfferCall::CreateOffer } => {}
        other => panic!("unexpected action: {:?}", other),
    }
    let create = run.create_offer_request().expect("create request");
    assert_eq!(create.marketplace_id, "EBAY_DE");
    assert_eq!(create.merchant_location_key, "stored-loc");
    assert_eq!(create.listing_policies.fulfillment_policy_id, "stored-fulfill");
    assert_eq!(create.pricing_summary.price.value, "99.00");
    assert_eq!(create.pricing_summary.price.currency, "USD");
}

#[test]
fn failed_item_upsert_ends_the_run() {
    let (pipeline, auth) = organization_pipeline();
    let mut run = pipeline.start(single_image_request(), Some(auth));
    let action = drive_to_marketplace(&mut run);
    assert!(matches!(action, RunAction::UpsertLocation { .. }));
    let action = run.advance(RunEvent::LocationUpserted { ok: true }, 0);
    assert!(matches!(action, RunAction::UpsertItem { .. }));
    match run.advance(RunEvent::ItemUpserted { done: Err("HTTP 500".to_string()) }, 0) {
        RunAction::Finish { outcome } => {
            let err = outcome.expect_err("upsert failed");
            assert_eq!(err.kind(), PipelineErrorKind::Internal);
            assert_eq!(err.stage(), "push_inventory");
            assert_eq!(err.detail(), "HTTP 500");
        }
        other => panic!("unexpected action: {:?}", other),
    }
    assert_eq!(run.step(), RunStep::Done);
}

#[test]
fn location_without_an_address_is_not_upserted() {
    let (pipeline, auth) = organization_pipeline();
    let mut run = pipeline.start(single_image_request(), Some(auth));
    let mut now: u64 = 0;
    let mut action = run.advance(RunEvent::Begin, now);
    let reached = loop {
        action = match action {
            RunAction::LookupOrgConfig { .. } => {
                let stored = EbayOrgConfig { address_line1: Some("  ".to_string()), ..stored_config() };
                run.advance(RunEvent::OrgConfig { found: Ok(Some(stored)) }, now)
            }
            RunAction::Pause { millis } => {
                now += millis;
                run.advance(RunEvent::Paused, now)
            }
            RunAction::ChatExtract { .. } | RunAction::ChatDescribe { .. } => {
                run.advance(RunEvent::ChatReply { answer: Err("offline".to_string()) }, now)
            }
            RunAction::FetchEbayToken { .. } => {
                run.advance(RunEvent::EbayToken { token: Ok("access-1".to_string()) }, now)
            }
            other => break other,
        };
    };
    assert!(matches!(reached, RunAction::UpsertItem { .. }));
    assert_eq!(run.step(), RunStep::PushItem);
}

#[test]
fn location_without_a_city_is_not_upserted() {
    let (pipeline, auth) = organization_pipeline();
    let mut run = pipeline.start(single_image_request(), Some(auth));
    let mut now: u64 = 0;
    let mut action = run.advance(RunEvent::Begin, now);
    let reached = loop {
        action = match action {
            RunAction::LookupOrgConfig { .. } => {
                let stored = EbayOrgConfig { city: Some(" ".to_string()), ..stored_config() };
                run.advance(RunEvent::OrgConfig { found: Ok(Some(stored)) }, now)
            }
            RunAction::Pause { millis } => {
                now += millis;
                run.advance(RunEvent::Paused, now)
            }
            RunAction::ChatExtract { .. } | RunAction::ChatDescribe { .. } => {
                run.advance(RunEvent::ChatReply { answer: Err("offline".to_string()) }, now)
            }
            RunAction::FetchEbayToken { .. } => {
                run.advance(RunEvent::EbayToken { token: Ok("access-1".to_string()) }, now)
            }
            other => break other,
        };
    };
    assert!(matches!(reached, RunAction::UpsertItem { .. }));
    assert_eq!(run.step(), RunStep::PushItem);
}
