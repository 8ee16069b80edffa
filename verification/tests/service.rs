use hermes_api::config::{
    body_limit_from, connect_timeout_from, flag_from, http_timeout_from, idempotency_ttl_from,
    max_images_from, parse_unsigned, port_from, queue_capacity_from,
};
use hermes_api::decimal::Decimal;
use hermes_api::ebay::auth::{app_token_form, basic_auth_header, refresh_token_form, EbayAuthError};
use hermes_api::ebay::config::{api_root, oauth_token_url};
use hermes_api::ebay::inventory::{
    check_inventory_status, inventory_item_url, inventory_location_url, EbayInventoryError,
};
use hermes_api::ebay::offers::Price;
use hermes_api::ebay::taxonomy::{category_aspects_url, EbayTaxonomyError};
use hermes_api::hsuf::ingest::fallback_product;
use hermes_api::idempotency::{cache_plan, CachePlan, CacheStep, ResponseCache};
use hermes_api::jobs::{
    job_id_text, job_info, job_not_found, parse_job_id, queue_send_failed, JobBoard, JobEvent, JobState,
};
use hermes_api::llm::{
    chat_request, check_chat_status, read_response, LlmConfig, LlmError, LlmMessage, LlmUsage,
    ResponseContent,
};
use hermes_api::models::{
    ImagesSource, ListingRequest, ListingResponse, MarketplaceId, StageReport,
};
use hermes_api::pipeline::listing::{
    bullet_points_from_product, choose_description, description_prompt, fallback_listing_id,
    final_listing_id, location_from_config, location_is_complete, offer_result,
    preview_listing_id, resolve_ebay_config, select_value, templated_description,
    LocationMetadata,
};
use hermes_api::pipeline::outputs::StageOutput;
use hermes_api::pipeline::{PipelineError, PipelineErrorKind};
use hermes_api::supabase::{
    bearer, check_store_status, org_config_url, store_root, EbayOrgConfig, SupabaseError,
};

fn sample_request() -> ListingRequest {
    ListingRequest {
        images_source: ImagesSource::Multiple(vec!["https://example.com/a.jpg".to_string()]),
        sku: "test-sku-001".to_string(),
        merchant_location_key: "loc-1".to_string(),
        fulfillment_policy_id: "fulfill-123".to_string(),
        payment_policy_id: "payment-123".to_string(),
        return_policy_id: "return-123".to_string(),
        marketplace: MarketplaceId::EbayUs,
        llm_provider: None,
        llm_listing_model: None,
        llm_category_model: None,
        use_signed_urls: false,
        overrides: None,
        dry_run: false,
    }
}

fn org_config() -> EbayOrgConfig {
    EbayOrgConfig {
        org_id: 42,
        merchant_location_key: "stored-loc".to_string(),
        fulfillment_policy_id: "f".to_string(),
        payment_policy_id: "p".to_string(),
        return_policy_id: "r".to_string(),
        marketplace: Some(" ebay_uk ".to_string()),
        location_name: Some(" Main ".to_string()),
        address_line1: Some(" 1 Road ".to_string()),
        address_line2: Some("  ".to_string()),
        city: Some("Town".to_string()),
        state_or_province: Some("ST".to_string()),
        postal_code: Some("123".to_string()),
        country: Some("US".to_string()),
        latitude: Some("1.5".to_string()),
        longitude: None,
    }
}

#[test]
fn marketplace_codes_and_names() {
    assert_eq!(MarketplaceId::EbayUs.ebay_code(), "EBAY_US");
    assert_eq!(MarketplaceId::EbayUk.ebay_code(), "EBAY_GB");
    assert_eq!(MarketplaceId::EbayDe.ebay_code(), "EBAY_DE");
    assert_eq!(MarketplaceId::from_str(" ebay_us "), Some(MarketplaceId::EbayUs));
    assert_eq!(MarketplaceId::from_str("EBAY_GB"), Some(MarketplaceId::EbayUk));
    assert_eq!(MarketplaceId::from_str("Ebay_Uk"), Some(MarketplaceId::EbayUk));
    assert_eq!(MarketplaceId::from_str("EBAY_DE"), Some(MarketplaceId::EbayDe));
    assert_eq!(MarketplaceId::from_str("EBAY_FR"), None);
    assert_eq!(MarketplaceId::default(), MarketplaceId::EbayUs);
    assert_eq!(MarketplaceId::EbayDe.marketplace_route(), "https://api.ebay.de/sell");
}

#[test]
fn errors_name_stage_kind_and_detail() {
    let e = PipelineError::invalid_input("resolve_images", "too_many_images");
    assert_eq!(e.stage(), "resolve_images");
    assert_eq!(e.kind(), PipelineErrorKind::InvalidInput);
    assert_eq!(e.detail(), "too_many_images");
    assert_eq!(e.message(), "stage `resolve_images` failed: too_many_images");
    assert_eq!(e.http_status(), 400);
    let i = PipelineError::internal("publish_offer", "boom");
    assert_eq!(i.kind(), PipelineErrorKind::Internal);
    assert_eq!(i.http_status(), 500);
}

#[test]
fn reports_carry_name_time_and_output() {
    let report = StageReport::new(
        "prepare_conditions",
        12,
        StageOutput::PrepareConditions { allowed: vec!["USED".to_string()], default_condition: "USED".to_string() },
    );
    assert_eq!(report.name, "prepare_conditions");
    assert_eq!(report.elapsed_ms, 12);
    assert!(report.timestamp > 1_600_000_000_000);
    assert!(matches!(report.output, StageOutput::PrepareConditions { .. }));
}

#[test]
fn seller_fields_come_from_the_store_or_the_request() {
    let req = sample_request();
    let plain = resolve_ebay_config(&req, None).expect("config");
    assert_eq!(plain.merchant_location_key, "loc-1");
    assert_eq!(plain.policies.fulfillment_policy_id, "fulfill-123");
    assert_eq!(plain.marketplace, MarketplaceId::EbayUs);
    assert!(plain.location.is_none());
    let stored = org_config();
    let cfg = resolve_ebay_config(&req, Some(&stored)).expect("config");
    assert_eq!(cfg.merchant_location_key, "stored-loc");
    assert_eq!(cfg.policies.payment_policy_id, "p");
    assert_eq!(cfg.policies.return_policy_id, "r");
    assert_eq!(cfg.marketplace, MarketplaceId::EbayUk);
    let loc = cfg.location.expect("location");
    assert_eq!(loc.name, "Main");
    assert_eq!(loc.address_line1, "1 Road");
    assert_eq!(loc.address_line2, None);
    assert_eq!(loc.latitude.as_deref(), Some("1.5"));
    assert_eq!(loc.longitude, None);
    let mut blank = org_config();
    blank.return_policy_id = " ".to_string();
    let err = resolve_ebay_config(&req, Some(&blank)).expect_err("blank");
    assert_eq!(err.kind(), PipelineErrorKind::InvalidInput);
    assert_eq!(err.stage(), "ebay_config");
    assert_eq!(err.detail(), "missing_return_policy_id");
    let mut partial = org_config();
    partial.city = None;
    assert!(location_from_config(&partial).is_none());
    assert_eq!(select_value(None, "x", "f").expect("x"), "x");
    assert_eq!(select_value(Some("y"), "x", "f").expect("y"), "y");
    assert_eq!(select_value(Some(""), "x", "f").expect_err("blank").detail(), "missing_f");
}

#[test]
fn bullets_and_descriptions() {
    let mut p = fallback_product("S1", &Vec::new());
    p.description = Some("First line\nsecond".to_string());
    let bullets = bullet_points_from_product(&p);
    assert_eq!(
        bullets,
        vec![
            "Authentic Hermes Labs craftsmanship",
            "Distinctive Black finish",
            "Premium Mixed materials materials",
            "First line",
        ]
    );
    p.brand = None;
    p.color = None;
    p.material = None;
    p.description = None;
    assert_eq!(bullet_points_from_product(&p), vec!["LLM-enriched listing details"]);
    p.description = Some(String::new());
    assert_eq!(bullet_points_from_product(&p), vec![""]);
    let two = vec!["a \"b\"".to_string(), "c".to_string()];
    assert_eq!(
        description_prompt("T", &two),
        "Generate a compelling, policy-compliant eBay listing description. Title: T. Bullet points: [\"a \\\"b\\\"\", \"c\"]."
    );
    assert_eq!(
        templated_description("T", &two),
        "T\n\nHighlights:\n- a \"b\"\n- c\n\nAuto-generated demo description. Details may be approximations."
    );
    assert_eq!(choose_description(Ok("model".to_string()), "T", &two), "model");
    assert_eq!(
        choose_description(Err("down".to_string()), "T", &Vec::new()),
        "T\n\nHighlights:\n\nAuto-generated demo description. Details may be approximations."
    );
}

#[test]
fn listing_ids_and_offer_results() {
    let a = fallback_listing_id();
    let b = fallback_listing_id();
    assert!(a.starts_with("HER-"));
    assert_eq!(a.len(), 36);
    assert_ne!(a, b);
    let p = preview_listing_id();
    assert!(p.starts_with("PREVIEW-"));
    assert_eq!(p.len(), 40);
    assert_eq!(final_listing_id("L1".to_string(), "HER-x".to_string()), "L1");
    assert_eq!(final_listing_id(String::new(), "HER-x".to_string()), "HER-x");
    let r = offer_result("HER-0123456789abcdef", MarketplaceId::EbayUk);
    assert_eq!(r.listing_id, "HER-0123456789abcdef");
    assert_eq!(r.route, "https://api.ebay.co.uk/sell/offers");
    assert_eq!(r.preview_url, "https://sandbox.ebay.com/itm/HER-01234567");
    assert_eq!(offer_result("L1", MarketplaceId::EbayUs).preview_url, "https://sandbox.ebay.com/itm/L1");
    assert_eq!(Price::from_amount(Decimal { micros: 49_990_000 }, "USD").value, "49.99");
}

#[test]
fn identifiers_are_made_read_and_written() {
    assert_eq!(parse_job_id("00000000-0000-0000-0000-00000000002a").ok(), Some(42));
    assert_eq!(parse_job_id("0000000000000000000000000000002A").ok(), Some(42));
    let err = parse_job_id("not-an-id").expect_err("no id");
    assert_eq!(err.kind(), PipelineErrorKind::InvalidInput);
    assert_eq!((err.stage(), err.detail()), ("jobs", "invalid_job_id"));
    assert_eq!(job_id_text(255), "00000000-0000-0000-0000-0000000000ff");
    assert_eq!(
        job_id_text(0x0123456789abcdef_fedcba9876543210),
        "01234567-89ab-cdef-fedc-ba9876543210"
    );
    assert_eq!(parse_job_id(&job_id_text(u128::MAX)).ok(), Some(u128::MAX));
    let missing = job_not_found();
    assert_eq!((missing.stage(), missing.detail(), missing.http_status()), ("jobs", "not_found", 400));
    let mut board = JobBoard::new();
    let a = board.enqueue_new();
    let b = board.enqueue_new();
    assert_ne!(a, b);
    assert!(matches!(board.get(a), Some(JobState::Queued)));
    assert!(matches!(board.get(b), Some(JobState::Queued)));
}

#[test]
fn jobs_never_go_back() {
    let resp = ListingResponse { listing_id: "L1".to_string(), stages: Vec::new() };
    let s = JobState::Queued;
    assert_eq!(s.name(), "queued");
    let s = s.after(JobEvent::Finished { outcome: Ok(resp) });
    assert!(matches!(s, JobState::Queued));
    let s = s.after(JobEvent::Started);
    assert_eq!(s.name(), "running");
    let s = s.after(JobEvent::Started);
    assert!(matches!(s, JobState::Running));
    let s = s.after(JobEvent::Finished {
        outcome: Err(PipelineError::internal("publish_offer", "boom")),
    });
    match &s {
        JobState::Failed { error, stage } => {
            assert_eq!(error, "boom");
            assert_eq!(stage.as_deref(), Some("publish_offer"));
        }
        other => panic!("unexpected: {:?}", other),
    }
    assert_eq!(s.name(), "failed");
    let s = s.after(JobEvent::Started);
    assert!(matches!(s, JobState::Failed { .. }));
}

#[test]
fn board_tracks_each_job() {
    let mut board = JobBoard::new();
    assert!(board.get(7).is_none());
    assert!(!board.record(7, JobEvent::Started));
    board.enqueue(7);
    board.enqueue(8);
    assert!(matches!(board.get(7), Some(JobState::Queued)));
    assert!(board.record(7, JobEvent::Started));
    assert!(matches!(board.get(7), Some(JobState::Running)));
    assert!(matches!(board.get(8), Some(JobState::Queued)));
    let resp = ListingResponse { listing_id: "L1".to_string(), stages: Vec::new() };
    assert!(board.record(7, JobEvent::Finished { outcome: Ok(resp) }));
    match board.get(7) {
        Some(JobState::Completed { result }) => assert_eq!(result.listing_id, "L1"),
        other => panic!("unexpected: {:?}", other),
    }
    assert!(board.record(7, JobEvent::Started));
    assert_eq!(board.get(7).map(|s| s.name()), Some("completed"));
    let info = job_info(255, JobState::Running);
    assert_eq!(info.id, "00000000-0000-0000-0000-0000000000ff");
    let e = queue_send_failed();
    assert_eq!(e.error, "queue_send_failed");
    assert_eq!(e.detail.as_deref(), Some("worker not available"));
}

#[test]
fn same_key_replays_the_same_answer() {
    let mut cache = ResponseCache::new();
    assert!(matches!(cache.begin("k1"), CacheStep::Run));
    cache.insert("k1".to_string(), "{\"listing_id\":\"L1\"}".to_string());
    cache.insert("k2".to_string(), "{\"listing_id\":\"L2\"}".to_string());
    match cache.begin("k1") {
        CacheStep::Replay { body } => assert_eq!(body, "{\"listing_id\":\"L1\"}"),
        other => panic!("unexpected: {:?}", other),
    }
    match cache.begin("k1") {
        CacheStep::Replay { body } => assert_eq!(body, "{\"listing_id\":\"L1\"}"),
        other => panic!("unexpected: {:?}", other),
    }
    assert_eq!(cache.get("k2").as_deref(), Some("{\"listing_id\":\"L2\"}"));
    assert_eq!(cache.get("k3"), None);
    cache.insert("k1".to_string(), "new".to_string());
    assert_eq!(cache.get("k1").as_deref(), Some("new"));
}

#[test]
fn idempotency_key_decides_the_plan() {
    assert!(matches!(cache_plan(None, true), CachePlan::Bypass));
    assert!(matches!(cache_plan(Some("   "), false), CachePlan::Bypass));
    assert!(matches!(cache_plan(Some(" k "), true), CachePlan::Remote { key } if key == "k"));
    assert!(matches!(cache_plan(Some("k"), false), CachePlan::Local { key } if key == "k"));
}

#[test]
fn settings_fall_back_to_their_defaults() {
    assert_eq!(parse_unsigned("0"), Some(0));
    assert_eq!(parse_unsigned("+42"), Some(42));
    assert_eq!(parse_unsigned("18446744073709551615"), Some(u64::MAX));
    assert_eq!(parse_unsigned("18446744073709551616"), None);
    assert_eq!(parse_unsigned(""), None);
    assert_eq!(parse_unsigned("+"), None);
    assert_eq!(parse_unsigned("-1"), None);
    assert_eq!(parse_unsigned("1a"), None);
    assert_eq!(parse_unsigned(" 1"), None);
    assert_eq!(max_images_from(None), 6);
    assert_eq!(max_images_from(Some("0")), 6);
    assert_eq!(max_images_from(Some("12")), 12);
    assert_eq!(queue_capacity_from(Some("x")), 64);
    assert_eq!(queue_capacity_from(Some("8")), 8);
    assert_eq!(body_limit_from(None), 262144);
    assert_eq!(idempotency_ttl_from(None), 3600);
    assert_eq!(idempotency_ttl_from(Some("0")), 0);
    assert_eq!(http_timeout_from(None), 15);
    assert_eq!(connect_timeout_from(Some("2")), 2);
    assert_eq!(port_from(None), 8000);
    assert_eq!(port_from(Some("9000")), 9000);
    assert_eq!(port_from(Some("70000")), 8000);
    assert!(flag_from(Some(" TRUE ")));
    assert!(flag_from(Some("1")));
    assert!(flag_from(Some("yes")));
    assert!(flag_from(Some("On")));
    assert!(!flag_from(Some("no")));
    assert!(!flag_from(None));
}

#[test]
fn marketplace_addresses_and_credentials() {
    assert_eq!(api_root("prod"), "https://api.ebay.com");
    assert_eq!(api_root("PROD"), "https://api.ebay.com");
    assert_eq!(api_root("SANDBOX"), "https://api.sandbox.ebay.com");
    assert_eq!(api_root(""), "https://api.sandbox.ebay.com");
    assert_eq!(oauth_token_url("https://r"), "https://r/identity/v1/oauth2/token");
    assert_eq!(
        inventory_item_url("https://r", "a b/c~d_e-f.g\u{e9}"),
        "https://r/sell/inventory/v1/inventory_item/a%20b%2Fc~d_e-f.g%C3%A9"
    );
    assert_eq!(inventory_location_url("https://r", "loc 1"), "https://r/sell/inventory/v1/location/loc%201");
    assert_eq!(
        category_aspects_url("https://r", "0"),
        "https://r/commerce/taxonomy/v1/category_tree/0/get_item_aspects_for_category"
    );
    assert_eq!(basic_auth_header("id", "secret").expect("header"), "aWQ6c2VjcmV0");
    assert!(matches!(basic_auth_header("", "secret"), Err(EbayAuthError::MissingCredentials)));
    assert!(matches!(basic_auth_header("id", ""), Err(EbayAuthError::MissingCredentials)));
    assert_eq!(EbayAuthError::MissingCredentials.message(), "missing ebay app credentials in env");
    assert_eq!(EbayAuthError::Request("x".to_string()).message(), "oauth request failed: x");
    let scopes = vec!["a".to_string(), "b".to_string()];
    let form = refresh_token_form("r1", &scopes);
    assert_eq!(form.len(), 3);
    assert_eq!((form[0].name, form[0].value.as_str()), ("grant_type", "refresh_token"));
    assert_eq!((form[1].name, form[1].value.as_str()), ("refresh_token", "r1"));
    assert_eq!((form[2].name, form[2].value.as_str()), ("scope", "a b"));
    let form = app_token_form(&scopes);
    assert_eq!((form[0].name, form[0].value.as_str()), ("grant_type", "client_credentials"));
    assert_eq!(form[1].value, "a b");
    assert!(check_inventory_status(204, "204 No Content").is_ok());
    match check_inventory_status(404, "404 Not Found") {
        Err(EbayInventoryError::Request(m)) => assert_eq!(m, "HTTP 404 Not Found"),
        other => panic!("unexpected: {:?}", other),
    }
    assert_eq!(EbayInventoryError::Request("x".to_string()).message(), "request failed: x");
    assert_eq!(EbayTaxonomyError::Request("x".to_string()).message(), "taxonomy request failed: x");
}

#[test]
fn chat_goes_to_the_gateway() {
    let config = LlmConfig {
        gateway_url: " http://localhost:3000 ".to_string(),
        api_key: Some("k".to_string()),
        function_name: None,
        model: Some("m".to_string()),
    };
    let messages = vec![LlmMessage { role: "user".to_string(), content: "hi".to_string() }];
    let req = chat_request(&config, messages).expect("request");
    assert_eq!(req.url, "http://localhost:3000/inference");
    assert_eq!(req.function_name, "hsuf_enrichment");
    assert_eq!(req.model_name.as_deref(), Some("m"));
    assert_eq!(req.api_key.as_deref(), Some("k"));
    assert_eq!(req.messages.len(), 1);
    let missing = LlmConfig { gateway_url: "  ".to_string(), api_key: None, function_name: None, model: None };
    assert!(matches!(chat_request(&missing, Vec::new()), Err(LlmError::MissingGateway)));
    assert_eq!(LlmError::MissingGateway.message(), "missing gateway url");
    match check_chat_status(502, "502 Bad Gateway") {
        Err(e) => assert_eq!(e.message(), "http error: HTTP 502 Bad Gateway"),
        Ok(()) => panic!("must fail"),
    }
    assert!(check_chat_status(200, "200 OK").is_ok());
    let parts = vec![
        ResponseContent { kind: "thought".to_string(), text: "hm".to_string() },
        ResponseContent { kind: "text".to_string(), text: "first".to_string() },
        ResponseContent { kind: "text".to_string(), text: "second".to_string() },
    ];
    let usage = Some(LlmUsage { input_tokens: Some(1), output_tokens: None });
    let resp = read_response(parts, usage).expect("text");
    assert_eq!(resp.text, "first");
    assert_eq!(resp.usage.and_then(|u| u.input_tokens), Some(1));
    match read_response(Vec::new(), None) {
        Err(e) => assert_eq!(e.message(), "invalid response: missing text"),
        Ok(_) => panic!("must fail"),
    }
}

#[test]
fn tenant_store_addresses() {
    assert_eq!(store_root("https://x.supabase.co///"), "https://x.supabase.co");
    assert_eq!(store_root("https://x"), "https://x");
    assert_eq!(
        org_config_url("https://x", 42),
        "https://x/rest/v1/ebay_org_config?org_id=eq.00000000-0000-0000-0000-00000000002a&select=*&limit=1"
    );
    assert_eq!(bearer("k"), "Bearer k");
    assert!(check_store_status(200, "200 OK").is_ok());
    match check_store_status(500, "500 Internal Server Error") {
        Err(e) => assert_eq!(e.message(), "request failed: HTTP 500 Internal Server Error"),
        Ok(()) => panic!("must fail"),
    }
    assert_eq!(SupabaseError::Deserialize("x".to_string()).message(), "invalid response: x");
}

#[test]
fn location_is_complete_with_all_six_fields() {
    let whole = LocationMetadata {
        name: "Main".to_string(),
        address_line1: "1 Dock Road".to_string(),
        address_line2: None,
        city: "Hamburg".to_string(),
        state_or_province: "HH".to_string(),
        postal_code: "20457".to_string(),
        country: "DE".to_string(),
        latitude: None,
        longitude: None,
    };
    assert!(location_is_complete(&whole));
    assert!(!location_is_complete(&LocationMetadata { name: String::new(), ..clone(&whole) }));
    assert!(!location_is_complete(&LocationMetadata { address_line1: String::new(), ..clone(&whole) }));
    assert!(!location_is_complete(&LocationMetadata { city: String::new(), ..clone(&whole) }));
    assert!(!location_is_complete(&LocationMetadata {
        state_or_province: String::new(),
        ..clone(&whole)
    }));
    assert!(!location_is_complete(&LocationMetadata { postal_code: String::new(), ..clone(&whole) }));
    assert!(!location_is_complete(&LocationMetadata { country: String::new(), ..clone(&whole) }));
}

fn clone(location: &LocationMetadata) -> LocationMetadata {
    LocationMetadata {
        name: location.name.clone(),
        address_line1: location.address_line1.clone(),
        address_line2: location.address_line2.clone(),
        city: location.city.clone(),
        state_or_province: location.state_or_province.clone(),
        postal_code: location.postal_code.clone(),
        country: location.country.clone(),
        latitude: location.latitude.clone(),
        longitude: location.longitude.clone(),
    }
}
