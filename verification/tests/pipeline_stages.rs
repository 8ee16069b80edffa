use hermes_api::decimal::Decimal;
use hermes_api::models::{CategorySelectionInput, ImagesSource, ListingRequest, MarketplaceId};
use hermes_api::pipeline::outputs::StageOutput;
use hermes_api::pipeline::seed::compute_seed;
use hermes_api::pipeline::stages::{
    acquire_user_token, add_signature, build_aspects, deduplicate, default_categories,
    demo_credentials, fetch_taxonomy, host_allowed, override_category, parse_domain_allowlist,
    prepare_conditions, preview_token, resolve_images, select_category, tokenize,
};
use hermes_api::pipeline::{CategorySelection, PipelineConfig, PipelineErrorKind};

fn sample_request() -> ListingRequest {
    ListingRequest {
        images_source: ImagesSource::Multiple(vec![
            "https://example.com/a.jpg".to_string(),
            "https://example.com/b.jpg".to_string(),
        ]),
        sku: "test-sku-001".to_string(),
        merchant_location_key: "loc-1".to_string(),
        fulfillment_policy_id: "fulfill-123".to_string(),
        payment_policy_id: "payment-123".to_string(),
        return_policy_id: "return-123".to_string(),
        marketplace: MarketplaceId::EbayUs,
        llm_provider: None,
        llm_listing_model: None,
        llm_category_model: None,
        use_signed_urls: false,
        overrides: None,
        dry_run: false,
    }
}

fn config() -> PipelineConfig {
    PipelineConfig { categories: default_categories(), max_images: 6, image_domain_allowlist: None }
}

#[test]
fn stage_resolve_images_basic() {
    let req = sample_request();
    let out = resolve_images(&req, &config()).expect("resolve_images");
    assert_eq!(out.value.len(), 2);
    assert!(out.value[0].starts_with("https://"));
}

#[test]
fn stage_resolve_images_payload_fields() {
    let mut req = sample_request();
    req.use_signed_urls = true;
    let out = resolve_images(&req, &config()).expect("resolve_images");
    match out.output {
        StageOutput::ResolveImages { count, preview, use_signed_urls, overridden } => {
            assert_eq!(count, 2);
            assert!(use_signed_urls);
            assert!(!overridden);
            assert_eq!(
                preview,
                vec![
                    "https://example.com/a.jpg?signature=demo",
                    "https://example.com/b.jpg?signature=demo"
                ]
            );
        }
        other => panic!("wrong output: {:?}", other),
    }
}

#[test]
fn stage_resolve_images_rejects_non_http() {
    let req = ListingRequest {
        images_source: ImagesSource::Multiple(vec![
            "ftp://example.com/a.jpg".to_string(),
            "file:///etc/passwd".to_string(),
        ]),
        ..sample_request()
    };
    let err = resolve_images(&req, &config()).expect_err("should reject");
    assert_eq!(err.kind(), PipelineErrorKind::InvalidInput);
    assert_eq!(err.stage(), "resolve_images");
    assert_eq!(err.detail(), "unsupported_url_scheme: ftp://example.com/a.jpg");
}

#[test]
fn stage_select_category_and_taxonomy() {
    let req = sample_request();
    let images = vec!["https://example.com/a.jpg".to_string()];
    let selection =
        select_category(&req, &images, &default_categories(), 42).expect("select_category");
    assert!(!selection.value.id.is_empty());
    let taxonomy = fetch_taxonomy(&selection.value);
    assert!(taxonomy.value.aspects.len() >= 3);
}

#[test]
fn stage_prepare_conditions_rules() {
    let selection = CategorySelection {
        id: "11450".to_string(),
        tree_id: "0".to_string(),
        label: "Clothing, Shoes & Accessories".to_string(),
        confidence: Decimal { micros: 900_000 },
        rationale: "demo".to_string(),
    };
    let out = prepare_conditions(&selection);
    assert!(!out.value.allowed.is_empty());
    assert!(out.value.allowed.contains(&out.value.default_condition));
    assert_eq!(out.value.allowed, vec!["NEW_IN_BOX", "USED_LIKE_NEW", "USED_GOOD", "USED_FAIR"]);
    assert_eq!(out.value.default_condition, "NEW_IN_BOX");
}

#[test]
fn conditions_for_collectibles_and_others() {
    let mut selection = CategorySelection {
        id: "261178".to_string(),
        tree_id: "0".to_string(),
        label: "Vintage COLLECTIBLE toys".to_string(),
        confidence: Decimal { micros: 900_000 },
        rationale: "demo".to_string(),
    };
    assert_eq!(
        prepare_conditions(&selection).value.allowed,
        vec!["NEW", "UNOPENED", "DISPLAY_ONLY", "USED"]
    );
    selection.label = "Health & Beauty".to_string();
    let out = prepare_conditions(&selection);
    assert_eq!(out.value.allowed, vec!["NEW", "USED_LIKE_NEW", "USED_GOOD", "USED"]);
    assert_eq!(out.value.default_condition, "NEW");
}

#[test]
fn single_source_is_split_on_delimiters() {
    assert_eq!(
        tokenize(" https://a/1 , https://a/2;https://a/3|\nhttps://a/4 ,, "),
        vec!["https://a/1", "https://a/2", "https://a/3", "https://a/4"]
    );
    assert_eq!(tokenize("  https://a/1  "), vec!["https://a/1"]);
    assert_eq!(tokenize("   "), vec![""]);
}

#[test]
fn sequence_source_is_not_split() {
    let req = ListingRequest {
        images_source: ImagesSource::Multiple(vec![
            " https://example.com/a.jpg?x=1|2 ".to_string(),
            "   ".to_string(),
        ]),
        ..sample_request()
    };
    let out = resolve_images(&req, &config()).expect("resolve_images");
    assert_eq!(out.value, vec!["https://example.com/a.jpg?x=1|2"]);
}

#[test]
fn single_source_resolves_each_piece() {
    let req = ListingRequest {
        images_source: ImagesSource::Single(
            "https://example.com/a.jpg, https://example.com/b.jpg\nhttps://example.com/a.jpg"
                .to_string(),
        ),
        ..sample_request()
    };
    let out = resolve_images(&req, &config()).expect("resolve_images");
    assert_eq!(out.value, vec!["https://example.com/a.jpg", "https://example.com/b.jpg"]);
}

#[test]
fn signature_is_added_once() {
    assert_eq!(add_signature("https://a/1"), "https://a/1?signature=demo");
    assert_eq!(add_signature("https://a/1?x=2"), "https://a/1?x=2&signature=demo");
    assert_eq!(add_signature("https://a/1?signature=demo"), "https://a/1?signature=demo");
}

#[test]
fn deduplicate_keeps_first_occurrence() {
    let values = vec!["b".to_string(), "a".to_string(), "b".to_string(), "c".to_string(), "a".to_string()];
    assert_eq!(deduplicate(values), vec!["b", "a", "c"]);
}

#[test]
fn too_many_images_are_refused() {
    let urls: Vec<String> = (0..21).map(|i| format!("https://example.com/{}.jpg", i)).collect();
    let req = ListingRequest { images_source: ImagesSource::Multiple(urls), ..sample_request() };
    let err = resolve_images(&req, &config()).expect_err("too many");
    assert_eq!(err.kind(), PipelineErrorKind::InvalidInput);
    assert_eq!(err.stage(), "resolve_images");
    assert_eq!(err.detail(), "too_many_images");
    assert_eq!(err.http_status(), 400);
}

#[test]
fn seven_images_exceed_the_default_limit_and_six_do_not() {
    let seven: Vec<String> = (0..7).map(|i| format!("https://example.com/{}.jpg", i)).collect();
    let req = ListingRequest { images_source: ImagesSource::Multiple(seven), ..sample_request() };
    assert_eq!(resolve_images(&req, &config()).expect_err("seven").detail(), "too_many_images");
    let six: Vec<String> = (0..6).map(|i| format!("https://example.com/{}.jpg", i)).collect();
    let req = ListingRequest { images_source: ImagesSource::Multiple(six), ..sample_request() };
    assert_eq!(resolve_images(&req, &config()).expect("six").value.len(), 6);
}

#[test]
fn no_images_are_refused() {
    let req = ListingRequest {
        images_source: ImagesSource::Single(" , ; ".to_string()),
        ..sample_request()
    };
    let err = resolve_images(&req, &config()).expect_err("none");
    assert_eq!(err.kind(), PipelineErrorKind::InvalidInput);
    assert_eq!(err.detail(), "no images provided");
}

#[test]
fn unparsable_address_is_refused() {
    let req = ListingRequest {
        images_source: ImagesSource::Multiple(vec!["not a url".to_string()]),
        ..sample_request()
    };
    let err = resolve_images(&req, &config()).expect_err("invalid");
    assert_eq!(err.kind(), PipelineErrorKind::InvalidInput);
    assert_eq!(err.detail(), "invalid_image_url: not a url");
}

#[test]
fn allowlist_admits_host_and_subdomains_only() {
    let allowed = vec!["example.com".to_string()];
    assert!(host_allowed("example.com", &allowed));
    assert!(host_allowed("CDN.Example.com", &allowed));
    assert!(!host_allowed("badexample.com", &allowed));
    assert!(!host_allowed("example.org", &allowed));
    let mut cfg = config();
    cfg.image_domain_allowlist = Some(allowed);
    let req = ListingRequest {
        images_source: ImagesSource::Multiple(vec![
            "https://cdn.example.com/a.jpg".to_string(),
            "https://evil.test/b.jpg".to_string(),
        ]),
        ..sample_request()
    };
    let err = resolve_images(&req, &cfg).expect_err("domain");
    assert_eq!(err.kind(), PipelineErrorKind::InvalidInput);
    assert_eq!(err.detail(), "domain_not_allowed: evil.test");
}

#[test]
fn allowlist_is_read_from_a_list() {
    assert_eq!(
        parse_domain_allowlist("Example.com, cdn.test\n img.test\t"),
        Some(vec!["example.com".to_string(), "cdn.test".to_string(), "img.test".to_string()])
    );
    assert_eq!(parse_domain_allowlist(" , "), None);
    assert_eq!(parse_domain_allowlist(""), None);
}

#[test]
fn category_follows_the_seed() {
    let req = sample_request();
    let images = vec!["https://example.com/a.jpg".to_string()];
    let out = select_category(&req, &images, &default_categories(), 42).expect("select");
    assert_eq!(out.value.id, "261178");
    assert_eq!(out.value.tree_id, "0");
    assert_eq!(out.value.label, "Collectibles");
    assert_eq!(out.value.confidence, Decimal { micros: 570_000 });
    assert_eq!(
        out.value.rationale,
        "sku signal `test-sku-001` + image hash matched `studio backgrounds and creative props`"
    );
    match out.output {
        StageOutput::SelectCategory { selected, alternatives, image_signature, overridden } => {
            assert_eq!(selected.id, "261178");
            assert_eq!(alternatives.len(), 2);
            assert_eq!(alternatives[0].id, "11450");
            assert_eq!(alternatives[1].id, "31387");
            assert_eq!(alternatives[1].keywords, vec!["headphones", "camera", "electronics"]);
            assert_eq!(image_signature.as_deref(), Some("https://example.com/a.jpg"));
            assert!(!overridden);
        }
        other => panic!("wrong output: {:?}", other),
    }
}

#[test]
fn confidence_stays_between_55_and_94_hundredths() {
    let req = sample_request();
    let images: Vec<String> = Vec::new();
    let cats = default_categories();
    let low = select_category(&req, &images, &cats, 40).expect("select");
    assert_eq!(low.value.confidence, Decimal { micros: 550_000 });
    assert_eq!(low.value.id, "11450");
    let high = select_category(&req, &images, &cats, 39).expect("select");
    assert_eq!(high.value.confidence, Decimal { micros: 940_000 });
    assert_eq!(high.value.id, "293");
    let big = select_category(&req, &images, &cats, u64::MAX).expect("select");
    assert_eq!(big.value.confidence, Decimal { micros: 700_000 });
    assert_eq!(big.value.id, "11450");
}

#[test]
fn alternatives_skip_the_chosen_category() {
    let req = sample_request();
    let images: Vec<String> = Vec::new();
    let first = select_category(&req, &images, &default_categories(), 0).expect("select");
    match first.output {
        StageOutput::SelectCategory { alternatives, image_signature, .. } => {
            assert_eq!(alternatives[0].id, "31387");
            assert_eq!(alternatives[1].id, "261178");
            assert_eq!(image_signature, None);
        }
        other => panic!("wrong output: {:?}", other),
    }
    let second = select_category(&req, &images, &default_categories(), 1).expect("select");
    match second.output {
        StageOutput::SelectCategory { alternatives, .. } => {
            assert_eq!(alternatives[0].id, "11450");
            assert_eq!(alternatives[1].id, "261178");
        }
        other => panic!("wrong output: {:?}", other),
    }
}

#[test]
fn no_categories_is_a_failure_of_the_service() {
    let req = sample_request();
    let err = select_category(&req, &Vec::new(), &Vec::new(), 7).expect_err("no categories");
    assert_eq!(err.kind(), PipelineErrorKind::Internal);
    assert_eq!(err.stage(), "select_category");
    assert_eq!(err.detail(), "no categories configured");
    assert_eq!(err.http_status(), 500);
}

#[test]
fn same_seed_inputs_select_the_same_category() {
    let first = sample_request();
    let mut second = sample_request();
    second.dry_run = true;
    second.use_signed_urls = true;
    let images = vec![
        "https://example.com/a.jpg".to_string(),
        "https://example.com/b.jpg".to_string(),
    ];
    let a = compute_seed(&first, &images);
    let b = compute_seed(&second, &images);
    assert_eq!(a, b);
    let cats = default_categories();
    assert_eq!(
        select_category(&first, &images, &cats, a).expect("a").value.id,
        select_category(&second, &images, &cats, b).expect("b").value.id
    );
}

#[test]
fn seed_is_fnv_over_the_fields_in_order() {
    let req = sample_request();
    let two = vec![
        "https://example.com/a.jpg".to_string(),
        "https://example.com/b.jpg".to_string(),
    ];
    assert_eq!(compute_seed(&req, &two), 6686162501548634039);
    let one = vec!["https://example.com/a.jpg".to_string()];
    assert_eq!(compute_seed(&req, &one), 8611984789803143458);
    let many = vec![
        "https://example.com/a.jpg".to_string(),
        "https://example.com/b.jpg".to_string(),
        "c".to_string(),
        "d".to_string(),
    ];
    let three = vec![
        "https://example.com/a.jpg".to_string(),
        "https://example.com/b.jpg".to_string(),
        "c".to_string(),
    ];
    assert_eq!(compute_seed(&req, &many), compute_seed(&req, &three));
    let mut other = sample_request();
    other.marketplace = MarketplaceId::EbayDe;
    assert_ne!(compute_seed(&other, &two), compute_seed(&req, &two));
}

#[test]
fn override_category_is_handed_on_unchanged() {
    let input = CategorySelectionInput {
        id: "31387".to_string(),
        tree_id: "0".to_string(),
        label: "Consumer Electronics".to_string(),
        confidence: Decimal { micros: 800_000 },
        rationale: "r".to_string(),
    };
    let images = vec!["https://a/1".to_string(), "https://a/2".to_string()];
    let out = override_category(&input, &images, &default_categories());
    assert_eq!(out.value.id, "31387");
    assert_eq!(out.value.label, "Consumer Electronics");
    assert_eq!(out.value.confidence, Decimal { micros: 800_000 });
    assert_eq!(out.value.rationale, "r");
    match out.output {
        StageOutput::SelectCategory { selected, alternatives, image_signature, overridden } => {
            assert!(overridden);
            assert_eq!(selected.label, "Consumer Electronics");
            assert_eq!(alternatives.len(), 2);
            assert_eq!(alternatives[0].label, "Clothing, Shoes & Accessories");
            assert_eq!(alternatives[1].label, "Collectibles");
            assert_eq!(image_signature.as_deref(), Some("https://a/1"));
        }
        other => panic!("wrong output: {:?}", other),
    }
}

#[test]
fn reference_taxonomy_has_brand_color_condition() {
    let aspects = build_aspects("Collectibles");
    assert_eq!(aspects.len(), 3);
    assert_eq!(aspects[0].name, "Brand");
    assert!(aspects[0].required);
    assert_eq!(aspects[0].samples, vec!["Hermes Labs", "Demo Labs"]);
    assert_eq!(aspects[1].name, "Color");
    assert_eq!(aspects[1].samples, vec!["Black", "White", "Sand"]);
    assert_eq!(aspects[2].name, "Condition");
    assert!(!aspects[2].required);
    let more = build_aspects("Consumer Electronics");
    assert_eq!(more.len(), 4);
    assert_eq!(more[3].name, "BatteryIncluded");
    assert_eq!(more[3].samples, vec!["Yes", "No"]);
}

#[test]
fn taxonomy_constrains_required_aspects_to_their_values() {
    let selection = CategorySelection {
        id: "31387".to_string(),
        tree_id: "0".to_string(),
        label: "Consumer Electronics".to_string(),
        confidence: Decimal { micros: 800_000 },
        rationale: "r".to_string(),
    };
    let out = fetch_taxonomy(&selection);
    assert_eq!(out.value.category_id, "31387");
    assert_eq!(out.value.raw.aspects.len(), 4);
    let brand = &out.value.raw.aspects[0];
    assert_eq!(brand.localizedAspectName, "Brand");
    let constraint = brand.aspectConstraint.as_ref().expect("constraint");
    assert_eq!(constraint.aspectMode.as_deref(), Some("SELECTION_ONLY"));
    assert_eq!(constraint.aspectRequired, Some(true));
    assert_eq!(constraint.itemToAspectCardinality.as_deref(), Some("MULTI"));
    let battery = &out.value.raw.aspects[3];
    assert_eq!(
        battery.aspectConstraint.as_ref().expect("constraint").aspectMode.as_deref(),
        Some("FREE_TEXT")
    );
    match out.output {
        StageOutput::FetchTaxonomy { category_id, aspect_count, sample_aspects } => {
            assert_eq!(category_id, "31387");
            assert_eq!(aspect_count, 4);
            assert_eq!(sample_aspects.len(), 3);
        }
        other => panic!("wrong output: {:?}", other),
    }
}

#[test]
fn token_preview_shows_six_characters() {
    assert_eq!(preview_token("demo_12345"), "demo_1\u{e2}\u{20ac}\u{a6}");
    assert_eq!(preview_token("abc"), "abc\u{e2}\u{20ac}\u{a6}");
    let out = demo_credentials("0000");
    assert_eq!(out.value.token, "demo_0000");
    assert_eq!(out.value.expires_in, 3600);
    match out.output {
        StageOutput::AcquireUserToken { token_preview, scopes, expires_in_seconds } => {
            assert_eq!(token_preview, "demo_0\u{e2}\u{20ac}\u{a6}");
            assert_eq!(scopes.len(), 2);
            assert_eq!(scopes[0], "https://api.ebay.com/oauth/api_scope/sell.inventory");
            assert_eq!(expires_in_seconds, 3600);
        }
        other => panic!("wrong output: {:?}", other),
    }
}

#[test]
fn fresh_tokens_differ() {
    let a = acquire_user_token();
    let b = acquire_user_token();
    assert!(a.value.token.starts_with("demo_"));
    assert_eq!(a.value.token.chars().count(), 41);
    assert_ne!(a.value.token, b.value.token);
}

#[test]
fn repeated_images_count_once() {
    let mut request = sample_request();
    request.images_source =
        ImagesSource::Multiple(vec!["https://example.com/a.jpg".to_string(); 21]);
    let outcome = resolve_images(&request, &config()).expect("one image");
    assert_eq!(outcome.value, vec!["https://example.com/a.jpg".to_string()]);
}
