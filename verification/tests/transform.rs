use hermes_api::aspect_map::{text_before, AspectMap};
use hermes_api::decimal::Decimal;
use hermes_api::ebay::taxonomy::{
    Aspect, AspectConstraint, AspectMode, AspectValue, ItemCardinality, TaxonomyResponse,
};
use hermes_api::hsuf::measurements::{
    normalize_length_code, normalize_weight_code, quantitative_length_to_inches,
    quantitative_weight_to_pounds, round_one, round_two,
};
use hermes_api::hsuf::models::{
    Brand, ImageField, Offer, Product, QuantitativeValue, SizeField, SizeSpecification,
    UnitPriceSpecification,
};
use hermes_api::hsuf::transform::{
    apply_constraints, build_aspects, build_fallback_description, build_listing_draft,
    estimate_package, extract_images, extract_price, hsuf_values_for_aspect, normalize_text,
    resolve_size, split_field, truncate, HsufListingContext, TransformError,
};

fn product() -> Product {
    Product {
        name: "Trail Runner".to_string(),
        image: ImageField::Multiple(vec![" https://a/1 ".to_string(), "  ".to_string()]),
        offers: Offer {
            price: Some(Decimal { micros: 49_990_000 }),
            priceCurrency: Some("usd".to_string()),
            priceSpecification: None,
        },
        description: None,
        brand: Some(Brand { name: Some("  hermes   LABS ".to_string()) }),
        color: Some("Black / white & Teal".to_string()),
        material: Some("Mesh".to_string()),
        size: Some(SizeField::Text("42".to_string())),
        sku: Some("SKU-9".to_string()),
        mpn: Some("MPN-9".to_string()),
        height: None,
        width: None,
        depth: None,
        weight: None,
    }
}

fn aspect(name: &str, values: &[&str], mode: Option<&str>, cardinality: Option<&str>) -> Aspect {
    Aspect {
        localizedAspectName: name.to_string(),
        aspectValues: values.iter().map(|v| AspectValue { localizedValue: v.to_string() }).collect(),
        aspectConstraint: Some(AspectConstraint {
            aspectMode: mode.map(|m| m.to_string()),
            aspectRequired: Some(true),
            itemToAspectCardinality: cardinality.map(|c| c.to_string()),
        }),
    }
}

fn quantity(code: Option<&str>, text: Option<&str>, micros: Option<i64>) -> Option<QuantitativeValue> {
    Some(QuantitativeValue {
        unitCode: code.map(|s| s.to_string()),
        unitText: text.map(|s| s.to_string()),
        value: micros.map(|m| Decimal { micros: m }),
    })
}

#[test]
fn modes_and_cardinalities_are_read_in_any_case() {
    assert_eq!(AspectMode::from_raw("selection_only"), Some(AspectMode::SelectionOnly));
    assert_eq!(AspectMode::from_raw("FREE_TEXT"), Some(AspectMode::FreeText));
    assert_eq!(AspectMode::from_raw("other"), None);
    assert_eq!(ItemCardinality::from_raw(Some("multi")), ItemCardinality::Multi);
    assert_eq!(ItemCardinality::from_raw(Some("SINGLE")), ItemCardinality::Single);
    assert_eq!(ItemCardinality::from_raw(None), ItemCardinality::Single);
    assert_eq!(ItemCardinality::from_raw(Some("")), ItemCardinality::Single);
    assert_eq!(ItemCardinality::from_raw(Some("MULTI")), ItemCardinality::Multi);
    assert_eq!(ItemCardinality::from_raw(Some(" MULTI")), ItemCardinality::Single);
}

#[test]
fn selection_only_emits_only_aspect_values() {
    let a = aspect("Color", &[" Black ", "White", "Deep  Sea"], Some("SELECTION_ONLY"), Some("MULTI"));
    let candidates: Vec<String> =
        vec!["black".into(), "Teal".into(), "deep sea".into(), "WHITE".into(), "Black".into()];
    let out = apply_constraints(&candidates, &a);
    assert_eq!(out, vec!["Black", "Deep  Sea", "White", "Black"]);
    for v in &out {
        assert!(a.aspectValues.iter().any(|av| av.localizedValue.trim() == v));
    }
}

#[test]
fn last_of_equal_aspect_values_is_returned() {
    let a = aspect("Brand", &["ACME", "Acme"], Some("selection_only"), None);
    let out = apply_constraints(&vec!["acme".to_string()], &a);
    assert_eq!(out, vec!["Acme"]);
}

#[test]
fn free_text_and_no_constraint_keep_candidates() {
    let a = aspect("Brand", &["ACME"], Some("FREE_TEXT"), None);
    assert_eq!(apply_constraints(&vec!["Other".to_string()], &a), vec!["Other"]);
    let mut b = aspect("Brand", &["ACME"], None, None);
    assert_eq!(apply_constraints(&vec!["Other".to_string()], &b), vec!["Other"]);
    b.aspectConstraint = None;
    assert_eq!(apply_constraints(&vec!["Other".to_string()], &b), vec!["Other"]);
}

#[test]
fn candidates_follow_the_aspect_name() {
    let p = product();
    assert_eq!(
        hsuf_values_for_aspect(&p, &aspect(" Brand ", &[], None, None)),
        vec!["  hermes   LABS "]
    );
    assert_eq!(
        hsuf_values_for_aspect(&p, &aspect("MANUFACTURER", &[], None, None)),
        vec!["  hermes   LABS "]
    );
    assert_eq!(
        hsuf_values_for_aspect(&p, &aspect("Main Color", &[], None, None)),
        vec!["Black", "white", "Teal"]
    );
    assert_eq!(hsuf_values_for_aspect(&p, &aspect("mpn", &[], None, None)), vec!["MPN-9"]);
    assert_eq!(hsuf_values_for_aspect(&p, &aspect("SKU", &[], None, None)), vec!["SKU-9"]);
    assert!(hsuf_values_for_aspect(&p, &aspect("Material", &[], None, None)).is_empty());
}

#[test]
fn fields_are_split_on_their_delimiters() {
    assert_eq!(split_field(Some("a/b|c, d & e\nf")), vec!["a", "b", "c", "d", "e", "f"]);
    assert_eq!(split_field(Some(" / ")), Vec::<String>::new());
    assert_eq!(split_field(None), Vec::<String>::new());
}

#[test]
fn text_is_normalized_by_case_and_white_space() {
    assert_eq!(normalize_text("  Deep   SEA\tBlue "), "deep sea blue");
    assert_eq!(normalize_text(""), "");
}

#[test]
fn aspects_are_reconciled_and_sorted_by_name() {
    let taxonomy = TaxonomyResponse {
        aspects: vec![
            aspect("Color", &["Black", "White"], Some("SELECTION_ONLY"), Some("MULTI")),
            aspect("Brand", &["Hermes Labs"], Some("SELECTION_ONLY"), Some("MULTI")),
            aspect("  ", &["x"], None, None),
            aspect("MPN", &[], Some("FREE_TEXT"), None),
            aspect("Sku", &[], Some("FREE_TEXT"), Some("SINGLE")),
            aspect("Material", &["Mesh"], None, None),
        ],
    };
    let map = build_aspects(&product(), &taxonomy);
    assert_eq!(map.len(), 4);
    let names: Vec<String> = (0..map.len()).map(|i| map.name_at(i).clone()).collect();
    assert_eq!(names, vec!["Brand", "Color", "MPN", "Sku"]);
    assert_eq!(map.get("Brand"), Some(&vec!["Hermes Labs".to_string()]));
    assert_eq!(map.get("Color"), Some(&vec!["Black".to_string(), "White".to_string()]));
    assert_eq!(map.get("MPN"), Some(&vec!["MPN-9".to_string()]));
    assert_eq!(map.get("Material"), None);
}

#[test]
fn single_cardinality_keeps_the_first_value() {
    let taxonomy = TaxonomyResponse {
        aspects: vec![aspect("Color", &["Black", "White"], Some("SELECTION_ONLY"), Some("SINGLE"))],
    };
    let map = build_aspects(&product(), &taxonomy);
    assert_eq!(map.get("Color"), Some(&vec!["Black".to_string()]));
}

#[test]
fn aspect_map_orders_and_replaces() {
    let mut map = AspectMap::new();
    assert!(map.is_empty());
    map.insert("b".to_string(), vec!["1".to_string()]);
    map.insert("a".to_string(), vec!["2".to_string()]);
    map.insert("c".to_string(), vec!["3".to_string()]);
    map.insert("b".to_string(), vec!["4".to_string()]);
    assert_eq!(map.len(), 3);
    assert_eq!(map.name_at(0), "a");
    assert_eq!(map.name_at(1), "b");
    assert_eq!(map.values_at(1), &vec!["4".to_string()]);
    assert_eq!(map.name_at(2), "c");
    let copy = map.copy();
    assert_eq!(copy.get("c"), Some(&vec!["3".to_string()]));
    assert!(text_before("Brand", "Color"));
    assert!(text_before("B", "Ba"));
    assert!(!text_before("b", "B"));
    assert!(!text_before("a", "a"));
}

#[test]
fn price_prefers_the_offer_over_its_specification() {
    let p = product();
    let (price, currency) = extract_price(&p.offers, "EUR").expect("price");
    assert_eq!(price, Decimal { micros: 49_990_000 });
    assert_eq!(currency, "USD");
    let spec = Offer {
        price: None,
        priceCurrency: Some("usd".to_string()),
        priceSpecification: Some(UnitPriceSpecification {
            price: Some(Decimal { micros: 5_000_000 }),
            priceCurrency: None,
        }),
    };
    let (price, currency) = extract_price(&spec, "eur").expect("price");
    assert_eq!(price, Decimal { micros: 5_000_000 });
    assert_eq!(currency, "EUR");
    let none = Offer { price: None, priceCurrency: None, priceSpecification: None };
    assert_eq!(extract_price(&none, "USD"), Err(TransformError::MissingPrice));
    assert_eq!(TransformError::MissingPrice.message(), "offer missing price information");
}

#[test]
fn images_are_trimmed_and_must_not_be_empty() {
    let p = product();
    assert_eq!(extract_images(&p.image), Ok(vec!["https://a/1".to_string()]));
    assert_eq!(
        extract_images(&ImageField::Single("   ".to_string())),
        Err(TransformError::MissingImages)
    );
    assert_eq!(
        extract_images(&ImageField::Multiple(Vec::new())),
        Err(TransformError::MissingImages)
    );
    assert_eq!(TransformError::MissingImages.message(), "product image set is empty");
    assert_eq!(ImageField::Single("x".to_string()).as_vec(), vec!["x"]);
}

#[test]
fn truncation_appends_an_ellipsis() {
    assert_eq!(truncate("short", 80), "short");
    let exact = "x".repeat(80);
    assert_eq!(truncate(&exact, 80), exact);
    let long = format!("{} {}", "a".repeat(76), "b".repeat(10));
    let cut = truncate(&long, 80);
    assert_eq!(cut, format!("{}...", "a".repeat(76)));
    assert_eq!(cut.chars().count(), 79);
    assert_eq!(truncate("abcdef", 2), "...");
    let wide = "\u{e9}".repeat(81);
    assert_eq!(truncate(&wide, 80), format!("{}...", "\u{e9}".repeat(77)));
}

#[test]
fn truncation_keeps_a_beginning_of_the_text() {
    assert_eq!(truncate(" abcdefgh", 5), " a...");
    assert_eq!(truncate("  \t abcdefgh", 6), "...");
    assert_eq!(truncate("ab   cdefgh", 7), "ab...");
    assert_eq!(truncate(" short ", 80), " short ");
}

#[test]
fn description_is_made_of_the_product_fields() {
    let mut p = product();
    assert_eq!(
        build_fallback_description(&p),
        "Brand:   hermes   LABS \nColor: Black / white & Teal\nMaterial: Mesh\nSize: 42"
    );
    p.brand = None;
    p.color = None;
    p.material = None;
    p.size = None;
    assert_eq!(build_fallback_description(&p), "Trail Runner");
    p.description = Some("As new".to_string());
    assert_eq!(build_fallback_description(&p), "As new");
}

#[test]
fn size_is_read_in_its_three_forms() {
    assert_eq!(resolve_size(&SizeField::Text("M".to_string())).as_deref(), Some("M"));
    let q = SizeField::Quantitative(QuantitativeValue {
        unitCode: None,
        unitText: None,
        value: Some(Decimal { micros: 10_500_000 }),
    });
    assert_eq!(resolve_size(&q).as_deref(), Some("10.5"));
    let s = SizeField::Specification(SizeSpecification {
        name: Some("EU 42".to_string()),
        sizeGroup: None,
        sizeSystem: None,
    });
    assert_eq!(resolve_size(&s).as_deref(), Some("EU 42"));
}

#[test]
fn draft_is_built_from_the_product() {
    let taxonomy = TaxonomyResponse {
        aspects: vec![aspect("Brand", &["Hermes Labs"], Some("SELECTION_ONLY"), Some("MULTI"))],
    };
    let ctx = HsufListingContext { taxonomy: &taxonomy, category_id: "11450", default_currency: "USD" };
    let draft = build_listing_draft(&product(), ctx).expect("draft");
    assert_eq!(draft.sku, "SKU-9");
    assert_eq!(draft.title, "Trail Runner");
    assert_eq!(draft.price, Decimal { micros: 49_990_000 });
    assert_eq!(draft.currency, "USD");
    assert_eq!(draft.category_id, "11450");
    assert_eq!(draft.quantity, 1);
    assert_eq!(draft.images, vec!["https://a/1"]);
    assert_eq!(draft.aspects.len(), 1);
    assert!(draft.description.starts_with("Brand: "));
    let mut priceless = product();
    priceless.offers.price = None;
    priceless.image = ImageField::Multiple(Vec::new());
    assert_eq!(build_listing_draft(&priceless, ctx).err(), Some(TransformError::MissingPrice));
    let mut imageless = product();
    imageless.image = ImageField::Multiple(Vec::new());
    assert_eq!(build_listing_draft(&imageless, ctx).err(), Some(TransformError::MissingImages));
    let mut nameless = product();
    nameless.sku = None;
    assert_eq!(build_listing_draft(&nameless, ctx).expect("draft").sku, "hsuf-sku");
}

#[test]
fn unit_codes_are_normalized() {
    assert_eq!(normalize_length_code(Some(" inh "), None).as_deref(), Some("INH"));
    assert_eq!(normalize_length_code(Some("xx"), Some(" Feet ")).as_deref(), Some("FT"));
    assert_eq!(normalize_length_code(None, Some("cm")).as_deref(), Some("CMT"));
    assert_eq!(normalize_length_code(None, Some("m")).as_deref(), Some("MTR"));
    assert_eq!(normalize_length_code(None, Some("millimeters")).as_deref(), Some("MMT"));
    assert_eq!(normalize_length_code(None, Some("yard")).as_deref(), Some("YRD"));
    assert_eq!(normalize_length_code(Some("LBR"), Some("parsec")), None);
    assert_eq!(normalize_weight_code(Some("kgm"), None).as_deref(), Some("KGM"));
    assert_eq!(normalize_weight_code(None, Some("LBS")).as_deref(), Some("LBR"));
    assert_eq!(normalize_weight_code(None, Some("oz")).as_deref(), Some("ONZ"));
    assert_eq!(normalize_weight_code(None, Some("g")).as_deref(), Some("GRM"));
    assert_eq!(normalize_weight_code(None, None), None);
    assert_eq!(normalize_length_code(Some(" INH "), Some("feet")).as_deref(), Some("INH"));
    assert_eq!(normalize_weight_code(Some("LBR"), Some("grams")).as_deref(), Some("LBR"));
    assert_eq!(normalize_weight_code(Some("Onz"), None).as_deref(), Some("ONZ"));
}

#[test]
fn inches_and_pounds_convert_to_themselves() {
    let x = Decimal { micros: 12_345_678 };
    assert_eq!(quantitative_length_to_inches(&quantity(Some("INH"), None, Some(12_345_678))), Some(x));
    assert_eq!(quantitative_length_to_inches(&quantity(None, Some("inches"), Some(12_345_678))), Some(x));
    assert_eq!(quantitative_weight_to_pounds(&quantity(Some("lbr"), None, Some(12_345_678))), Some(x));
    assert_eq!(quantitative_weight_to_pounds(&quantity(Some("LBR"), Some("kg"), Some(12_345_678))), Some(x));
    assert_eq!(quantitative_length_to_inches(&quantity(Some("INH"), Some("cm"), Some(1))), Some(Decimal { micros: 1 }));
}

#[test]
fn zero_and_negative_quantities_convert_to_nothing() {
    assert_eq!(quantitative_length_to_inches(&quantity(Some("INH"), None, Some(0))), None);
    assert_eq!(quantitative_length_to_inches(&quantity(Some("INH"), None, Some(-5_000_000))), None);
    assert_eq!(quantitative_weight_to_pounds(&quantity(Some("LBR"), None, Some(0))), None);
    assert_eq!(quantitative_weight_to_pounds(&quantity(Some("LBR"), None, Some(-1))), None);
    assert_eq!(quantitative_length_to_inches(&quantity(Some("INH"), None, None)), None);
    assert_eq!(quantitative_length_to_inches(&None), None);
    assert_eq!(quantitative_length_to_inches(&quantity(Some("??"), None, Some(1))), None);
}

#[test]
fn other_units_are_scaled() {
    assert_eq!(
        quantitative_length_to_inches(&quantity(Some("FT"), None, Some(2_000_000))),
        Some(Decimal { micros: 24_000_000 })
    );
    assert_eq!(
        quantitative_length_to_inches(&quantity(Some("CMT"), None, Some(100_000_000))),
        Some(Decimal { micros: 39_370_078 })
    );
    assert_eq!(
        quantitative_length_to_inches(&quantity(Some("MTR"), None, Some(1_000_000))),
        Some(Decimal { micros: 39_370_078 })
    );
    assert_eq!(
        quantitative_length_to_inches(&quantity(Some("YRD"), None, Some(1_000_000))),
        Some(Decimal { micros: 36_000_000 })
    );
    assert_eq!(
        quantitative_weight_to_pounds(&quantity(Some("ONZ"), None, Some(8_000_000))),
        Some(Decimal { micros: 500_000 })
    );
    assert_eq!(
        quantitative_weight_to_pounds(&quantity(Some("KGM"), None, Some(1_000_000))),
        Some(Decimal { micros: 2_204_622 })
    );
    assert_eq!(
        quantitative_weight_to_pounds(&quantity(Some("GRM"), None, Some(1_000_000_000))),
        Some(Decimal { micros: 2_204_622 })
    );
}

#[test]
fn rounding_goes_to_one_and_two_digits() {
    assert_eq!(round_one(Decimal { micros: 1_250_000 }), Some(Decimal { micros: 1_300_000 }));
    assert_eq!(round_one(Decimal { micros: 1_249_999 }), Some(Decimal { micros: 1_200_000 }));
    assert_eq!(round_two(Decimal { micros: 1_005_000 }), Some(Decimal { micros: 1_010_000 }));
    assert_eq!(round_two(Decimal { micros: 3_000_000 }), Some(Decimal { micros: 3_000_000 }));
    assert_eq!(round_one(Decimal { micros: -1 }), None);
}

#[test]
fn package_needs_all_four_measures() {
    let mut p = product();
    assert!(estimate_package(&p).is_none());
    p.height = quantity(Some("INH"), None, Some(5_040_000));
    p.width = quantity(Some("INH"), None, Some(8_000_000));
    p.depth = quantity(Some("FT"), None, Some(1_000_000));
    p.weight = quantity(Some("ONZ"), None, Some(1_000_000));
    let pack = estimate_package(&p).expect("package");
    assert_eq!(pack.package_weight.value, Decimal { micros: 100_000 });
    assert_eq!(pack.package_weight.unit, "POUND");
    assert_eq!(pack.package_size.height, Decimal { micros: 5_000_000 });
    assert_eq!(pack.package_size.width, Decimal { micros: 8_000_000 });
    assert_eq!(pack.package_size.length, Decimal { micros: 12_000_000 });
    assert_eq!(pack.package_size.unit, "INCH");
    p.weight = quantity(Some("LBR"), None, Some(3_456_000));
    assert_eq!(
        estimate_package(&p).expect("package").package_weight.value,
        Decimal { micros: 3_460_000 }
    );
    p.depth = quantity(Some("FT"), None, Some(0));
    assert!(estimate_package(&p).is_none());
}

#[test]
fn decimals_are_written_with_two_digits_or_plainly() {
    assert_eq!(Decimal { micros: 49_990_000 }.format_fixed2(), "49.99");
    assert_eq!(Decimal { micros: 99_000_000 }.format_fixed2(), "99.00");
    assert_eq!(Decimal { micros: 1_005_000 }.format_fixed2(), "1.01");
    assert_eq!(Decimal { micros: 4_999 }.format_fixed2(), "0.00");
    assert_eq!(Decimal { micros: -1_500_000 }.format_fixed2(), "-1.50");
    assert_eq!(Decimal { micros: 0 }.format_fixed2(), "0.00");
    assert_eq!(Decimal { micros: 10_500_000 }.format_plain(), "10.5");
    assert_eq!(Decimal { micros: 10_000_000 }.format_plain(), "10");
    assert_eq!(Decimal { micros: 1 }.format_plain(), "0.000001");
    assert_eq!(Decimal { micros: -2_050_000 }.format_plain(), "-2.05");
    assert_eq!(Decimal::from_units(99), Decimal { micros: 99_000_000 });
    assert_eq!(Decimal::from_hundredths(57), Decimal { micros: 570_000 });
    assert_eq!(Decimal { micros: 5 }.scaled(1, 0), None);
    assert_eq!(Decimal { micros: i64::MAX }.scaled(2, 1), None);
}
