use hermes_api::decimal::Decimal;
use hermes_api::hsuf::ingest::{
    extraction_payload, fallback_product, normalize_product_value, normalize_product_with,
    product_or_fallback, strip_markdown_fence, IngestError,
};
use hermes_api::hsuf::models::ImageField;
use hermes_api::json::{find_member, put_member, JsonMember, JsonValue};

fn member(key: &str, value: JsonValue) -> JsonMember {
    JsonMember { key: key.to_string(), value }
}

fn text(s: &str) -> JsonValue {
    JsonValue::Text(s.to_string())
}

fn get<'a>(value: &'a JsonValue, key: &str) -> Option<&'a JsonValue> {
    match value {
        JsonValue::Object(members) => find_member(members, key).map(|i| &members[i].value),
        _ => None,
    }
}

fn as_text(value: Option<&JsonValue>) -> Option<&str> {
    match value {
        Some(JsonValue::Text(t)) => Some(t.as_str()),
        _ => None,
    }
}

fn images() -> Vec<String> {
    (1..=8).map(|i| format!("https://a/{}", i)).collect()
}

#[test]
fn fence_is_stripped() {
    assert_eq!(strip_markdown_fence("  {\"a\":1}  "), "{\"a\":1}");
    assert_eq!(strip_markdown_fence("```json\n{\"a\":1}\n```"), "{\"a\":1}");
    assert_eq!(strip_markdown_fence("```\nline 1\r\nline 2\n  ```\nafter"), "line 1\nline 2");
    assert_eq!(strip_markdown_fence("```json\n{}"), "{}");
    assert_eq!(strip_markdown_fence("```"), "");
    assert_eq!(strip_markdown_fence(""), "");
    assert_eq!(strip_markdown_fence("text ``` inside"), "text ``` inside");
}

#[test]
fn non_object_becomes_a_full_object() {
    let out = normalize_product_with(JsonValue::Null, &images(), "fresh-1");
    assert_eq!(as_text(get(&out, "name")), Some("Untitled Product"));
    assert_eq!(as_text(get(&out, "sku")), Some("fresh-1"));
    match get(&out, "image") {
        Some(JsonValue::Array(items)) => {
            assert_eq!(items.len(), 6);
            assert!(matches!(&items[0], JsonValue::Text(t) if t == "https://a/1"));
            assert!(matches!(&items[5], JsonValue::Text(t) if t == "https://a/6"));
        }
        other => panic!("image: {:?}", other),
    }
    let offers = get(&out, "offers").expect("offers");
    assert_eq!(as_text(get(offers, "price")), Some("49.99"));
    assert_eq!(as_text(get(offers, "priceCurrency")), Some("USD"));
    assert_eq!(as_text(get(offers, "itemCondition")), Some("https://schema.org/UsedCondition"));
}

#[test]
fn present_fields_are_kept() {
    let doc = JsonValue::Object(vec![
        member("color", text("Red")),
        member("name", text("Lamp")),
        member("sku", JsonValue::Null),
        member("image", text("https://x/1")),
        member(
            "offers",
            JsonValue::Object(vec![
                member("price", JsonValue::Number("12.5".to_string())),
                member("itemCondition", text("new")),
            ]),
        ),
    ]);
    let out = normalize_product_with(doc, &images(), "fresh-1");
    match &out {
        JsonValue::Object(members) => {
            let keys: Vec<&str> = members.iter().map(|m| m.key.as_str()).collect();
            assert_eq!(keys, vec!["color", "name", "sku", "image", "offers"]);
        }
        other => panic!("{:?}", other),
    }
    assert_eq!(as_text(get(&out, "name")), Some("Lamp"));
    assert!(matches!(get(&out, "sku"), Some(JsonValue::Null)));
    assert_eq!(as_text(get(&out, "image")), Some("https://x/1"));
    let offers = get(&out, "offers").expect("offers");
    assert!(matches!(get(offers, "price"), Some(JsonValue::Number(n)) if n == "12.5"));
    assert_eq!(as_text(get(offers, "priceCurrency")), Some("USD"));
    assert_eq!(as_text(get(offers, "itemCondition")), Some("new"));
}

#[test]
fn empty_values_are_replaced() {
    let doc = JsonValue::Object(vec![
        member("name", JsonValue::Number("7".to_string())),
        member("image", JsonValue::Array(Vec::new())),
        member("offers", text("free")),
    ]);
    let two = vec!["https://a/1".to_string(), "https://a/2".to_string()];
    let out = normalize_product_with(doc, &two, "s");
    assert_eq!(as_text(get(&out, "name")), Some("Untitled Product"));
    assert!(matches!(get(&out, "image"), Some(JsonValue::Array(items)) if items.len() == 2));
    assert!(matches!(get(&out, "offers"), Some(JsonValue::Object(m)) if m.len() == 3));
    let blank = JsonValue::Object(vec![member("image", text("  ")), member("name", text(" \t"))]);
    let out = normalize_product_with(blank, &two, "s");
    assert!(matches!(get(&out, "image"), Some(JsonValue::Array(items)) if items.len() == 2));
    assert_eq!(as_text(get(&out, "name")), Some("Untitled Product"));
    let kept = JsonValue::Object(vec![member("image", JsonValue::Bool(true))]);
    let out = normalize_product_with(kept, &two, "s");
    assert!(matches!(get(&out, "image"), Some(JsonValue::Bool(true))));
}

#[test]
fn missing_sku_gets_a_fresh_identifier() {
    let mut a = JsonValue::Object(Vec::new());
    let mut b = JsonValue::Object(Vec::new());
    normalize_product_value(&mut a, &images());
    normalize_product_value(&mut b, &images());
    let first = as_text(get(&a, "sku")).expect("sku").to_string();
    let second = as_text(get(&b, "sku")).expect("sku").to_string();
    assert_eq!(first.len(), 36);
    assert_ne!(first, second);
    for (at, c) in first.chars().enumerate() {
        if at == 8 || at == 13 || at == 18 || at == 23 {
            assert_eq!(c, '-');
        } else {
            assert!(c.is_ascii_digit() || ('a'..='f').contains(&c), "digit {} is {}", at, c);
        }
    }
}

#[test]
fn empty_document_is_filled_in() {
    let mut doc = JsonValue::Object(Vec::new());
    normalize_product_value(&mut doc, &images());
    assert_eq!(as_text(get(&doc, "name")), Some("Untitled Product"));
    let offers = get(&doc, "offers").expect("offers");
    assert_eq!(as_text(get(offers, "price")), Some("49.99"));
    assert_eq!(as_text(get(offers, "priceCurrency")), Some("USD"));
    assert_eq!(as_text(get(offers, "itemCondition")), Some("https://schema.org/UsedCondition"));
    match get(&doc, "image") {
        Some(JsonValue::Array(items)) => {
            let urls: Vec<Option<&str>> = items.iter().map(|i| as_text(Some(i))).collect();
            let given = images();
            let wanted: Vec<Option<&str>> = given.iter().take(6).map(|u| Some(u.as_str())).collect();
            assert_eq!(urls, wanted);
        }
        other => panic!("unexpected image: {:?}", other),
    }
}

#[test]
fn members_are_replaced_in_place_or_added() {
    let mut members = vec![member("a", text("1")), member("b", text("2"))];
    put_member(&mut members, "a", text("3"));
    put_member(&mut members, "c", text("4"));
    let keys: Vec<&str> = members.iter().map(|m| m.key.as_str()).collect();
    assert_eq!(keys, vec!["a", "b", "c"]);
    assert!(matches!(&members[0].value, JsonValue::Text(t) if t == "3"));
    assert_eq!(find_member(&members, "b"), Some(1));
    assert_eq!(find_member(&members, "z"), None);
}

#[test]
fn stage_extract_product_fallback_ok() {
    let images = vec!["https://example.com/a.jpg".to_string()];
    let (product, fell_back) =
        product_or_fallback(Err(IngestError::Llm("offline".to_string())), "test-sku-001", &images);
    assert!(fell_back);
    assert!(!product.name.trim().is_empty());
    let imgs = product.image.as_vec();
    assert!(!imgs.is_empty());
}

#[test]
fn fallback_product_is_fixed_but_for_sku_and_images() {
    let one = vec!["https://a/1".to_string()];
    let p = fallback_product("S1", &one);
    assert_eq!(p.name, "S1 listing");
    assert!(matches!(&p.image, ImageField::Single(u) if u == "https://a/1"));
    assert_eq!(p.offers.price, Some(Decimal { micros: 99_000_000 }));
    assert_eq!(p.offers.priceCurrency.as_deref(), Some("USD"));
    assert_eq!(p.description.as_deref(), Some("Automated fallback description"));
    assert_eq!(p.brand.as_ref().and_then(|b| b.name.as_deref()), Some("Hermes Labs"));
    assert_eq!(p.color.as_deref(), Some("Black"));
    assert_eq!(p.material.as_deref(), Some("Mixed materials"));
    assert_eq!(p.sku.as_deref(), Some("S1"));
    assert_eq!(p.mpn.as_deref(), Some("MPN-S1"));
    let h = p.height.as_ref().expect("height");
    assert_eq!(h.unitCode.as_deref(), Some("INH"));
    assert_eq!(h.value, Some(Decimal { micros: 5_000_000 }));
    assert_eq!(p.width.as_ref().expect("width").value, Some(Decimal { micros: 8_000_000 }));
    assert_eq!(p.depth.as_ref().expect("depth").value, Some(Decimal { micros: 12_000_000 }));
    let w = p.weight.as_ref().expect("weight");
    assert_eq!(w.unitCode.as_deref(), Some("LBR"));
    assert_eq!(w.unitText.as_deref(), Some("Pounds"));
    assert_eq!(w.value, Some(Decimal { micros: 3_000_000 }));
    let two = vec!["https://a/1".to_string(), "https://a/2".to_string()];
    assert!(matches!(&fallback_product("S1", &two).image, ImageField::Multiple(v) if v.len() == 2));
    assert!(matches!(&fallback_product("S1", &Vec::new()).image, ImageField::Multiple(v) if v.is_empty()));
}

#[test]
fn read_product_is_kept() {
    let p = fallback_product("other", &Vec::new());
    let (product, fell_back) = product_or_fallback(Ok(p), "S1", &Vec::new());
    assert!(!fell_back);
    assert_eq!(product.name, "other listing");
}

#[test]
fn extraction_needs_an_image() {
    assert!(matches!(extraction_payload("S1", &Vec::new()), Err(IngestError::Parse)));
    let payload = extraction_payload("S1", &images()).expect("payload");
    assert_eq!(as_text(get(&payload, "sku")), Some("S1"));
    assert!(matches!(get(&payload, "images"), Some(JsonValue::Array(items)) if items.len() == 8));
    assert!(as_text(get(&payload, "instruction")).expect("instruction").starts_with("Return a schema.org"));
    assert_eq!(IngestError::Parse.message(), "unable to parse product json");
    assert_eq!(IngestError::Llm("x".to_string()).message(), "llm request failed: x");
}
