//! Turning a model's answer into a product.

#![allow(non_snake_case)]

use crate::decimal::Decimal;
use crate::hsuf::models::{quantity_view, Brand, ImageField, Offer, Product, QuantitativeValue};
use crate::ids::{fresh_id, hyphenated};
use crate::json::{
    find_member, get_key, has_key, members_model, put_key, put_member, text_items, JsonMember,
    JsonModel, JsonValue,
};
use crate::text::{
    concat2, copy_str, copy_strings, is_blank, is_blank_str, join, join_spec, lines, lines_spec,
    opt_text, starts_with, starts_with_spec, texts, trim, trim_spec, trim_start, trim_start_spec,
};
use vstd::prelude::*;

verus! {

/// Why a model's answer gave no product.
#[derive(Debug)]
pub enum IngestError {
    Llm(String),
    Parse,
}

impl IngestError {
    /// The text of the failure.
    pub open spec fn message_spec(self) -> Seq<char> {
        match self {
            IngestError::Llm(detail) => "llm request failed: "@ + detail@,
            IngestError::Parse => "unable to parse product json"@,
        }
    }

    /// The text of the failure.
    pub fn message(&self) -> (out: String)
        ensures
            out@ == self.message_spec(),
    {
        match self {
            IngestError::Llm(detail) => concat2("llm request failed: ", detail.as_str()),
            IngestError::Parse => copy_str("unable to parse product json"),
        }
    }
}

/// The instruction that opens every extraction.
pub const SYSTEM_PROMPT: &'static str =
    "\nYou are a product ingestion agent. Given a set of product image URLs and metadata, respond with a valid\nJSON object that conforms to schema.org Product. Include `image`, `offers`, and dimensional metadata when\npossible. Omitting required fields is not allowed. If uncertain, make the best reasonable assumption and note it in\nthe description. Output JSON only.\n";

/// What the extraction asks of the model, word for word.
pub const EXTRACT_INSTRUCTION: &'static str =
    "Return a schema.org Product JSON with offers.price, offers.priceCurrency, image, color, material, dimensions, and weight when possible.";

/// The document sent to the model: the stock keeping unit, the images and the instruction.
pub open spec fn extraction_payload_spec(sku: Seq<char>, images: Seq<Seq<char>>) -> JsonModel {
    JsonModel::Object(
        seq![
            ("sku"@, JsonModel::Text(sku)),
            ("images"@, JsonModel::Array(text_items(images))),
            ("instruction"@, JsonModel::Text(EXTRACT_INSTRUCTION@)),
        ],
    )
}

/// The document sent to the model for `sku` and `images`; `Parse` when there is no image.
pub fn extraction_payload(sku: &str, images: &Vec<String>) -> (out: Result<JsonValue, IngestError>)
    ensures
        images@.len() == 0 ==> out is Err && out->Err_0 is Parse,
        images@.len() > 0 ==> out is Ok && out->Ok_0.model() == extraction_payload_spec(
            sku@,
            texts(images@),
        ),
{
    if images.len() == 0 {
        return Err(IngestError::Parse);
    }
    let mut members: Vec<JsonMember> = Vec::new();
    members.push(JsonMember { key: copy_str("sku"), value: JsonValue::text(sku) });
    members.push(
        JsonMember { key: copy_str("images"), value: JsonValue::text_array(images, images.len()) },
    );
    members.push(
        JsonMember { key: copy_str("instruction"), value: JsonValue::text(EXTRACT_INSTRUCTION) },
    );
    proof {
        JsonValue::lemma_object_model(members);
        assert(texts(images@).take(images@.len() as int) =~= texts(images@));
        assert(members_model(members@) =~= seq![
            ("sku"@, JsonModel::Text(sku@)),
            ("images"@, JsonModel::Array(text_items(texts(images@)))),
            ("instruction"@, JsonModel::Text(EXTRACT_INSTRUCTION@)),
        ]);
    }
    Ok(JsonValue::Object(members))
}

/// Whether a line opens or closes a fenced block.
pub open spec fn is_fence(line: Seq<char>) -> bool {
    starts_with_spec(trim_start_spec(line), "```"@)
}

/// The lines before the first fence line.
pub open spec fn until_fence(all: Seq<Seq<char>>) -> Seq<Seq<char>>
    decreases all.len(),
{
    if all.len() == 0 || is_fence(all[0]) {
        Seq::empty()
    } else {
        seq![all[0]] + until_fence(all.drop_first())
    }
}

/// `input` trimmed; and when it then opens with a fence, the lines after
/// the first up to the next fence line, joined by line feeds.
pub open spec fn strip_fence_spec(input: Seq<char>) -> Seq<char> {
    let trimmed = trim_spec(input);
    if starts_with_spec(trimmed, "```"@) {
        let all = lines_spec(trimmed);
        join_spec(until_fence(all.subrange(1, all.len() as int)), "\n"@)
    } else {
        trimmed
    }
}

/// `input` without the fence that a model may put around its answer.
pub fn strip_markdown_fence(input: &str) -> (out: String)
    ensures
        out@ == strip_fence_spec(input@),
{
    let trimmed = trim(input);
    if !starts_with(trimmed.as_str(), "```") {
        return trimmed;
    }
    let all = lines(trimmed.as_str());
    let ghost rest = texts(all@).subrange(1, all@.len() as int);
    let mut body: Vec<String> = Vec::new();
    let mut i: usize = 1;
    proof {
        assert(texts(all@).len() == all@.len());
        assert(texts(body@) =~= Seq::empty());
    }
    if all.len() == 0 {
        proof {
            reveal_strlit("```");
            assert(trimmed@.len() >= 3);
            lemma_lines_of_nonempty(trimmed@);
        }
        return join(&body, "\n");
    }
    assert(texts(all@).subrange(1, all@.len() as int) =~= rest);
    assert(Seq::<Seq<char>>::empty() + until_fence(rest) =~= until_fence(rest));
    assert(strip_fence_spec(input@) == join_spec(until_fence(rest), "\n"@));
    while i < all.len()
        invariant
            1 <= i <= all@.len(),
            rest == texts(all@).subrange(1, all@.len() as int),
            strip_fence_spec(input@) == join_spec(until_fence(rest), "\n"@),
            until_fence(rest) == texts(body@) + until_fence(
                texts(all@).subrange(i as int, all@.len() as int),
            ),
        decreases all@.len() - i,
    {
        let ghost tail = texts(all@).subrange(i as int, all@.len() as int);
        assert(tail[0] == all@[i as int]@);
        let start = trim_start(all[i].as_str());
        if starts_with(start.as_str(), "```") {
            assert(until_fence(tail) =~= Seq::empty());
            assert(texts(body@) + Seq::<Seq<char>>::empty() =~= texts(body@));
            return join(&body, "\n");
        }
        let ghost before = texts(body@);
        body.push(all[i].clone());
        proof {
            assert(texts(body@) =~= before.push(all@[i as int]@));
            assert(tail.drop_first() =~= texts(all@).subrange(i + 1, all@.len() as int));
            assert(before + (seq![tail[0]] + until_fence(tail.drop_first())) =~= before.push(
                tail[0],
            ) + until_fence(tail.drop_first()));
        }
        i += 1;
    }
    proof {
        let tail = texts(all@).subrange(all@.len() as int, all@.len() as int);
        assert(until_fence(tail) =~= Seq::empty());
        assert(texts(body@) + Seq::<Seq<char>>::empty() =~= texts(body@));
    }
    join(&body, "\n")
}

proof fn lemma_lines_of_nonempty(s: Seq<char>)
    requires
        s.len() > 0,
    ensures
        lines_spec(s).len() > 0,
{
    let d = seq!['\n'].to_set();
    let pieces = crate::text::split_spec(s, d);
    crate::text::lemma_split_nonempty(s, d);
    crate::text::lemma_split_nonempty(s.drop_last(), d);
    if pieces.last().len() == 0 {
        assert(d.contains(s.last()));
        assert(pieces.len() >= 2);
    }
}

/// The members of a document that is an object; no members for any other document.
pub open spec fn base_members(doc: JsonModel) -> Seq<(Seq<char>, JsonModel)> {
    match doc {
        JsonModel::Object(m) => m,
        _ => Seq::empty(),
    }
}

/// Whether the name is missing, is no text or is blank.
pub open spec fn needs_name(members: Seq<(Seq<char>, JsonModel)>) -> bool {
    match get_key(members, "name"@) {
        Some(JsonModel::Text(s)) => is_blank(s),
        _ => true,
    }
}

/// Whether an image value stands for no image: null, a blank text or an empty array.
pub open spec fn image_is_empty(value: JsonModel) -> bool {
    match value {
        JsonModel::Null => true,
        JsonModel::Text(s) => is_blank(s),
        JsonModel::Array(items) => items.len() == 0,
        _ => false,
    }
}

/// The first six of `images`.
pub open spec fn first_six(images: Seq<Seq<char>>) -> Seq<Seq<char>> {
    if images.len() >= 6 {
        images.take(6)
    } else {
        images
    }
}

/// `members` with the text `text` under `key` unless the key is there already.
pub open spec fn default_text(
    members: Seq<(Seq<char>, JsonModel)>,
    key: Seq<char>,
    text: Seq<char>,
) -> Seq<(Seq<char>, JsonModel)> {
    if has_key(members, key) {
        members
    } else {
        put_key(members, key, JsonModel::Text(text))
    }
}

/// The members of the offer of a product document, an empty offer when the
/// document has none or one that is no object.
pub open spec fn offer_members(members: Seq<(Seq<char>, JsonModel)>) -> Seq<
    (Seq<char>, JsonModel),
> {
    match get_key(members, "offers"@) {
        Some(JsonModel::Object(m)) => m,
        _ => Seq::empty(),
    }
}

/// An offer with price, currency and condition filled in where they are missing.
pub open spec fn normalized_offer(offer: Seq<(Seq<char>, JsonModel)>) -> Seq<
    (Seq<char>, JsonModel),
> {
    default_text(
        default_text(default_text(offer, "price"@, "49.99"@), "priceCurrency"@, "USD"@),
        "itemCondition"@,
        "https://schema.org/UsedCondition"@,
    )
}

/// The members of a product document with the name filled in.
pub open spec fn with_name(members: Seq<(Seq<char>, JsonModel)>) -> Seq<(Seq<char>, JsonModel)> {
    if needs_name(members) {
        put_key(members, "name"@, JsonModel::Text("Untitled Product"@))
    } else {
        members
    }
}

/// The members of a product document with the images filled in.
pub open spec fn with_image(members: Seq<(Seq<char>, JsonModel)>, images: Seq<Seq<char>>) -> Seq<
    (Seq<char>, JsonModel),
> {
    match get_key(members, "image"@) {
        Some(v) => if image_is_empty(v) {
            put_key(members, "image"@, JsonModel::Array(text_items(first_six(images))))
        } else {
            members
        },
        None => put_key(members, "image"@, JsonModel::Array(text_items(first_six(images)))),
    }
}

/// A product document made fit for reading: always an object; a name, a
/// stock keeping unit, images and an offer with price, currency and
/// condition filled in where the document lacks them; all else unchanged.
pub open spec fn normalized_spec(doc: JsonModel, images: Seq<Seq<char>>, fresh_sku: Seq<char>) -> JsonModel {
    let named = with_name(base_members(doc));
    let keyed = default_text(named, "sku"@, fresh_sku);
    let pictured = with_image(keyed, images);
    JsonModel::Object(
        put_key(
            pictured,
            "offers"@,
            JsonModel::Object(normalized_offer(offer_members(pictured))),
        ),
    )
}

fn put_default_text(members: &mut Vec<JsonMember>, key: &str, text: &str)
    ensures
        members_model(final(members)@) == default_text(members_model(old(members)@), key@, text@),
{
    if find_member(members, key).is_none() {
        put_member(members, key, JsonValue::text(text));
    }
}

fn image_value_is_empty(value: &JsonValue) -> (r: bool)
    ensures
        r == image_is_empty(value.model()),
{
    match value {
        JsonValue::Null => true,
        JsonValue::Text(s) => is_blank_str(s.as_str()),
        JsonValue::Array(items) => {
            proof {
                JsonValue::lemma_array_model(*items);
            }
            items.len() == 0
        },
        JsonValue::Bool(_) => false,
        JsonValue::Number(_) => false,
        JsonValue::Object(_) => false,
    }
}

fn members_of(value: JsonValue) -> (members: Vec<JsonMember>)
    ensures
        members_model(members@) == base_members(value.model()),
{
    match value {
        JsonValue::Object(m) => {
            proof {
                JsonValue::lemma_object_model(m);
            }
            m
        },
        _ => {
            let m: Vec<JsonMember> = Vec::new();
            assert(members_model(m@) =~= Seq::empty());
            m
        },
    }
}

fn fill_name(members: &mut Vec<JsonMember>)
    ensures
        members_model(final(members)@) == with_name(members_model(old(members)@)),
{
    let blank_name = match find_member(members, "name") {
        Some(at) => match &members[at].value {
            JsonValue::Text(s) => is_blank_str(s.as_str()),
            _ => true,
        },
        None => true,
    };
    if blank_name {
        put_member(members, "name", JsonValue::text("Untitled Product"));
    }
}

fn fill_image(members: &mut Vec<JsonMember>, images: &Vec<String>)
    ensures
        members_model(final(members)@) == with_image(
            members_model(old(members)@),
            texts(images@),
        ),
{
    let no_image = match find_member(members, "image") {
        Some(at) => image_value_is_empty(&members[at].value),
        None => true,
    };
    if no_image {
        let pictures = JsonValue::text_array(images, 6);
        proof {
            if images@.len() >= 6 {
                assert(texts(images@).take(6) =~= first_six(texts(images@)));
            }
        }
        put_member(members, "image", pictures);
    }
}

fn take_offer(members: &mut Vec<JsonMember>) -> (out: (Vec<JsonMember>, Option<usize>))
    ensures
        members_model(out.0@) == offer_members(members_model(old(members)@)),
        out.1 is Some <==> has_key(members_model(old(members)@), "offers"@),
        out.1 is Some ==> out.1->0 == crate::json::key_index(
            members_model(old(members)@),
            "offers"@,
        ) && members_model(final(members)@) == members_model(old(members)@).remove(
            out.1->0 as int,
        ),
        out.1 is Some ==> out.1->0 < old(members)@.len() && final(members)@.len() + 1 == old(
            members,
        )@.len(),
        out.1 is None ==> members_model(final(members)@) == members_model(old(members)@),
{
    let ghost before = members_model(members@);
    let found = find_member(members, "offers");
    match found {
        Some(at) => {
            let old_member = members.remove(at);
            assert(old_member.value.model() == before[at as int].1);
            assert(members_model(members@) =~= before.remove(at as int));
            (members_of(old_member.value), found)
        },
        None => {
            let m: Vec<JsonMember> = Vec::new();
            assert(members_model(m@) =~= Seq::empty());
            (m, found)
        },
    }
}

fn fill_offers(members: &mut Vec<JsonMember>)
    ensures
        members_model(final(members)@) == put_key(
            members_model(old(members)@),
            "offers"@,
            JsonModel::Object(normalized_offer(offer_members(members_model(old(members)@)))),
        ),
{
    let ghost before = members_model(members@);
    let (mut offer, found) = take_offer(members);
    put_default_text(&mut offer, "price", "49.99");
    put_default_text(&mut offer, "priceCurrency", "USD");
    put_default_text(&mut offer, "itemCondition", "https://schema.org/UsedCondition");
    let ghost offer_model = members_model(offer@);
    proof {
        JsonValue::lemma_object_model(offer);
    }
    let offer_value = JsonValue::Object(offer);
    match found {
        Some(at) => {
            let ghost left = members_model(members@);
            assert(left == before.remove(at as int));
            members.insert(at, JsonMember { key: copy_str("offers"), value: offer_value });
            assert(members_model(members@) =~= left.insert(
                at as int,
                ("offers"@, JsonModel::Object(offer_model)),
            ));
            assert(members_model(members@) =~= before.update(
                at as int,
                ("offers"@, JsonModel::Object(offer_model)),
            ));
        },
        None => {
            members.push(JsonMember { key: copy_str("offers"), value: offer_value });
            assert(members_model(members@) =~= before.push(
                ("offers"@, JsonModel::Object(offer_model)),
            ));
        },
    }
}

/// A product document made fit for reading, with `fresh_sku` as the stock
/// keeping unit where the document has none.
pub fn normalize_product_with(value: JsonValue, images: &Vec<String>, fresh_sku: &str) -> (out:
    JsonValue)
    ensures
        out.model() == normalized_spec(value.model(), texts(images@), fresh_sku@),
{
    let mut members = members_of(value);
    fill_name(&mut members);
    put_default_text(&mut members, "sku", fresh_sku);
    fill_image(&mut members, images);
    fill_offers(&mut members);
    proof {
        JsonValue::lemma_object_model(members);
    }
    JsonValue::Object(members)
}

/// Makes a product document fit for reading. Where the document has no
/// stock keeping unit it gets a fresh random identifier, written with
/// hyphens as 36 characters.
pub fn normalize_product_value(value: &mut JsonValue, images: &Vec<String>)
    ensures
        exists|bits: u128|
            final(value).model() == normalized_spec(
                old(value).model(),
                texts(images@),
                #[trigger] hyphenated(bits),
            ),
{
    let mut taken = JsonValue::Null;
    std::mem::swap(value, &mut taken);
    let fresh = fresh_id();
    *value = normalize_product_with(taken, images, fresh.as_str());
}

fn inches(n: i32) -> (out: QuantitativeValue)
    ensures
        quantity_view(Some(out)) == Some(
            (Some("INH"@), Some("Inches"@), Some(Decimal { micros: (n * 1_000_000) as i64 })),
        ),
{
    QuantitativeValue {
        unitCode: Some(copy_str("INH")),
        unitText: Some(copy_str("Inches")),
        value: Some(Decimal::from_units(n)),
    }
}

/// Whether `p` is the product that stands in for `sku` with `images`.
pub open spec fn is_fallback(p: Product, sku: Seq<char>, images: Seq<Seq<char>>) -> bool {
    &&& p.name@ == sku + " listing"@
    &&& p.image.texts_spec() == if images.len() == 1 {
            seq![images[0]]
        } else {
            images
        }
    &&& p.image is Single <==> images.len() == 1
    &&& p.offers.price == Some(Decimal { micros: 99_000_000 })
    &&& opt_text(p.offers.priceCurrency) == Some("USD"@)
    &&& p.offers.priceSpecification is None
    &&& opt_text(p.description) == Some("Automated fallback description"@)
    &&& p.brand_name() == Some("Hermes Labs"@)
    &&& opt_text(p.color) == Some("Black"@)
    &&& opt_text(p.material) == Some("Mixed materials"@)
    &&& p.size is None
    &&& opt_text(p.sku) == Some(sku)
    &&& opt_text(p.mpn) == Some("MPN-"@ + sku)
    &&& quantity_view(p.height) == Some(
            (Some("INH"@), Some("Inches"@), Some(Decimal { micros: 5_000_000 }))
        )
    &&& quantity_view(p.width) == Some(
            (Some("INH"@), Some("Inches"@), Some(Decimal { micros: 8_000_000 }))
        )
    &&& quantity_view(p.depth) == Some(
            (Some("INH"@), Some("Inches"@), Some(Decimal { micros: 12_000_000 }))
        )
    &&& quantity_view(p.weight) == Some(
            (Some("LBR"@), Some("Pounds"@), Some(Decimal { micros: 3_000_000 }))
        )
}

/// The product that stands in when a model gives none: named after the
/// stock keeping unit, with the images as they are and fixed values for all else.
pub fn fallback_product(sku: &str, images: &Vec<String>) -> (out: Product)
    ensures
        is_fallback(out, sku@, texts(images@)),
{
    let image = if images.len() == 1 {
        ImageField::Single(images[0].clone())
    } else {
        ImageField::Multiple(copy_strings(images))
    };
    Product {
        name: concat2(sku, " listing"),
        image,
        offers: Offer {
            price: Some(Decimal::from_units(99)),
            priceCurrency: Some(copy_str("USD")),
            priceSpecification: None,
        },
        description: Some(copy_str("Automated fallback description")),
        brand: Some(Brand { name: Some(copy_str("Hermes Labs")) }),
        color: Some(copy_str("Black")),
        material: Some(copy_str("Mixed materials")),
        size: None,
        sku: Some(copy_str(sku)),
        mpn: Some(concat2("MPN-", sku)),
        height: Some(inches(5)),
        width: Some(inches(8)),
        depth: Some(inches(12)),
        weight: Some(
            QuantitativeValue {
                unitCode: Some(copy_str("LBR")),
                unitText: Some(copy_str("Pounds")),
                value: Some(Decimal::from_units(3)),
            },
        ),
    }
}

/// The product of an extraction: the one read from the model's answer, or
/// the stand-in when the model failed or its answer could not be read.
pub fn product_or_fallback(
    read: Result<Product, IngestError>,
    sku: &str,
    images: &Vec<String>,
) -> (out: (Product, bool))
    ensures
        out.1 == (read is Err),
        read is Ok ==> out.0 == read->Ok_0,
        read is Err ==> is_fallback(out.0, sku@, texts(images@)),
{
    match read {
        Ok(product) => (product, false),
        Err(_) => (fallback_product(sku, images), true),
    }
}

} // verus!
