//! From a product to a listing draft.

#![allow(non_snake_case)]

use crate::aspect_map::{lookup, names_increase, AspectMap};
use crate::decimal::{plain_spec, rounded_spec, Decimal};
use crate::ebay::listing::{
    DimensionsPayload, EbayListingDraft, PackageWeightAndSizePayload, WeightPayload,
};
use crate::ebay::taxonomy::{value_texts, Aspect, AspectMode, ItemCardinality, TaxonomyResponse};
use crate::hsuf::measurements::{
    inches_spec, pounds_spec, quantitative_length_to_inches, quantitative_weight_to_pounds,
    round_one, round_two,
};
use crate::hsuf::models::{ImageField, Offer, Product, SizeField};
use crate::text::{
    chars_of, collapse_spec, collapse_whitespace, concat2, copy_str, copy_strings, is_space, join,
    join_spec, lemma_trim_end_is_prefix, lowercase_of, opt_text, rows_of, same_text, split_spec,
    split_trimmed, string_of, string_of_range, strings_of, texts, trim, trim_end_bound,
    trim_end_spec, trim_pieces, trim_spec, trimmed_lower, trimmed_pieces, uppercase_of,
};
use vstd::prelude::*;

verus! {

/// What a draft needs of its surroundings.
#[derive(Debug, Clone, Copy)]
pub struct HsufListingContext<'a> {
    pub taxonomy: &'a TaxonomyResponse,
    pub category_id: &'a str,
    pub default_currency: &'a str,
}

/// Why a product gives no draft.
#[derive(Debug, Clone, Copy, PartialEq, Eq, Structural)]
pub enum TransformError {
    MissingPrice,
    MissingImages,
}

impl TransformError {
    /// The text of the failure.
    pub open spec fn message_spec(self) -> Seq<char> {
        match self {
            TransformError::MissingPrice => "offer missing price information"@,
            TransformError::MissingImages => "product image set is empty"@,
        }
    }

    /// The text of the failure.
    pub fn message(&self) -> (out: String)
        ensures
            out@ == self.message_spec(),
    {
        match self {
            TransformError::MissingPrice => copy_str("offer missing price information"),
            TransformError::MissingImages => copy_str("product image set is empty"),
        }
    }
}

/// A change to a listing: a condition and aspects.
#[derive(Debug)]
pub struct ListingPatch {
    pub condition: Option<String>,
    pub aspects: AspectMap,
}

/// The answer to a change of a listing.
#[derive(Debug)]
pub struct ListingPatchResponse {
}

/// How many characters of a text that is too long for `limit` are looked
/// at: three fewer than the limit, to leave room for the ellipsis.
pub open spec fn kept_length(limit: nat) -> int {
    if limit >= 3 {
        limit - 3
    } else {
        0
    }
}

/// `value` cut to at most `limit` characters: unchanged when it is short
/// enough, else its first `limit - 3` characters without their trailing
/// white space, and an ellipsis.
pub open spec fn truncate_spec(value: Seq<char>, limit: nat) -> Seq<char> {
    if value.len() <= limit {
        value
    } else {
        trim_end_spec(value.take(kept_length(limit))) + "..."@
    }
}

/// A text that is cut ends with the ellipsis and is no longer than the
/// limit; what stands before the ellipsis is a beginning of the text and
/// does not end in white space.
pub proof fn lemma_truncated_is_a_marked_prefix(value: Seq<char>, limit: nat)
    requires
        limit >= 3,
        value.len() > limit,
    ensures
        ({
            let out = truncate_spec(value, limit);
            let kept = out.take(out.len() - 3);
            &&& 3 <= out.len() <= limit
            &&& out.skip(out.len() - 3) == "..."@
            &&& kept == value.take(kept.len() as int)
            &&& kept.len() == 0 || !is_space(kept.last())
        }),
{
    let head = value.take(kept_length(limit));
    let kept = trim_end_spec(head);
    lemma_trim_end_is_prefix(head);
    reveal_strlit("...");
    let out = truncate_spec(value, limit);
    assert(out.len() == kept.len() + 3);
    assert(out.take(out.len() - 3) =~= kept);
    assert(out.skip(out.len() - 3) =~= "..."@);
    assert(head.take(kept.len() as int) =~= value.take(kept.len() as int));
}

/// `value` with its words joined by single spaces, in lower case.
pub open spec fn normalize_spec(value: Seq<char>) -> Seq<char> {
    lowercase_of(collapse_spec(value))
}

/// The characters that part the values of one field.
pub open spec fn field_delims() -> Seq<char> {
    "/|,&\n"@
}

/// The values written in one field: parted at `/ | , &` and line feeds,
/// trimmed, the empty ones left out.
pub open spec fn split_field_spec(value: Option<Seq<char>>) -> Seq<Seq<char>> {
    match value {
        Some(raw) => trimmed_pieces(split_spec(raw, field_delims().to_set())),
        None => Seq::empty(),
    }
}

/// One text as a sequence, or no text as the empty sequence.
pub open spec fn one_or_none(value: Option<Seq<char>>) -> Seq<Seq<char>> {
    match value {
        Some(v) => seq![v],
        None => Seq::empty(),
    }
}

/// What a product offers for the aspect named `name`.
pub open spec fn candidates_spec(product: Product, name: Seq<char>) -> Seq<Seq<char>> {
    let n = lowercase_of(trim_spec(name));
    if n == "brand"@ || n == "manufacturer"@ {
        one_or_none(product.brand_name())
    } else if n == "color"@ || n == "main color"@ {
        split_field_spec(opt_text(product.color))
    } else if n == "mpn"@ {
        one_or_none(opt_text(product.mpn))
    } else if n == "sku"@ {
        one_or_none(opt_text(product.sku))
    } else {
        Seq::empty()
    }
}

/// The aspect value that `candidate` selects: the last of `values` that is
/// equal to it once both are normalized, trimmed but in its own letter case.
pub open spec fn allowed_match(values: Seq<Seq<char>>, candidate: Seq<char>) -> Option<
    Seq<char>,
>
    decreases values.len(),
{
    if values.len() == 0 {
        None
    } else if normalize_spec(values.last()) == normalize_spec(candidate) {
        Some(trim_spec(values.last()))
    } else {
        allowed_match(values.drop_last(), candidate)
    }
}

/// For each candidate in order the aspect value that it selects; a candidate
/// that selects none is left out.
pub open spec fn select_allowed(candidates: Seq<Seq<char>>, values: Seq<Seq<char>>) -> Seq<
    Seq<char>,
>
    decreases candidates.len(),
{
    if candidates.len() == 0 {
        Seq::empty()
    } else {
        let before = select_allowed(candidates.drop_last(), values);
        match allowed_match(values, candidates.last()) {
            Some(v) => before.push(v),
            None => before,
        }
    }
}

/// Whether an aspect takes only its own values.
pub open spec fn selection_only(aspect: Aspect) -> bool {
    aspect.mode_spec() == Some(AspectMode::SelectionOnly)
}

/// The candidates that an aspect's constraint lets through.
pub open spec fn constrained_spec(candidates: Seq<Seq<char>>, aspect: Aspect) -> Seq<Seq<char>> {
    if selection_only(aspect) {
        select_allowed(candidates, value_texts(aspect.aspectValues@))
    } else {
        candidates
    }
}

/// What one aspect contributes to the aspects of a listing: its trimmed name
/// and the values stored under it, or nothing.
pub open spec fn aspect_entry_spec(product: Product, aspect: Aspect) -> Option<
    (Seq<char>, Seq<Seq<char>>),
> {
    let name = trim_spec(aspect.localizedAspectName@);
    let filtered = constrained_spec(candidates_spec(product, aspect.localizedAspectName@), aspect);
    if name.len() == 0 || filtered.len() == 0 {
        None
    } else if aspect.cardinality_spec() == ItemCardinality::Multi {
        Some((name, filtered))
    } else {
        Some((name, seq![filtered[0]]))
    }
}

/// The values that a listing holds under `name`: those of the last aspect
/// that contributes under that name.
pub open spec fn aspects_lookup(product: Product, aspects: Seq<Aspect>, name: Seq<char>) -> Option<
    Seq<Seq<char>>,
>
    decreases aspects.len(),
{
    if aspects.len() == 0 {
        None
    } else {
        match aspect_entry_spec(product, aspects.last()) {
            Some(entry) => if entry.0 == name {
                Some(entry.1)
            } else {
                aspects_lookup(product, aspects.drop_last(), name)
            },
            None => aspects_lookup(product, aspects.drop_last(), name),
        }
    }
}

/// The price and the currency of an offer: its own price, else that of its
/// price specification; the currency in upper case, `default_currency` when
/// none is given.
pub open spec fn price_of(offer: Offer, default_currency: Seq<char>) -> Option<
    (Decimal, Seq<char>),
> {
    match offer.price {
        Some(p) => Some(
            (
                p,
                uppercase_of(
                    match offer.priceCurrency {
                        Some(c) => c@,
                        None => default_currency,
                    },
                ),
            ),
        ),
        None => match offer.priceSpecification {
            Some(spec) => match spec.price {
                Some(v) => Some(
                    (
                        v,
                        uppercase_of(
                            match spec.priceCurrency {
                                Some(c) => c@,
                                None => default_currency,
                            },
                        ),
                    ),
                ),
                None => None,
            },
            None => None,
        },
    }
}

/// The size of a product as text.
pub open spec fn size_text(size: Option<SizeField>) -> Option<Seq<char>> {
    match size {
        Some(SizeField::Text(value)) => Some(value@),
        Some(SizeField::Quantitative(q)) => match q.value {
            Some(v) => Some(plain_spec(v.micros as int)),
            None => None,
        },
        Some(SizeField::Specification(spec)) => opt_text(spec.name),
        None => None,
    }
}

/// `label` and `value` as one line, or no line without a value.
pub open spec fn labelled(label: Seq<char>, value: Option<Seq<char>>) -> Seq<Seq<char>> {
    match value {
        Some(v) => seq![label + v],
        None => Seq::empty(),
    }
}

/// The lines of a description made from the product's own fields.
pub open spec fn description_lines(product: Product) -> Seq<Seq<char>> {
    labelled("Brand: "@, product.brand_name()) + labelled("Color: "@, opt_text(product.color))
        + labelled("Material: "@, opt_text(product.material)) + labelled(
        "Size: "@,
        size_text(product.size),
    ) + one_or_none(opt_text(product.description))
}

/// The description made from the product's own fields: its lines, or the
/// product's name when there is no line.
pub open spec fn fallback_description_spec(product: Product) -> Seq<char> {
    if description_lines(product).len() == 0 {
        product.name@
    } else {
        join_spec(description_lines(product), "\n"@)
    }
}

/// The images of a draft: each address trimmed, the empty ones left out.
pub open spec fn kept_images(image: ImageField) -> Seq<Seq<char>> {
    trimmed_pieces(image.texts_spec())
}

/// `value` cut to at most `limit` characters.
pub fn truncate(value: &str, limit: usize) -> (out: String)
    ensures
        out@ == truncate_spec(value@, limit as nat),
{
    let chars = chars_of(value);
    if chars.len() <= limit {
        string_of(&chars)
    } else {
        let keep: usize = if limit >= 3 {
            limit - 3
        } else {
            0
        };
        let end = trim_end_bound(&chars, keep);
        let cut = string_of_range(&chars, 0, end);
        assert(chars@.subrange(0, end as int) =~= chars@.take(end as int));
        concat2(cut.as_str(), "...")
    }
}

/// `value` with its words joined by single spaces, in lower case.
pub fn normalize_text(value: &str) -> (out: String)
    ensures
        out@ == normalize_spec(value@),
{
    let collapsed = collapse_whitespace(value);
    collapsed.as_str().to_lowercase()
}

/// The values written in one field.
pub fn split_field(value: Option<&str>) -> (out: Vec<String>)
    ensures
        texts(out@) == split_field_spec(
            match value {
                Some(v) => Some(v@),
                None => None,
            },
        ),
{
    match value {
        Some(raw) => split_trimmed(raw, "/|,&\n"),
        None => {
            let out: Vec<String> = Vec::new();
            assert(texts(out@) =~= Seq::empty());
            out
        },
    }
}

fn one_text(value: Option<&String>) -> (out: Vec<String>)
    ensures
        texts(out@) == one_or_none(
            match value {
                Some(v) => Some(v@),
                None => None,
            },
        ),
{
    let mut out: Vec<String> = Vec::new();
    match value {
        Some(v) => {
            out.push(v.clone());
            assert(texts(out@) =~= seq![v@]);
        },
        None => {
            assert(texts(out@) =~= Seq::empty());
        },
    }
    out
}

/// The brand of a product as a sequence of at most one name.
pub fn extract_brand(product: &Product) -> (out: Vec<String>)
    ensures
        texts(out@) == one_or_none(product.brand_name()),
{
    one_text(product.brand_name_of())
}

/// What a product offers for an aspect.
pub fn hsuf_values_for_aspect(product: &Product, aspect: &Aspect) -> (out: Vec<String>)
    ensures
        texts(out@) == candidates_spec(*product, aspect.localizedAspectName@),
{
    let n = trimmed_lower(aspect.localizedAspectName.as_str());
    if same_text(n.as_str(), "brand") || same_text(n.as_str(), "manufacturer") {
        extract_brand(product)
    } else if same_text(n.as_str(), "color") || same_text(n.as_str(), "main color") {
        match &product.color {
            Some(c) => split_field(Some(c.as_str())),
            None => split_field(None),
        }
    } else if same_text(n.as_str(), "mpn") {
        one_text(product.mpn.as_ref())
    } else if same_text(n.as_str(), "sku") {
        one_text(product.sku.as_ref())
    } else {
        let out: Vec<String> = Vec::new();
        assert(texts(out@) =~= Seq::empty());
        out
    }
}

fn find_allowed(keys: &Vec<String>, aspect: &Aspect, candidate: &str) -> (out: Option<String>)
    requires
        keys@.len() == aspect.aspectValues@.len(),
        forall|j: int|
            0 <= j < keys@.len() ==> (#[trigger] keys@[j])@ == normalize_spec(
                aspect.aspectValues@[j].localizedValue@,
            ),
    ensures
        opt_text(out) == allowed_match(value_texts(aspect.aspectValues@), candidate@),
{
    let wanted = normalize_text(candidate);
    let ghost vals = value_texts(aspect.aspectValues@);
    let mut j: usize = keys.len();
    assert(vals.take(j as int) =~= vals);
    while j > 0
        invariant
            j <= keys@.len(),
            keys@.len() == aspect.aspectValues@.len(),
            vals == value_texts(aspect.aspectValues@),
            wanted@ == normalize_spec(candidate@),
            forall|k: int|
                0 <= k < keys@.len() ==> (#[trigger] keys@[k])@ == normalize_spec(
                    aspect.aspectValues@[k].localizedValue@,
                ),
            allowed_match(vals, candidate@) == allowed_match(vals.take(j as int), candidate@),
        decreases j,
    {
        let ghost part = vals.take(j as int);
        assert(part.last() == aspect.aspectValues@[j - 1].localizedValue@);
        assert(part.drop_last() =~= vals.take(j - 1));
        if same_text(keys[j - 1].as_str(), wanted.as_str()) {
            return Some(trim(aspect.aspectValues[j - 1].localizedValue.as_str()));
        }
        j -= 1;
    }
    None
}

/// The candidates that an aspect's constraint lets through.
pub fn apply_constraints(values: &Vec<String>, aspect: &Aspect) -> (out: Vec<String>)
    ensures
        texts(out@) == constrained_spec(texts(values@), *aspect),
{
    let only = match aspect.mode() {
        Some(AspectMode::SelectionOnly) => true,
        _ => false,
    };
    if !only {
        return copy_strings(values);
    }
    let mut keys: Vec<String> = Vec::new();
    let mut j: usize = 0;
    while j < aspect.aspectValues.len()
        invariant
            j <= aspect.aspectValues@.len(),
            keys@.len() == j,
            forall|k: int|
                0 <= k < j ==> (#[trigger] keys@[k])@ == normalize_spec(
                    aspect.aspectValues@[k].localizedValue@,
                ),
        decreases aspect.aspectValues@.len() - j,
    {
        keys.push(normalize_text(aspect.aspectValues[j].localizedValue.as_str()));
        j += 1;
    }
    let ghost vals = value_texts(aspect.aspectValues@);
    let mut matched: Vec<String> = Vec::new();
    let mut i: usize = 0;
    assert(texts(values@).take(0) =~= Seq::empty());
    assert(texts(matched@) =~= Seq::empty());
    while i < values.len()
        invariant
            i <= values@.len(),
            keys@.len() == aspect.aspectValues@.len(),
            vals == value_texts(aspect.aspectValues@),
            forall|k: int|
                0 <= k < keys@.len() ==> (#[trigger] keys@[k])@ == normalize_spec(
                    aspect.aspectValues@[k].localizedValue@,
                ),
            texts(matched@) == select_allowed(texts(values@).take(i as int), vals),
        decreases values@.len() - i,
    {
        let ghost before = texts(matched@);
        let ghost part = texts(values@).take(i + 1);
        assert(part.drop_last() =~= texts(values@).take(i as int));
        assert(part.last() == values@[i as int]@);
        match find_allowed(&keys, aspect, values[i].as_str()) {
            Some(v) => {
                let ghost t = v@;
                matched.push(v);
                assert(texts(matched@) =~= before.push(t));
            },
            None => {},
        }
        i += 1;
    }
    assert(texts(values@).take(values@.len() as int) =~= texts(values@));
    matched
}

/// With an aspect that takes only its own values, every value let through
/// is one of the aspect's values, trimmed, and is equal to some candidate
/// once both are normalized.
pub proof fn lemma_selection_only_emits_aspect_values(candidates: Seq<Seq<char>>, aspect: Aspect)
    requires
        selection_only(aspect),
    ensures
        forall|i: int|
            0 <= i < constrained_spec(candidates, aspect).len() ==> exists|j: int, k: int|
                0 <= j < aspect.aspectValues@.len() && 0 <= k < candidates.len()
                    && #[trigger] constrained_spec(candidates, aspect)[i] == trim_spec(
                    #[trigger] aspect.aspectValues@[j].localizedValue@,
                ) && normalize_spec(aspect.aspectValues@[j].localizedValue@) == normalize_spec(
                    #[trigger] candidates[k],
                ),
    decreases candidates.len(),
{
    let vals = value_texts(aspect.aspectValues@);
    let out = constrained_spec(candidates, aspect);
    if candidates.len() > 0 {
        let rest = candidates.drop_last();
        lemma_selection_only_emits_aspect_values(rest, aspect);
        let before = constrained_spec(rest, aspect);
        assert forall|i: int| 0 <= i < out.len() implies exists|j: int, k: int|
            0 <= j < aspect.aspectValues@.len() && 0 <= k < candidates.len() && #[trigger] out[i]
                == trim_spec(#[trigger] aspect.aspectValues@[j].localizedValue@)
                && normalize_spec(aspect.aspectValues@[j].localizedValue@) == normalize_spec(
                #[trigger] candidates[k],
            ) by {
            if i < before.len() {
                assert(out[i] == before[i]);
                let (j, k) = choose|j: int, k: int|
                    0 <= j < aspect.aspectValues@.len() && 0 <= k < rest.len()
                        && #[trigger] before[i] == trim_spec(
                        #[trigger] aspect.aspectValues@[j].localizedValue@,
                    ) && normalize_spec(aspect.aspectValues@[j].localizedValue@)
                        == normalize_spec(#[trigger] rest[k]);
                assert(candidates[k] == rest[k]);
            } else {
                let j = lemma_allowed_match_index(vals, candidates.last());
                assert(vals[j] == aspect.aspectValues@[j].localizedValue@);
                assert(candidates[candidates.len() - 1] == candidates.last());
            }
        }
    }
}

proof fn lemma_allowed_match_index(values: Seq<Seq<char>>, candidate: Seq<char>) -> (j: int)
    requires
        allowed_match(values, candidate) is Some,
    ensures
        0 <= j < values.len(),
        allowed_match(values, candidate) == Some(trim_spec(values[j])),
        normalize_spec(values[j]) == normalize_spec(candidate),
    decreases values.len(),
{
    if normalize_spec(values.last()) == normalize_spec(candidate) {
        values.len() - 1
    } else {
        lemma_allowed_match_index(values.drop_last(), candidate)
    }
}

/// The aspects of a listing: for each aspect of the taxonomy with a name,
/// what the product offers for it and the constraint lets through, all of it
/// or the first value only as the aspect's cardinality says.
pub fn build_aspects(product: &Product, taxonomy: &TaxonomyResponse) -> (out: AspectMap)
    ensures
        names_increase(out@),
        forall|name: Seq<char>|
            #![trigger lookup(out@, name)]
            lookup(out@, name) == aspects_lookup(*product, taxonomy.aspects@, name),
{
    let mut values = AspectMap::new();
    let mut i: usize = 0;
    assert(taxonomy.aspects@.take(0) =~= Seq::empty());
    while i < taxonomy.aspects.len()
        invariant
            i <= taxonomy.aspects@.len(),
            forall|name: Seq<char>|
                #![trigger lookup(values@, name)]
                lookup(values@, name) == aspects_lookup(
                    *product,
                    taxonomy.aspects@.take(i as int),
                    name,
                ),
        decreases taxonomy.aspects@.len() - i,
    {
        let aspect = &taxonomy.aspects[i];
        let ghost part = taxonomy.aspects@.take(i + 1);
        let ghost old_map = values@;
        proof {
            assert(part.drop_last() =~= taxonomy.aspects@.take(i as int));
            assert(part.last() == *aspect);
        }
        let name = trim(aspect.localizedAspectName.as_str());
        let candidates = hsuf_values_for_aspect(product, aspect);
        let filtered = apply_constraints(&candidates, aspect);
        if name.as_str().is_empty() || filtered.len() == 0 {
            assert(texts(filtered@).len() == filtered@.len());
            assert(aspect_entry_spec(*product, *aspect) is None);
        } else {
            let stored = match aspect.cardinality() {
                ItemCardinality::Multi => filtered,
                ItemCardinality::Single => {
                    let mut one: Vec<String> = Vec::new();
                    one.push(filtered[0].clone());
                    assert(texts(one@) =~= seq![texts(filtered@)[0]]);
                    one
                },
            };
            assert(aspect_entry_spec(*product, *aspect) == Some((name@, texts(stored@))));
            values.insert(name, stored);
        }
        proof {
            assert forall|n: Seq<char>| #![trigger lookup(values@, n)]
                lookup(values@, n) == aspects_lookup(*product, part, n) by {
                assert(lookup(old_map, n) == aspects_lookup(
                    *product,
                    taxonomy.aspects@.take(i as int),
                    n,
                ));
            }
        }
        i += 1;
    }
    assert(taxonomy.aspects@.take(taxonomy.aspects@.len() as int) =~= taxonomy.aspects@);
    let _ = values.len();
    values
}

/// The images of a draft, or `MissingImages` when none is left.
pub fn extract_images(images: &ImageField) -> (out: Result<Vec<String>, TransformError>)
    ensures
        kept_images(*images).len() == 0 ==> out == Err::<Vec<String>, TransformError>(
            TransformError::MissingImages,
        ),
        kept_images(*images).len() > 0 ==> out is Ok && texts(out->Ok_0@) == kept_images(*images),
{
    let all = images.as_vec();
    let r = rows_of(&all);
    let kept = trim_pieces(&r);
    let cleaned = strings_of(&kept);
    assert(texts(cleaned@).len() == cleaned@.len());
    if cleaned.len() == 0 {
        return Err(TransformError::MissingImages);
    }
    Ok(cleaned)
}

/// The price and the currency of an offer, or `MissingPrice`.
pub fn extract_price(offer: &Offer, default_currency: &str) -> (out: Result<
    (Decimal, String),
    TransformError,
>)
    ensures
        price_of(*offer, default_currency@) is None ==> out == Err::<
            (Decimal, String),
            TransformError,
        >(TransformError::MissingPrice),
        price_of(*offer, default_currency@) is Some ==> out is Ok && (
        out->Ok_0.0,
        out->Ok_0.1@,
    ) == price_of(*offer, default_currency@)->0,
{
    if let Some(price) = offer.price {
        let currency = match &offer.priceCurrency {
            Some(c) => c.as_str().to_uppercase(),
            None => default_currency.to_uppercase(),
        };
        return Ok((price, currency));
    }
    if let Some(spec) = &offer.priceSpecification {
        if let Some(value) = spec.price {
            let currency = match &spec.priceCurrency {
                Some(c) => c.as_str().to_uppercase(),
                None => default_currency.to_uppercase(),
            };
            return Ok((value, currency));
        }
    }
    Err(TransformError::MissingPrice)
}

/// The size of a product as text.
pub fn resolve_size(size: &SizeField) -> (out: Option<String>)
    ensures
        opt_text(out) == size_text(Some(*size)),
{
    match size {
        SizeField::Text(value) => Some(value.clone()),
        SizeField::Quantitative(q) => match q.value {
            Some(v) => Some(v.format_plain()),
            None => None,
        },
        SizeField::Specification(spec) => match &spec.name {
            Some(n) => Some(n.clone()),
            None => None,
        },
    }
}

fn push_labelled(lines: &mut Vec<String>, label: &str, value: Option<&String>)
    ensures
        texts(final(lines)@) == texts(old(lines)@) + labelled(
            label@,
            match value {
                Some(v) => Some(v@),
                None => None,
            },
        ),
{
    let ghost before = texts(lines@);
    match value {
        Some(v) => {
            lines.push(concat2(label, v.as_str()));
            assert(texts(lines@) =~= before + seq![label@ + v@]);
        },
        None => {
            assert(texts(lines@) =~= before + Seq::<Seq<char>>::empty());
        },
    }
}

/// The description made from the product's own fields.
pub fn build_fallback_description(product: &Product) -> (out: String)
    ensures
        out@ == fallback_description_spec(*product),
{
    let mut lines: Vec<String> = Vec::new();
    assert(texts(lines@) =~= Seq::empty());
    push_labelled(&mut lines, "Brand: ", product.brand_name_of());
    push_labelled(&mut lines, "Color: ", product.color.as_ref());
    push_labelled(&mut lines, "Material: ", product.material.as_ref());
    let size = match &product.size {
        Some(s) => resolve_size(s),
        None => None,
    };
    push_labelled(&mut lines, "Size: ", size.as_ref());
    let ghost before = texts(lines@);
    match &product.description {
        Some(d) => {
            lines.push(d.clone());
            assert(texts(lines@) =~= before + seq![d@]);
        },
        None => {
            assert(texts(lines@) =~= before + Seq::<Seq<char>>::empty());
        },
    }
    assert(texts(lines@) =~= description_lines(*product));
    assert(texts(lines@).len() == lines@.len());
    if lines.len() == 0 {
        product.name.clone()
    } else {
        join(&lines, "\n")
    }
}

/// Why `product` gives no draft, if it gives none: it has no price, or no image.
pub open spec fn draft_fault(product: Product, default_currency: Seq<char>) -> Option<
    TransformError,
> {
    if price_of(product.offers, default_currency) is None {
        Some(TransformError::MissingPrice)
    } else if kept_images(product.image).len() == 0 {
        Some(TransformError::MissingImages)
    } else {
        None
    }
}

/// Whether `draft` is the draft of a listing for `product` in the category
/// `category_id` with the aspects `aspects`: title and description cut to 80
/// and 50000 characters, the price with its currency, one piece, the
/// product's values for each aspect, and its images.
pub open spec fn is_draft_of(
    draft: EbayListingDraft,
    product: Product,
    aspects: Seq<Aspect>,
    category_id: Seq<char>,
    default_currency: Seq<char>,
) -> bool {
    &&& draft.sku@ == match product.sku {
        Some(s) => s@,
        None => "hsuf-sku"@,
    }
    &&& draft.title@ == truncate_spec(product.name@, 80)
    &&& draft.description@ == truncate_spec(
        match product.description {
            Some(d) => d@,
            None => fallback_description_spec(product),
        },
        50000,
    )
    &&& (draft.price, draft.currency@) == price_of(product.offers, default_currency)->0
    &&& draft.category_id@ == category_id
    &&& draft.quantity == 1
    &&& names_increase(draft.aspects@)
    &&& forall|name: Seq<char>|
        #![trigger lookup(draft.aspects@, name)]
        lookup(draft.aspects@, name) == aspects_lookup(product, aspects, name)
    &&& texts(draft.images@) == kept_images(product.image)
}

/// The draft of a listing for `product`: price and images must be there;
/// title and description are cut to 80 and 50000 characters.
pub fn build_listing_draft(product: &Product, ctx: HsufListingContext<'_>) -> (out: Result<
    EbayListingDraft,
    TransformError,
>)
    ensures
        match draft_fault(*product, ctx.default_currency@) {
            Some(e) => out == Err::<EbayListingDraft, TransformError>(e),
            None => out is Ok && is_draft_of(
                out->Ok_0,
                *product,
                ctx.taxonomy.aspects@,
                ctx.category_id@,
                ctx.default_currency@,
            ),
        },
{
    let (price, currency) = match extract_price(&product.offers, ctx.default_currency) {
        Ok(found) => found,
        Err(e) => {
            return Err(e);
        },
    };
    let images = match extract_images(&product.image) {
        Ok(found) => found,
        Err(e) => {
            return Err(e);
        },
    };
    let aspects = build_aspects(product, ctx.taxonomy);
    let description = match &product.description {
        Some(d) => d.clone(),
        None => build_fallback_description(product),
    };
    Ok(
        EbayListingDraft {
            sku: match &product.sku {
                Some(s) => s.clone(),
                None => copy_str("hsuf-sku"),
            },
            title: truncate(product.name.as_str(), 80),
            description: truncate(description.as_str(), 50000),
            price,
            currency,
            category_id: copy_str(ctx.category_id),
            quantity: 1,
            aspects,
            images,
        },
    )
}

/// The smallest weight that a package is given, a tenth of a pound.
pub open spec fn least_weight() -> int {
    100_000
}

/// The package of a product: its weight in pounds, at least a tenth, rounded
/// to two fractional digits, and its three lengths in inches rounded to one;
/// nothing unless all four convert and fit.
pub open spec fn package_spec(product: Product) -> Option<(int, int, int, int)> {
    let h = inches_spec(product.height);
    let w = inches_spec(product.width);
    let l = inches_spec(product.depth);
    let p = pounds_spec(product.weight);
    if h is Some && w is Some && l is Some && p is Some {
        let weight = rounded_spec(
            if p->0 < least_weight() {
                least_weight()
            } else {
                p->0
            },
            10_000,
        );
        let height = rounded_spec(h->0, 100_000);
        let length = rounded_spec(l->0, 100_000);
        let width = rounded_spec(w->0, 100_000);
        if weight <= i64::MAX && height <= i64::MAX && length <= i64::MAX && width <= i64::MAX {
            Some((weight, height, length, width))
        } else {
            None
        }
    } else {
        None
    }
}

/// Whether `package` is the package of `product`: in pounds and inches,
/// and none unless all four measures convert.
pub open spec fn is_package_of(package: Option<PackageWeightAndSizePayload>, product: Product) -> bool {
    &&& package is Some <==> package_spec(product) is Some
    &&& package is Some ==> ({
        let pack = package->0;
        let want = package_spec(product)->0;
        &&& pack.package_weight.value.micros == want.0
        &&& pack.package_weight.unit@ == "POUND"@
        &&& pack.package_size.height.micros == want.1
        &&& pack.package_size.length.micros == want.2
        &&& pack.package_size.width.micros == want.3
        &&& pack.package_size.unit@ == "INCH"@
    })
}

/// The package of a product, when its height, width, depth and weight all convert.
pub fn estimate_package(product: &Product) -> (out: Option<PackageWeightAndSizePayload>)
    ensures
        is_package_of(out, *product),
{
    let height = match quantitative_length_to_inches(&product.height) {
        Some(v) => v,
        None => {
            return None;
        },
    };
    let width = match quantitative_length_to_inches(&product.width) {
        Some(v) => v,
        None => {
            return None;
        },
    };
    let length = match quantitative_length_to_inches(&product.depth) {
        Some(v) => v,
        None => {
            return None;
        },
    };
    let weight = match quantitative_weight_to_pounds(&product.weight) {
        Some(v) => v,
        None => {
            return None;
        },
    };
    let floor = Decimal { micros: 100_000 };
    let w2 = match round_two(weight.at_least(floor)) {
        Some(v) => v,
        None => {
            return None;
        },
    };
    let h1 = match round_one(height) {
        Some(v) => v,
        None => {
            return None;
        },
    };
    let l1 = match round_one(length) {
        Some(v) => v,
        None => {
            return None;
        },
    };
    let wd1 = match round_one(width) {
        Some(v) => v,
        None => {
            return None;
        },
    };
    Some(
        PackageWeightAndSizePayload {
            package_weight: WeightPayload { value: w2, unit: "POUND" },
            package_size: DimensionsPayload { height: h1, length: l1, width: wd1, unit: "INCH" },
        },
    )
}

} // verus!
