//! The stages that need nothing but their inputs.

#![allow(non_snake_case)]

use crate::decimal::Decimal;
use crate::ebay::taxonomy::{Aspect, AspectConstraint, AspectValue, TaxonomyResponse};
use crate::ids::{fresh_id, hyphenated};
use crate::models::{CategorySelectionInput, ImagesSource, ListingRequest};
use crate::pipeline::outputs::{CategoryAlternative, StageOutput};
use crate::pipeline::seed::selected_position;
use crate::pipeline::{
    aspect_views, CategoryDefinition, CategorySelection, ConditionBundle, DemoCredentials,
    PipelineConfig, PipelineError, PipelineErrorKind, StageOutcome, TaxonomyAspect, TaxonomySpec,
};
use crate::text::{
    chars_of, concat2, concat3, contains, contains_spec, copy_str, copy_strings, ends_with,
    ends_with_spec, first_strings, has_any_char, lemma_trimmed_pieces_of_trimmed, list2, list3,
    list4, lowercase_of, opt_text, prefix, prefix_spec, rows, rows_of, same_text, split_chars,
    split_spec, strings_of, texts, trim, trim_pieces, trim_spec, trimmed_pieces,
};
use vstd::prelude::*;

verus! {

/// The characters that part the addresses in a single text.
pub open spec fn image_delims() -> Seq<char> {
    "\n,;|"@
}

/// Whether `value` holds one of the characters that part addresses.
pub open spec fn has_image_delim(value: Seq<char>) -> bool {
    exists|k: int| 0 <= k < value.len() && image_delims().contains(#[trigger] value[k])
}

/// The entries of a single text: its pieces between delimiters, trimmed and
/// without the empty ones, when it holds a delimiter; else the text itself, trimmed.
pub open spec fn tokenize_spec(value: Seq<char>) -> Seq<Seq<char>> {
    if has_image_delim(value) {
        trimmed_pieces(split_spec(value, image_delims().to_set()))
    } else {
        seq![trim_spec(value)]
    }
}

/// The entries of an images source: those of the single text, or the
/// sequence as it is.
pub open spec fn source_entries(source: ImagesSource) -> Seq<Seq<char>> {
    match source {
        ImagesSource::Single(value) => tokenize_spec(value@),
        ImagesSource::Multiple(values) => texts(values@),
    }
}

/// `url` with the demo signature: unchanged when it has one, else with
/// `signature=demo` added to its query.
pub open spec fn signed_spec(url: Seq<char>) -> Seq<char> {
    if contains_spec(url, "signature=demo"@) {
        url
    } else if contains_spec(url, "?"@) {
        url + "&signature=demo"@
    } else {
        url + "?signature=demo"@
    }
}

/// Every one of `urls` with the demo signature.
pub open spec fn signed_all(urls: Seq<Seq<char>>) -> Seq<Seq<char>> {
    Seq::new(urls.len(), |i: int| signed_spec(urls[i]))
}

/// `items` without repetitions: of equal items the first stays.
pub open spec fn dedup_spec(items: Seq<Seq<char>>) -> Seq<Seq<char>>
    decreases items.len(),
{
    if items.len() == 0 {
        Seq::empty()
    } else {
        let before = dedup_spec(items.drop_last());
        if before.contains(items.last()) {
            before
        } else {
            before.push(items.last())
        }
    }
}

/// The images of a request before they are checked: the entries trimmed,
/// the empty ones left out, signed when asked for, repetitions removed.
pub open spec fn resolved_spec(source: ImagesSource, signed: bool) -> Seq<Seq<char>> {
    let entries = trimmed_pieces(source_entries(source));
    dedup_spec(
        if signed {
            signed_all(entries)
        } else {
            entries
        },
    )
}

/// What `Url::parse` makes of `url`: the scheme and the host of the address,
/// or nothing when `url` is no address.
pub uninterp spec fn url_parts(url: Seq<char>) -> Option<(Seq<char>, Option<Seq<char>>)>;

/// The scheme of an address, or nothing when `url` is no address.
pub open spec fn url_scheme(url: Seq<char>) -> Option<Seq<char>> {
    match url_parts(url) {
        Some((scheme, _)) => Some(scheme),
        None => None,
    }
}

/// The scheme and the host of an address.
pub struct UrlParts {
    pub scheme: String,
    pub host: Option<String>,
}

/// `Url::parse` of the url crate as reqwest hands it on, with `scheme` and
/// `host_str` of the parsed address: the result depends on the text alone.
#[verifier::external_body]
fn parse_url(url: &str) -> (out: Option<UrlParts>)
    ensures
        match out {
            Some(parts) => url_parts(url@) == Some((parts.scheme@, opt_text(parts.host))),
            None => url_parts(url@) is None,
        },
{
    match reqwest::Url::parse(url) {
        Ok(parsed) => Some(
            UrlParts {
                scheme: parsed.scheme().to_string(),
                host: parsed.host_str().map(|h| h.to_string()),
            },
        ),
        Err(_) => None,
    }
}

/// Whether `host`, in lower case, is one of `allowed` or ends with a dot and one of them.
pub open spec fn host_allowed_spec(host: Seq<char>, allowed: Seq<Seq<char>>) -> bool {
    exists|i: int|
        0 <= i < allowed.len() && (lowercase_of(host) == #[trigger] allowed[i] || ends_with_spec(
            lowercase_of(host),
            "."@ + allowed[i],
        ))
}

/// What is wrong with one image address, if anything: it is no address, its
/// scheme is neither `http` nor `https`, or its host is not allowed.
pub open spec fn url_fault(url: Seq<char>, allowlist: Option<Seq<Seq<char>>>) -> Option<
    Seq<char>,
> {
    match url_parts(url) {
        None => Some("invalid_image_url: "@ + url),
        Some((scheme, host)) => if scheme != "http"@ && scheme != "https"@ {
            Some("unsupported_url_scheme: "@ + url)
        } else if allowlist is Some && host is Some && !host_allowed_spec(host->0, allowlist->0) {
            Some("domain_not_allowed: "@ + host->0)
        } else {
            None
        },
    }
}

/// What is wrong with the first address of `urls` that has a fault.
pub open spec fn first_fault(urls: Seq<Seq<char>>, allowlist: Option<Seq<Seq<char>>>) -> Option<
    Seq<char>,
>
    decreases urls.len(),
{
    if urls.len() == 0 {
        None
    } else {
        match url_fault(urls[0], allowlist) {
            Some(m) => Some(m),
            None => first_fault(urls.drop_first(), allowlist),
        }
    }
}

/// Why a list of images is refused, if it is: too many, none, or a faulty address.
pub open spec fn images_fault(
    urls: Seq<Seq<char>>,
    max_images: nat,
    allowlist: Option<Seq<Seq<char>>>,
) -> Option<Seq<char>> {
    if urls.len() > max_images {
        Some("too_many_images"@)
    } else if urls.len() == 0 {
        Some("no images provided"@)
    } else {
        first_fault(urls, allowlist)
    }
}

/// The view of an optional list of strings.
pub open spec fn opt_texts(list: Option<Vec<String>>) -> Option<Seq<Seq<char>>> {
    match list {
        Some(v) => Some(texts(v@)),
        None => None,
    }
}

/// The first `n` of `urls`, or all of them when there are fewer.
pub open spec fn leading(urls: Seq<Seq<char>>, n: nat) -> Seq<Seq<char>> {
    if urls.len() >= n {
        urls.take(n as int)
    } else {
        urls
    }
}

/// Whether `output` is the report of the images `urls`: their number, the
/// first `shown` of them, whether they were signed, and whether the client
/// supplied them.
pub open spec fn is_images_report(
    output: StageOutput,
    urls: Seq<Seq<char>>,
    signed: bool,
    shown: nat,
    supplied: bool,
) -> bool {
    output matches StageOutput::ResolveImages { count, preview, use_signed_urls, overridden }
        && count == urls.len() && texts(preview@) == leading(urls, shown) && use_signed_urls
        == signed && overridden == supplied
}

/// The entries of a single text.
pub fn tokenize(value: &str) -> (out: Vec<String>)
    ensures
        texts(out@) == tokenize_spec(value@),
{
    let chars = chars_of(value);
    let delims = chars_of("\n,;|");
    if has_any_char(&chars, &delims) {
        let pieces = split_chars(&chars, &delims);
        let kept = trim_pieces(&pieces);
        strings_of(&kept)
    } else {
        let mut out: Vec<String> = Vec::new();
        out.push(trim(value));
        assert(texts(out@) =~= seq![trim_spec(value@)]);
        out
    }
}

/// The characters that part the hosts of an allow list.
pub open spec fn host_delims() -> Seq<char> {
    ", \n\t"@
}

/// Each piece trimmed and in lower case, the pieces that are then empty left out.
pub open spec fn lowered_pieces(pieces: Seq<Seq<char>>) -> Seq<Seq<char>> {
    pieces.map_values(|p: Seq<char>| lowercase_of(trim_spec(p))).filter(
        |p: Seq<char>| p.len() > 0,
    )
}

/// The hosts that a text allows: its pieces between commas and white space,
/// in lower case; no list at all when that leaves no host.
pub open spec fn allowlist_spec(raw: Seq<char>) -> Option<Seq<Seq<char>>> {
    let hosts = lowered_pieces(split_spec(raw, host_delims().to_set()));
    if hosts.len() == 0 {
        None
    } else {
        Some(hosts)
    }
}

proof fn lemma_lowered_pieces_step(pieces: Seq<Seq<char>>, i: int)
    requires
        0 <= i < pieces.len(),
    ensures
        lowered_pieces(pieces.take(i + 1)) == if lowercase_of(trim_spec(pieces[i])).len() > 0 {
            lowered_pieces(pieces.take(i)).push(lowercase_of(trim_spec(pieces[i])))
        } else {
            lowered_pieces(pieces.take(i))
        },
{
    reveal(Seq::filter);
    let f = |p: Seq<char>| lowercase_of(trim_spec(p));
    let mapped = pieces.take(i + 1).map_values(f);
    assert(mapped.drop_last() =~= pieces.take(i).map_values(f));
    assert(mapped.last() == lowercase_of(trim_spec(pieces[i])));
}

/// The hosts that images may come from, as the text `raw` lists them.
pub fn parse_domain_allowlist(raw: &str) -> (out: Option<Vec<String>>)
    ensures
        opt_texts(out) == allowlist_spec(raw@),
{
    let chars = chars_of(raw);
    let delims = chars_of(", \n\t");
    let pieces = split_chars(&chars, &delims);
    let mut hosts: Vec<String> = Vec::new();
    let mut i: usize = 0;
    proof {
        reveal(Seq::filter);
        assert(rows(pieces@).take(0).map_values(|p: Seq<char>| lowercase_of(trim_spec(p)))
            =~= Seq::empty());
        assert(texts(hosts@) =~= Seq::empty());
    }
    while i < pieces.len()
        invariant
            i <= pieces@.len(),
            texts(hosts@) == lowered_pieces(rows(pieces@).take(i as int)),
        decreases pieces@.len() - i,
    {
        let ghost before = texts(hosts@);
        let piece = crate::text::string_of(&pieces[i]);
        let host = crate::text::trimmed_lower(piece.as_str());
        proof {
            lemma_lowered_pieces_step(rows(pieces@), i as int);
        }
        if !host.as_str().is_empty() {
            let ghost h = host@;
            hosts.push(host);
            assert(texts(hosts@) =~= before.push(h));
        }
        i += 1;
    }
    assert(rows(pieces@).take(pieces@.len() as int) =~= rows(pieces@));
    assert(texts(hosts@).len() == hosts@.len());
    if hosts.len() == 0 {
        None
    } else {
        Some(hosts)
    }
}

/// Whether `host` is one of `allowed` or below one of them.
pub fn host_allowed(host: &str, allowed: &Vec<String>) -> (r: bool)
    ensures
        r == host_allowed_spec(host@, texts(allowed@)),
{
    let lowered = host.to_lowercase();
    let mut i: usize = 0;
    while i < allowed.len()
        invariant
            i <= allowed@.len(),
            lowered@ == lowercase_of(host@),
            forall|k: int|
                0 <= k < i ==> !(lowered@ == #[trigger] texts(allowed@)[k] || ends_with_spec(
                    lowered@,
                    "."@ + texts(allowed@)[k],
                )),
        decreases allowed@.len() - i,
    {
        let suffix = concat2(".", allowed[i].as_str());
        if same_text(lowered.as_str(), allowed[i].as_str()) || ends_with(
            lowered.as_str(),
            suffix.as_str(),
        ) {
            assert(texts(allowed@)[i as int] == allowed@[i as int]@);
            return true;
        }
        assert(texts(allowed@)[i as int] == allowed@[i as int]@);
        i += 1;
    }
    false
}

fn holds_text(items: &Vec<String>, wanted: &str) -> (r: bool)
    ensures
        r == texts(items@).contains(wanted@),
{
    let mut i: usize = 0;
    while i < items.len()
        invariant
            i <= items@.len(),
            forall|k: int| 0 <= k < i ==> texts(items@)[k] != wanted@,
        decreases items@.len() - i,
    {
        if same_text(items[i].as_str(), wanted) {
            assert(texts(items@)[i as int] == wanted@);
            return true;
        }
        i += 1;
    }
    false
}

/// `values` without repetitions: of equal values the first stays.
pub fn deduplicate(values: Vec<String>) -> (out: Vec<String>)
    ensures
        texts(out@) == dedup_spec(texts(values@)),
{
    let mut result: Vec<String> = Vec::new();
    let mut i: usize = 0;
    assert(texts(values@).take(0) =~= Seq::empty());
    assert(texts(result@) =~= Seq::empty());
    while i < values.len()
        invariant
            i <= values@.len(),
            texts(result@) == dedup_spec(texts(values@).take(i as int)),
        decreases values@.len() - i,
    {
        let ghost before = texts(result@);
        let ghost part = texts(values@).take(i + 1);
        assert(part.drop_last() =~= texts(values@).take(i as int));
        assert(part.last() == values@[i as int]@);
        if !holds_text(&result, values[i].as_str()) {
            result.push(values[i].clone());
            assert(texts(result@) =~= before.push(values@[i as int]@));
        }
        i += 1;
    }
    assert(texts(values@).take(values@.len() as int) =~= texts(values@));
    result
}

/// `url` with the demo signature.
pub fn add_signature(url: &str) -> (out: String)
    ensures
        out@ == signed_spec(url@),
{
    if contains(url, "signature=demo") {
        copy_str(url)
    } else if contains(url, "?") {
        concat2(url, "&signature=demo")
    } else {
        concat2(url, "?signature=demo")
    }
}

fn sign_all(urls: Vec<String>) -> (out: Vec<String>)
    ensures
        texts(out@) == signed_all(texts(urls@)),
{
    let mut out: Vec<String> = Vec::new();
    let mut i: usize = 0;
    while i < urls.len()
        invariant
            i <= urls@.len(),
            out@.len() == i,
            forall|k: int| 0 <= k < i ==> (#[trigger] out@[k])@ == signed_spec(urls@[k]@),
        decreases urls@.len() - i,
    {
        out.push(add_signature(urls[i].as_str()));
        i += 1;
    }
    assert(texts(out@) =~= signed_all(texts(urls@)));
    out
}

/// What marks a shortened token.
pub open spec fn preview_mark() -> Seq<char> {
    "\u{e2}\u{20ac}\u{a6}"@
}

/// The first six characters of `token` and the mark of a shortened token.
pub open spec fn preview_spec(token: Seq<char>) -> Seq<char> {
    prefix_spec(token, 6) + preview_mark()
}

/// A token shortened for a report.
pub fn preview_token(token: &str) -> (out: String)
    ensures
        out@ == preview_spec(token@),
{
    let head = prefix(token, 6);
    concat2(head.as_str(), "\u{e2}\u{20ac}\u{a6}")
}

fn entries_of(source: &ImagesSource) -> (out: Vec<String>)
    ensures
        texts(out@) == source_entries(*source),
{
    match source {
        ImagesSource::Single(value) => tokenize(value.as_str()),
        ImagesSource::Multiple(values) => copy_strings(values),
    }
}

fn check_url(url: &str, allowlist: &Option<Vec<String>>) -> (out: Option<String>)
    ensures
        opt_text(out) == url_fault(url@, opt_texts(*allowlist)),
{
    match parse_url(url) {
        None => Some(concat2("invalid_image_url: ", url)),
        Some(parts) => {
            if !same_text(parts.scheme.as_str(), "http") && !same_text(
                parts.scheme.as_str(),
                "https",
            ) {
                return Some(concat2("unsupported_url_scheme: ", url));
            }
            match allowlist {
                Some(allowed) => match &parts.host {
                    Some(host) => {
                        if !host_allowed(host.as_str(), allowed) {
                            Some(concat2("domain_not_allowed: ", host.as_str()))
                        } else {
                            None
                        }
                    },
                    None => None,
                },
                None => None,
            }
        },
    }
}

fn check_urls(urls: &Vec<String>, allowlist: &Option<Vec<String>>) -> (out: Option<String>)
    ensures
        opt_text(out) == first_fault(texts(urls@), opt_texts(*allowlist)),
{
    let ghost all = texts(urls@);
    let mut i: usize = 0;
    assert(all.subrange(0, all.len() as int) =~= all);
    while i < urls.len()
        invariant
            i <= urls@.len(),
            all == texts(urls@),
            first_fault(all, opt_texts(*allowlist)) == first_fault(
                all.subrange(i as int, all.len() as int),
                opt_texts(*allowlist),
            ),
        decreases urls@.len() - i,
    {
        let ghost rest = all.subrange(i as int, all.len() as int);
        assert(rest[0] == urls@[i as int]@);
        assert(rest.drop_first() =~= all.subrange(i + 1, all.len() as int));
        match check_url(urls[i].as_str(), allowlist) {
            Some(m) => {
                return Some(m);
            },
            None => {},
        }
        i += 1;
    }
    None
}

/// The images of `request`: the entries of its source, trimmed, signed when
/// asked for, without repetitions. Refused when there are more than the
/// configured number, when there is none, and when one is no address, has a
/// scheme other than `http` and `https`, or comes from a host that is not allowed.
pub fn resolve_images(request: &ListingRequest, config: &PipelineConfig) -> (out: Result<
    StageOutcome<Vec<String>>,
    PipelineError,
>)
    ensures
        ({
            let urls = resolved_spec(request.images_source, request.use_signed_urls);
            let fault = images_fault(
                urls,
                config.max_images as nat,
                opt_texts(config.image_domain_allowlist),
            );
            match out {
                Ok(outcome) => {
                    &&& fault is None
                    &&& texts(outcome.value@) == urls
                    &&& is_images_report(
                        outcome.output,
                        urls,
                        request.use_signed_urls,
                        4,
                        false,
                    )
                },
                Err(e) => fault is Some && e.is(
                    PipelineErrorKind::InvalidInput,
                    "resolve_images"@,
                    fault->0,
                ),
            }
        }),
{
    let entries = entries_of(&request.images_source);
    let rows = rows_of(&entries);
    let kept = trim_pieces(&rows);
    let mut resolved = strings_of(&kept);
    if request.use_signed_urls {
        resolved = sign_all(resolved);
    }
    resolved = deduplicate(resolved);
    assert(texts(resolved@).len() == resolved@.len());
    if resolved.len() > config.max_images {
        return Err(PipelineError::invalid_input("resolve_images", "too_many_images"));
    }
    if resolved.len() == 0 {
        return Err(PipelineError::invalid_input("resolve_images", "no images provided"));
    }
    match check_urls(&resolved, &config.image_domain_allowlist) {
        Some(m) => {
            return Err(PipelineError::invalid_input("resolve_images", m.as_str()));
        },
        None => {},
    }
    let preview = first_strings(&resolved, 4);
    let count = resolved.len();
    Ok(
        StageOutcome {
            value: resolved,
            output: StageOutput::ResolveImages {
                count,
                preview,
                use_signed_urls: request.use_signed_urls,
                overridden: false,
            },
        },
    )
}

proof fn lemma_dedup_of_distinct(items: Seq<Seq<char>>)
    requires
        forall|i: int, j: int| 0 <= i < j < items.len() ==> items[i] != items[j],
    ensures
        dedup_spec(items) == items,
    decreases items.len(),
{
    if items.len() > 0 {
        let before = items.drop_last();
        assert forall|i: int, j: int| 0 <= i < j < before.len() implies before[i] != before[j] by {
            assert(before[i] == items[i] && before[j] == items[j]);
        }
        lemma_dedup_of_distinct(before);
        if before.contains(items.last()) {
            let k = choose|k: int| 0 <= k < before.len() && before[k] == items.last();
            assert(items[k] == items[items.len() - 1]);
        }
        assert(before.push(items.last()) =~= items);
    } else {
        assert(dedup_spec(items) =~= items);
    }
}

/// A sequence of addresses, no two alike and each without white space at
/// its ends, is resolved to itself where no signature is asked for; so
/// with more addresses than are allowed it is refused as too many.
pub proof fn lemma_too_many_images_are_refused(
    values: Vec<String>,
    max_images: nat,
    allowlist: Option<Seq<Seq<char>>>,
)
    requires
        values@.len() > max_images,
        forall|i: int|
            0 <= i < values@.len() ==> values@[i]@.len() > 0 && trim_spec(#[trigger] values@[i]@)
                == values@[i]@,
        forall|i: int, j: int| 0 <= i < j < values@.len() ==> values@[i]@ != values@[j]@,
    ensures
        resolved_spec(ImagesSource::Multiple(values), false) == texts(values@),
        images_fault(
            resolved_spec(ImagesSource::Multiple(values), false),
            max_images,
            allowlist,
        ) == Some("too_many_images"@),
{
    let entries = texts(values@);
    assert forall|i: int| 0 <= i < entries.len() implies entries[i].len() > 0 && trim_spec(
        #[trigger] entries[i],
    ) == entries[i] by {
        assert(entries[i] == values@[i]@);
    }
    lemma_trimmed_pieces_of_trimmed(entries);
    lemma_dedup_of_distinct(entries);
}

/// A resolved list of more images than are allowed is refused as too many,
/// whatever the images are.
pub proof fn lemma_long_lists_are_refused(
    urls: Seq<Seq<char>>,
    max_images: nat,
    allowlist: Option<Seq<Seq<char>>>,
)
    requires
        urls.len() > max_images,
    ensures
        images_fault(urls, max_images, allowlist) == Some("too_many_images"@),
{
}

/// A list of images with an address whose scheme is neither `http` nor
/// `https` has a fault, so it is refused.
pub proof fn lemma_foreign_scheme_is_refused(
    urls: Seq<Seq<char>>,
    max_images: nat,
    allowlist: Option<Seq<Seq<char>>>,
    at: int,
)
    requires
        0 <= at < urls.len(),
        url_scheme(urls[at]) is Some,
        url_scheme(urls[at])->0 != "http"@,
        url_scheme(urls[at])->0 != "https"@,
    ensures
        images_fault(urls, max_images, allowlist) is Some,
{
    lemma_first_fault(urls, allowlist, at);
}

proof fn lemma_first_fault(urls: Seq<Seq<char>>, allowlist: Option<Seq<Seq<char>>>, at: int)
    requires
        0 <= at < urls.len(),
        url_fault(urls[at], allowlist) is Some,
    ensures
        first_fault(urls, allowlist) is Some,
    decreases urls.len(),
{
    if at > 0 && url_fault(urls[0], allowlist) is None {
        assert(urls.drop_first()[at - 1] == urls[at]);
        lemma_first_fault(urls.drop_first(), allowlist, at - 1);
    }
}

/// No address of a list without a fault has a fault of its own: each is an
/// address with scheme `http` or `https`.
pub proof fn lemma_no_fault_means_each_is_sound(
    urls: Seq<Seq<char>>,
    allowlist: Option<Seq<Seq<char>>>,
)
    requires
        first_fault(urls, allowlist) is None,
    ensures
        forall|i: int|
            0 <= i < urls.len() ==> url_fault(#[trigger] urls[i], allowlist) is None && (
            url_scheme(urls[i]) == Some("http"@) || url_scheme(urls[i]) == Some("https"@)),
{
    assert forall|i: int| 0 <= i < urls.len() implies url_fault(
        #[trigger] urls[i],
        allowlist,
    ) is None by {
        if url_fault(urls[i], allowlist) is Some {
            lemma_first_fault(urls, allowlist, i);
        }
    }
}

/// A category as plain values: id, tree id, label, narrative, keywords.
pub open spec fn category_view(c: CategoryDefinition) -> (
    Seq<char>,
    Seq<char>,
    Seq<char>,
    Seq<char>,
    Seq<Seq<char>>,
) {
    (c.id@, c.tree_id@, c.label@, c.narrative@, texts(c.keywords@))
}

/// The categories that a pipeline chooses from unless it is given others.
pub open spec fn default_categories_spec() -> Seq<
    (Seq<char>, Seq<char>, Seq<char>, Seq<char>, Seq<Seq<char>>),
> {
    seq![
        (
            "11450"@,
            "0"@,
            "Clothing, Shoes & Accessories"@,
            "image cues show lifestyle apparel and footwear"@,
            seq!["shoe"@, "sneaker"@, "apparel"@],
        ),
        (
            "31387"@,
            "0"@,
            "Consumer Electronics"@,
            "close-up product shots with polished surfaces"@,
            seq!["headphones"@, "camera"@, "electronics"@],
        ),
        (
            "261178"@,
            "0"@,
            "Collectibles"@,
            "studio backgrounds and creative props"@,
            seq!["collectible"@, "vintage"@, "retro"@],
        ),
        (
            "281"@,
            "0"@,
            "Motors Parts & Accessories"@,
            "detail shots of textured materials and components"@,
            seq!["auto"@, "motors"@, "component"@],
        ),
        (
            "293"@,
            "0"@,
            "Health & Beauty"@,
            "soft lighting and product laydowns"@,
            seq!["beauty"@, "wellness"@, "care"@],
        ),
    ]
}

/// The views of a sequence of categories.
pub open spec fn category_views(cats: Seq<CategoryDefinition>) -> Seq<
    (Seq<char>, Seq<char>, Seq<char>, Seq<char>, Seq<Seq<char>>),
> {
    Seq::new(cats.len(), |i: int| category_view(cats[i]))
}

fn category(id: &str, label: &str, narrative: &str, keywords: Vec<String>) -> (out:
    CategoryDefinition)
    ensures
        category_view(out) == (id@, "0"@, label@, narrative@, texts(keywords@)),
{
    CategoryDefinition {
        id: copy_str(id),
        tree_id: copy_str("0"),
        label: copy_str(label),
        narrative: copy_str(narrative),
        keywords,
    }
}

/// The categories that a pipeline chooses from unless it is given others.
pub fn default_categories() -> (out: Vec<CategoryDefinition>)
    ensures
        category_views(out@) == default_categories_spec(),
{
    let mut out: Vec<CategoryDefinition> = Vec::new();
    out.push(
        category(
            "11450",
            "Clothing, Shoes & Accessories",
            "image cues show lifestyle apparel and footwear",
            list3("shoe", "sneaker", "apparel"),
        ),
    );
    out.push(
        category(
            "31387",
            "Consumer Electronics",
            "close-up product shots with polished surfaces",
            list3("headphones", "camera", "electronics"),
        ),
    );
    out.push(
        category(
            "261178",
            "Collectibles",
            "studio backgrounds and creative props",
            list3("collectible", "vintage", "retro"),
        ),
    );
    out.push(
        category(
            "281",
            "Motors Parts & Accessories",
            "detail shots of textured materials and components",
            list3("auto", "motors", "component"),
        ),
    );
    out.push(
        category(
            "293",
            "Health & Beauty",
            "soft lighting and product laydowns",
            list3("beauty", "wellness", "care"),
        ),
    );
    assert(category_views(out@) =~= default_categories_spec());
    out
}

/// The confidence of a selection in hundredths: 55 and the seed's remainder
/// by 40, at most 95, and never above 99.
pub open spec fn confidence_hundredths(seed: u64) -> int {
    let raw = 55 + seed % 40;
    let capped = if raw > 95 {
        95
    } else {
        raw
    };
    if capped > 99 {
        99
    } else {
        capped
    }
}

/// Why a category was chosen, in words.
pub open spec fn rationale_spec(sku: Seq<char>, narrative: Seq<char>) -> Seq<char> {
    "sku signal `"@ + sku + "` + image hash matched `"@ + narrative + "`"@
}

/// The positions of the first two of `n` categories other than the one at `chosen`.
pub open spec fn other_positions(n: int, chosen: int) -> Seq<int> {
    let first = if chosen == 0 {
        1int
    } else {
        0int
    };
    let second = if chosen <= 1 {
        2int
    } else {
        1int
    };
    if second < n {
        seq![first, second]
    } else if first < n {
        seq![first]
    } else {
        Seq::empty()
    }
}

/// The positions, from `from` on, of the first `limit` categories whose label is not `label`.
pub open spec fn unlike_positions(
    cats: Seq<CategoryDefinition>,
    label: Seq<char>,
    from: int,
    limit: nat,
) -> Seq<int>
    decreases cats.len() - from,
{
    if from < 0 || from >= cats.len() || limit == 0 {
        Seq::empty()
    } else if cats[from].label@ != label {
        seq![from] + unlike_positions(cats, label, from + 1, (limit - 1) as nat)
    } else {
        unlike_positions(cats, label, from + 1, limit)
    }
}

/// Whether `alternatives` are the categories at `positions`, each with its
/// id, its label and its keywords.
pub open spec fn alternatives_are(
    alternatives: Seq<CategoryAlternative>,
    cats: Seq<CategoryDefinition>,
    positions: Seq<int>,
) -> bool {
    &&& alternatives.len() == positions.len()
    &&& forall|i: int|
        0 <= i < positions.len() ==> {
            let c = cats[#[trigger] positions[i]];
            let a = alternatives[i];
            a.id@ == c.id@ && a.label@ == c.label@ && texts(a.keywords@) == texts(c.keywords@)
        }
}

/// The first of `images`, if there is one.
pub open spec fn first_image(images: Seq<Seq<char>>) -> Option<Seq<char>> {
    if images.len() > 0 {
        Some(images[0])
    } else {
        None
    }
}

/// Whether `output` is the report of the selection `selection`: the
/// selection itself, the categories at `positions` as alternatives, the
/// first image, and whether the client supplied the selection.
pub open spec fn is_selection_report(
    output: StageOutput,
    selection: CategorySelection,
    cats: Seq<CategoryDefinition>,
    positions: Seq<int>,
    images: Seq<Seq<char>>,
    supplied: bool,
) -> bool {
    output matches StageOutput::SelectCategory {
        selected,
        alternatives,
        image_signature,
        overridden,
    } && selected.same_as(selection) && alternatives_are(alternatives@, cats, positions)
        && opt_text(image_signature) == first_image(images) && overridden == supplied
}

/// Whether `selection` is what the seed `seed` chooses among `cats` for
/// the stock keeping unit `sku`: the category at the seed's remainder by
/// their number, with the confidence and the rationale of the seed.
pub open spec fn is_choice_of_seed(
    selection: CategorySelection,
    sku: Seq<char>,
    cats: Seq<CategoryDefinition>,
    seed: u64,
) -> bool {
    let chosen = cats[selected_position(seed, cats.len())];
    &&& selection.id@ == chosen.id@
    &&& selection.tree_id@ == chosen.tree_id@
    &&& selection.label@ == chosen.label@
    &&& selection.confidence.micros == confidence_hundredths(seed) * 10_000
    &&& selection.rationale@ == rationale_spec(sku, chosen.narrative@)
}

/// Whether `selection`, with the report `output`, is what the seed `seed`
/// chooses among `cats`; up to two of the other categories are reported
/// as alternatives.
pub open spec fn chosen_by_seed(
    selection: CategorySelection,
    output: StageOutput,
    sku: Seq<char>,
    images: Seq<Seq<char>>,
    cats: Seq<CategoryDefinition>,
    seed: u64,
) -> bool {
    &&& is_choice_of_seed(selection, sku, cats, seed)
    &&& is_selection_report(
        output,
        selection,
        cats,
        other_positions(cats.len() as int, selected_position(seed, cats.len())),
        images,
        false,
    )
}

/// Whether `selection`, with the report `output`, is the category that a
/// client supplied as `input`: unchanged, with the first two categories of
/// another label as alternatives.
pub open spec fn chosen_by_client(
    selection: CategorySelection,
    output: StageOutput,
    input: CategorySelectionInput,
    images: Seq<Seq<char>>,
    cats: Seq<CategoryDefinition>,
) -> bool {
    &&& selection.id@ == input.id@
    &&& selection.tree_id@ == input.tree_id@
    &&& selection.label@ == input.label@
    &&& selection.confidence == input.confidence
    &&& selection.rationale@ == input.rationale@
    &&& is_selection_report(
        output,
        selection,
        cats,
        unlike_positions(cats, input.label@, 0, 2),
        images,
        true,
    )
}

fn alternative_of(c: &CategoryDefinition) -> (out: CategoryAlternative)
    ensures
        out.id@ == c.id@,
        out.label@ == c.label@,
        texts(out.keywords@) == texts(c.keywords@),
{
    CategoryAlternative {
        id: c.id.clone(),
        label: c.label.clone(),
        keywords: copy_strings(&c.keywords),
    }
}

fn first_text(images: &Vec<String>) -> (out: Option<String>)
    ensures
        opt_text(out) == first_image(texts(images@)),
{
    assert(texts(images@).len() == images@.len());
    if images.len() > 0 {
        assert(texts(images@)[0] == images@[0]@);
        Some(images[0].clone())
    } else {
        None
    }
}

/// The category of a request: the one at the seed's remainder by the number
/// of categories, with a confidence and a rationale, and up to two of the
/// others as alternatives. With no category to choose from the stage fails.
pub fn select_category(
    request: &ListingRequest,
    images: &Vec<String>,
    categories: &Vec<CategoryDefinition>,
    seed: u64,
) -> (out: Result<StageOutcome<CategorySelection>, PipelineError>)
    ensures
        categories@.len() == 0 ==> out is Err && out->Err_0.is(
            PipelineErrorKind::Internal,
            "select_category"@,
            "no categories configured"@,
        ),
        categories@.len() > 0 ==> out is Ok && chosen_by_seed(
            out->Ok_0.value,
            out->Ok_0.output,
            request.sku@,
            texts(images@),
            categories@,
            seed,
        ),
{
    let n = categories.len();
    if n == 0 {
        return Err(PipelineError::internal("select_category", "no categories configured"));
    }
    let at: usize = (seed % (n as u64)) as usize;
    let chosen = &categories[at];
    let raw: u64 = 55 + seed % 40;
    let capped: u64 = if raw > 95 {
        95
    } else {
        raw
    };
    let hundredths: u64 = if capped > 99 {
        99
    } else {
        capped
    };
    let head = concat3("sku signal `", request.sku.as_str(), "` + image hash matched `");
    let rationale = concat3(head.as_str(), chosen.narrative.as_str(), "`");
    let selection = CategorySelection {
        id: chosen.id.clone(),
        tree_id: chosen.tree_id.clone(),
        label: chosen.label.clone(),
        confidence: Decimal::from_hundredths(hundredths as i32),
        rationale,
    };
    let first: usize = if at == 0 {
        1
    } else {
        0
    };
    let second: usize = if at <= 1 {
        2
    } else {
        1
    };
    let mut alternatives: Vec<CategoryAlternative> = Vec::new();
    if first < n {
        alternatives.push(alternative_of(&categories[first]));
    }
    if second < n {
        alternatives.push(alternative_of(&categories[second]));
    }
    let selected = selection.copy();
    Ok(
        StageOutcome {
            value: selection,
            output: StageOutput::SelectCategory {
                selected,
                alternatives,
                image_signature: first_text(images),
                overridden: false,
            },
        },
    )
}

/// The category that a client supplied, as the stage hands it on: unchanged,
/// with the first two categories of another label as alternatives.
pub fn override_category(
    input: &CategorySelectionInput,
    images: &Vec<String>,
    categories: &Vec<CategoryDefinition>,
) -> (out: StageOutcome<CategorySelection>)
    ensures
        chosen_by_client(out.value, out.output, *input, texts(images@), categories@),
{
    let selection = CategorySelection {
        id: input.id.clone(),
        tree_id: input.tree_id.clone(),
        label: input.label.clone(),
        confidence: input.confidence,
        rationale: input.rationale.clone(),
    };
    let mut alternatives: Vec<CategoryAlternative> = Vec::new();
    let ghost mut picked: Seq<int> = Seq::empty();
    let mut i: usize = 0;
    assert(picked + unlike_positions(categories@, input.label@, 0, 2) =~= unlike_positions(
        categories@,
        input.label@,
        0,
        2,
    ));
    while i < categories.len() && alternatives.len() < 2
        invariant
            i <= categories@.len(),
            alternatives@.len() <= 2,
            alternatives_are(alternatives@, categories@, picked),
            forall|k: int| 0 <= k < picked.len() ==> 0 <= #[trigger] picked[k] < categories@.len(),
            unlike_positions(categories@, input.label@, 0, 2) == picked + unlike_positions(
                categories@,
                input.label@,
                i as int,
                (2 - alternatives@.len()) as nat,
            ),
        decreases categories@.len() - i,
    {
        if !same_text(categories[i].label.as_str(), input.label.as_str()) {
            let ghost before = picked;
            let ghost rest = unlike_positions(
                categories@,
                input.label@,
                i + 1,
                (2 - alternatives@.len() - 1) as nat,
            );
            alternatives.push(alternative_of(&categories[i]));
            proof {
                picked = before.push(i as int);
                assert(before + (seq![i as int] + rest) =~= picked + rest);
            }
        }
        i += 1;
    }
    proof {
        let rest = unlike_positions(
            categories@,
            input.label@,
            i as int,
            (2 - alternatives@.len()) as nat,
        );
        assert(rest =~= Seq::empty());
        assert(picked + rest =~= picked);
    }
    let selected = selection.copy();
    StageOutcome {
        value: selection,
        output: StageOutput::SelectCategory {
            selected,
            alternatives,
            image_signature: first_text(images),
            overridden: true,
        },
    }
}

/// The aspects of a category in the reference taxonomy: brand and colour,
/// both required, and condition; for a label that mentions electronics also
/// whether a battery is included.
pub open spec fn base_aspects_spec(label: Seq<char>) -> Seq<(Seq<char>, bool, Seq<Seq<char>>)> {
    let base = seq![
        ("Brand"@, true, seq!["Hermes Labs"@, "Demo Labs"@]),
        ("Color"@, true, seq!["Black"@, "White"@, "Sand"@]),
        ("Condition"@, false, seq!["New"@, "Used"@]),
    ];
    if contains_spec(label, "Electronics"@) {
        base.push(("BatteryIncluded"@, false, seq!["Yes"@, "No"@]))
    } else {
        base
    }
}

/// The aspects of the category labelled `category_label` in the reference taxonomy.
pub fn build_aspects(category_label: &str) -> (out: Vec<TaxonomyAspect>)
    ensures
        aspect_views(out@) == base_aspects_spec(category_label@),
{
    let mut out: Vec<TaxonomyAspect> = Vec::new();
    out.push(
        TaxonomyAspect {
            name: copy_str("Brand"),
            required: true,
            samples: list2("Hermes Labs", "Demo Labs"),
        },
    );
    out.push(
        TaxonomyAspect {
            name: copy_str("Color"),
            required: true,
            samples: list3("Black", "White", "Sand"),
        },
    );
    out.push(
        TaxonomyAspect {
            name: copy_str("Condition"),
            required: false,
            samples: list2("New", "Used"),
        },
    );
    if contains(category_label, "Electronics") {
        out.push(
            TaxonomyAspect {
                name: copy_str("BatteryIncluded"),
                required: false,
                samples: list2("Yes", "No"),
            },
        );
    }
    assert(aspect_views(out@) =~= base_aspects_spec(category_label@));
    out
}

/// Whether `raw` says of one aspect what `aspect` says: the same name and
/// values, only its own values when it is required and free text when not,
/// and several values to an item.
pub open spec fn raw_aspect_matches(raw: Aspect, aspect: (Seq<char>, bool, Seq<Seq<char>>)) -> bool {
    &&& raw.localizedAspectName@ == aspect.0
    &&& crate::ebay::taxonomy::value_texts(raw.aspectValues@) == aspect.2
    &&& raw.aspectConstraint matches Some(c) && opt_text(c.aspectMode) == Some(
        if aspect.1 {
            "SELECTION_ONLY"@
        } else {
            "FREE_TEXT"@
        },
    ) && c.aspectRequired == Some(aspect.1) && opt_text(c.itemToAspectCardinality) == Some(
        "MULTI"@,
    )
}

fn raw_aspect(aspect: &TaxonomyAspect) -> (out: Aspect)
    ensures
        raw_aspect_matches(out, aspect@),
{
    let mut values: Vec<AspectValue> = Vec::new();
    let mut i: usize = 0;
    while i < aspect.samples.len()
        invariant
            i <= aspect.samples@.len(),
            values@.len() == i,
            forall|k: int|
                0 <= k < i ==> (#[trigger] values@[k]).localizedValue@ == aspect.samples@[k]@,
        decreases aspect.samples@.len() - i,
    {
        values.push(AspectValue { localizedValue: aspect.samples[i].clone() });
        i += 1;
    }
    assert(crate::ebay::taxonomy::value_texts(values@) =~= texts(aspect.samples@));
    let mode = if aspect.required {
        copy_str("SELECTION_ONLY")
    } else {
        copy_str("FREE_TEXT")
    };
    Aspect {
        localizedAspectName: aspect.name.clone(),
        aspectValues: values,
        aspectConstraint: Some(
            AspectConstraint {
                aspectMode: Some(mode),
                aspectRequired: Some(aspect.required),
                itemToAspectCardinality: Some(copy_str("MULTI")),
            },
        ),
    }
}

/// The first three of `aspects`.
pub open spec fn first_three_aspects(aspects: Seq<(Seq<char>, bool, Seq<Seq<char>>)>) -> Seq<
    (Seq<char>, bool, Seq<Seq<char>>),
> {
    if aspects.len() >= 3 {
        aspects.take(3)
    } else {
        aspects
    }
}

/// Whether `taxonomy`, with the report `output`, is the reference taxonomy
/// of the category `selection`.
pub open spec fn is_taxonomy_of(
    taxonomy: TaxonomySpec,
    output: StageOutput,
    selection: CategorySelection,
) -> bool {
    &&& taxonomy.category_id@ == selection.id@
    &&& taxonomy.tree_id@ == selection.tree_id@
    &&& aspect_views(taxonomy.aspects@) == base_aspects_spec(selection.label@)
    &&& taxonomy.raw.aspects@.len() == taxonomy.aspects@.len()
    &&& forall|i: int|
        0 <= i < taxonomy.aspects@.len() ==> raw_aspect_matches(
            #[trigger] taxonomy.raw.aspects@[i],
            taxonomy.aspects@[i]@,
        )
    &&& output matches StageOutput::FetchTaxonomy { category_id, aspect_count, sample_aspects }
        && category_id@ == selection.id@ && aspect_count == taxonomy.aspects@.len()
        && aspect_views(sample_aspects@) == first_three_aspects(
        base_aspects_spec(selection.label@),
    )
}

/// The taxonomy of the chosen category, from the reference taxonomy.
pub fn fetch_taxonomy(selection: &CategorySelection) -> (out: StageOutcome<TaxonomySpec>)
    ensures
        is_taxonomy_of(out.value, out.output, *selection),
{
    let aspects = build_aspects(selection.label.as_str());
    let mut raw: Vec<Aspect> = Vec::new();
    let mut samples: Vec<TaxonomyAspect> = Vec::new();
    let mut i: usize = 0;
    assert(aspect_views(aspects@).len() == aspects@.len());
    while i < aspects.len()
        invariant
            i <= aspects@.len(),
            raw@.len() == i,
            samples@.len() == if i <= 3 {
                i
            } else {
                3
            },
            forall|k: int| 0 <= k < i ==> raw_aspect_matches(#[trigger] raw@[k], aspects@[k]@),
            forall|k: int| 0 <= k < samples@.len() ==> (#[trigger] samples@[k])@ == aspects@[k]@,
        decreases aspects@.len() - i,
    {
        raw.push(raw_aspect(&aspects[i]));
        if i < 3 {
            samples.push(aspects[i].copy());
        }
        i += 1;
    }
    assert(aspect_views(samples@) =~= first_three_aspects(aspect_views(aspects@)));
    let count = aspects.len();
    StageOutcome {
        value: TaxonomySpec {
            category_id: selection.id.clone(),
            tree_id: selection.tree_id.clone(),
            aspects,
            raw: TaxonomyResponse { aspects: raw },
        },
        output: StageOutput::FetchTaxonomy {
            category_id: selection.id.clone(),
            aspect_count: count,
            sample_aspects: samples,
        },
    }
}

/// What a demo credential may be used for.
pub open spec fn token_scopes() -> Seq<Seq<char>> {
    seq![
        "https://api.ebay.com/oauth/api_scope/sell.inventory"@,
        "https://api.ebay.com/oauth/api_scope/sell.account"@,
    ]
}

/// What a user's access token is asked for.
pub fn user_scopes() -> (out: Vec<String>)
    ensures
        texts(out@) == token_scopes(),
{
    list2(
        "https://api.ebay.com/oauth/api_scope/sell.inventory",
        "https://api.ebay.com/oauth/api_scope/sell.account",
    )
}

/// Whether `output` is the report of the credential `token`: its first six
/// characters, the scopes, and an hour of life.
pub open spec fn is_token_report(output: StageOutput, token: Seq<char>) -> bool {
    output matches StageOutput::AcquireUserToken { token_preview, scopes, expires_in_seconds }
        && token_preview@ == preview_spec(token) && texts(scopes@) == token_scopes()
        && expires_in_seconds == 3600
}

/// The demo credential made from the identifier `id`: the token is `demo_`
/// and the identifier, good for an hour; the report shows its first six characters.
pub fn demo_credentials(id: &str) -> (out: StageOutcome<DemoCredentials>)
    ensures
        out.value.token@ == "demo_"@ + id@,
        out.value.expires_in == 3600,
        is_token_report(out.output, "demo_"@ + id@),
{
    let token = concat2("demo_", id);
    let token_preview = preview_token(token.as_str());
    StageOutcome {
        value: DemoCredentials { token, expires_in: 3600 },
        output: StageOutput::AcquireUserToken {
            token_preview,
            scopes: user_scopes(),
            expires_in_seconds: 3600,
        },
    }
}

/// Whether `credentials`, with the report `output`, is a demo credential
/// with a fresh identifier: `demo_` and the 36 characters of an identifier
/// written with hyphens, good for an hour.
pub open spec fn is_fresh_credential(credentials: DemoCredentials, output: StageOutput) -> bool {
    &&& credentials.token@.len() == 41
    &&& credentials.token@.take(5) == "demo_"@
    &&& exists|bits: u128| credentials.token@ == "demo_"@ + #[trigger] hyphenated(bits)
    &&& credentials.expires_in == 3600
    &&& is_token_report(output, credentials.token@)
}

/// A demo credential with a fresh random identifier of 36 characters.
pub fn acquire_user_token() -> (out: StageOutcome<DemoCredentials>)
    ensures
        is_fresh_credential(out.value, out.output),
{
    let id = fresh_id();
    let out = demo_credentials(id.as_str());
    proof {
        reveal_strlit("demo_");
        assert(out.value.token@.take(5) =~= "demo_"@);
    }
    out
}

/// The conditions that a listing of a category may state: by whether the
/// label, in lower case, mentions shoes or collectibles.
pub open spec fn conditions_spec(label: Seq<char>) -> Seq<Seq<char>> {
    let lower = lowercase_of(label);
    if contains_spec(lower, "shoe"@) {
        seq!["NEW_IN_BOX"@, "USED_LIKE_NEW"@, "USED_GOOD"@, "USED_FAIR"@]
    } else if contains_spec(lower, "collectible"@) {
        seq!["NEW"@, "UNOPENED"@, "DISPLAY_ONLY"@, "USED"@]
    } else {
        seq!["NEW"@, "USED_LIKE_NEW"@, "USED_GOOD"@, "USED"@]
    }
}

/// Whether `bundle`, with the report `output`, holds the conditions that a
/// listing of the category `selection` may state, the first as the default.
pub open spec fn are_conditions_of(
    bundle: ConditionBundle,
    output: StageOutput,
    selection: CategorySelection,
) -> bool {
    &&& texts(bundle.allowed@) == conditions_spec(selection.label@)
    &&& bundle.default_condition@ == conditions_spec(selection.label@)[0]
    &&& output matches StageOutput::PrepareConditions { allowed, default_condition } && texts(
        allowed@,
    ) == conditions_spec(selection.label@) && default_condition@ == conditions_spec(
        selection.label@,
    )[0]
}

/// The conditions that a listing of the chosen category may state; the
/// first of them is the default.
pub fn prepare_conditions(selection: &CategorySelection) -> (out: StageOutcome<ConditionBundle>)
    ensures
        are_conditions_of(out.value, out.output, *selection),
{
    let lower = selection.label.as_str().to_lowercase();
    let allowed = if contains(lower.as_str(), "shoe") {
        list4("NEW_IN_BOX", "USED_LIKE_NEW", "USED_GOOD", "USED_FAIR")
    } else if contains(lower.as_str(), "collectible") {
        list4("NEW", "UNOPENED", "DISPLAY_ONLY", "USED")
    } else {
        list4("NEW", "USED_LIKE_NEW", "USED_GOOD", "USED")
    };
    assert(texts(allowed@).len() == allowed@.len());
    assert(texts(allowed@)[0] == allowed@[0]@);
    let reported = copy_strings(&allowed);
    let first = allowed[0].clone();
    let first_again = allowed[0].clone();
    StageOutcome {
        value: ConditionBundle { allowed, default_condition: first },
        output: StageOutput::PrepareConditions {
            allowed: reported,
            default_condition: first_again,
        },
    }
}

} // verus!
