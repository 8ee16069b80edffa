//! The seed of a run: a stable hash of what identifies a request.
//!
//! The hash is FNV-1a over 64 bits. The fields are hashed in a fixed order:
//! stock keeping unit, merchant location key, fulfillment, payment and return
//! policy, the marketplace's code, then the first three images. Each field
//! is hashed as its UTF-8 bytes followed by the byte `0xff`, which no UTF-8
//! text holds, so that no two lists of fields run together.

use crate::models::ListingRequest;
use crate::text::texts;
use vstd::prelude::*;
use vstd::utf8::encode_utf8;

verus! {

/// Where an FNV-1a hash over 64 bits starts.
pub const FNV_OFFSET: u64 = 0xcbf29ce484222325;

/// What an FNV-1a hash over 64 bits multiplies by.
pub const FNV_PRIME: u64 = 0x100000001b3;

/// The hash `h` after one more byte.
pub open spec fn fnv_step(h: u64, b: u8) -> u64 {
    (((h ^ (b as u64)) as nat * FNV_PRIME as nat) % 0x1_0000_0000_0000_0000 as nat) as u64
}

/// The hash `h` after the bytes `bytes`.
pub open spec fn fnv_bytes(h: u64, bytes: Seq<u8>) -> u64
    decreases bytes.len(),
{
    if bytes.len() == 0 {
        h
    } else {
        fnv_step(fnv_bytes(h, bytes.drop_last()), bytes.last())
    }
}

/// The hash `h` after one field.
pub open spec fn fnv_field(h: u64, field: Seq<char>) -> u64 {
    fnv_step(fnv_bytes(h, encode_utf8(field)), 0xff)
}

/// The hash `h` after the fields `fields`.
pub open spec fn fnv_fields(h: u64, fields: Seq<Seq<char>>) -> u64
    decreases fields.len(),
{
    if fields.len() == 0 {
        h
    } else {
        fnv_field(fnv_fields(h, fields.drop_last()), fields.last())
    }
}

/// The first three of `images`.
pub open spec fn first_three(images: Seq<Seq<char>>) -> Seq<Seq<char>> {
    if images.len() >= 3 {
        images.take(3)
    } else {
        images
    }
}

/// The fields that the seed of a request is made of, in their order.
pub open spec fn seed_fields(request: ListingRequest, images: Seq<Seq<char>>) -> Seq<Seq<char>> {
    seq![
        request.sku@,
        request.merchant_location_key@,
        request.fulfillment_policy_id@,
        request.payment_policy_id@,
        request.return_policy_id@,
        request.marketplace.code_spec(),
    ] + first_three(images)
}

/// The seed of a request with its resolved images.
pub open spec fn seed_spec(request: ListingRequest, images: Seq<Seq<char>>) -> u64 {
    fnv_fields(FNV_OFFSET, seed_fields(request, images))
}

fn hash_byte(h: u64, b: u8) -> (out: u64)
    ensures
        out == fnv_step(h, b),
{
    let mixed: u64 = h ^ (b as u64);
    mixed.wrapping_mul(FNV_PRIME)
}

fn hash_field(h: u64, field: &str) -> (out: u64)
    ensures
        out == fnv_field(h, field@),
{
    let bytes = field.as_bytes();
    let mut acc: u64 = h;
    let mut i: usize = 0;
    assert(bytes@.take(0) =~= Seq::<u8>::empty());
    while i < bytes.len()
        invariant
            i <= bytes@.len(),
            bytes@ == encode_utf8(field@),
            acc == fnv_bytes(h, bytes@.take(i as int)),
        decreases bytes@.len() - i,
    {
        assert(bytes@.take(i + 1).drop_last() =~= bytes@.take(i as int));
        acc = hash_byte(acc, bytes[i]);
        i += 1;
    }
    assert(bytes@.take(bytes@.len() as int) =~= bytes@);
    hash_byte(acc, 0xff)
}

proof fn lemma_fields_push(h: u64, fields: Seq<Seq<char>>, next: Seq<char>)
    ensures
        fnv_fields(h, fields.push(next)) == fnv_field(fnv_fields(h, fields), next),
{
    assert(fields.push(next).drop_last() =~= fields);
}

/// The seed of `request` with its resolved `images`.
pub fn compute_seed(request: &ListingRequest, images: &Vec<String>) -> (seed: u64)
    ensures
        seed == seed_spec(*request, texts(images@)),
{
    let ghost e = Seq::<Seq<char>>::empty();
    let ghost f1 = e.push(request.sku@);
    let ghost f2 = f1.push(request.merchant_location_key@);
    let ghost f3 = f2.push(request.fulfillment_policy_id@);
    let ghost f4 = f3.push(request.payment_policy_id@);
    let ghost f5 = f4.push(request.return_policy_id@);
    let ghost head = f5.push(request.marketplace.code_spec());
    proof {
        lemma_fields_push(FNV_OFFSET, e, request.sku@);
        lemma_fields_push(FNV_OFFSET, f1, request.merchant_location_key@);
        lemma_fields_push(FNV_OFFSET, f2, request.fulfillment_policy_id@);
        lemma_fields_push(FNV_OFFSET, f3, request.payment_policy_id@);
        lemma_fields_push(FNV_OFFSET, f4, request.return_policy_id@);
        lemma_fields_push(FNV_OFFSET, f5, request.marketplace.code_spec());
    }
    let mut h: u64 = FNV_OFFSET;
    h = hash_field(h, request.sku.as_str());
    h = hash_field(h, request.merchant_location_key.as_str());
    h = hash_field(h, request.fulfillment_policy_id.as_str());
    h = hash_field(h, request.payment_policy_id.as_str());
    h = hash_field(h, request.return_policy_id.as_str());
    h = hash_field(h, request.marketplace.ebay_code());
    assert(h == fnv_fields(FNV_OFFSET, head));
    let n: usize = if images.len() >= 3 {
        3
    } else {
        images.len()
    };
    let ghost tail = first_three(texts(images@));
    assert(tail =~= texts(images@).take(n as int));
    let mut i: usize = 0;
    assert(head + tail.take(0) =~= head);
    while i < n
        invariant
            i <= n <= images@.len(),
            tail == texts(images@).take(n as int),
            h == fnv_fields(FNV_OFFSET, head + tail.take(i as int)),
        decreases n - i,
    {
        proof {
            lemma_fields_push(FNV_OFFSET, head + tail.take(i as int), images@[i as int]@);
            assert((head + tail.take(i as int)).push(images@[i as int]@) =~= head + tail.take(
                i + 1,
            ));
        }
        h = hash_field(h, images[i].as_str());
        i += 1;
    }
    proof {
        assert(tail.take(n as int) =~= tail);
        assert(head =~= seq![
            request.sku@,
            request.merchant_location_key@,
            request.fulfillment_policy_id@,
            request.payment_policy_id@,
            request.return_policy_id@,
            request.marketplace.code_spec(),
        ]);
    }
    h
}

/// Two requests that agree in the fields of the seed, with image lists that
/// agree in their first three addresses, have the same seed.
pub proof fn lemma_seed_depends_on_fields_only(
    first: ListingRequest,
    first_images: Seq<Seq<char>>,
    second: ListingRequest,
    second_images: Seq<Seq<char>>,
)
    requires
        seed_fields(first, first_images) == seed_fields(second, second_images),
    ensures
        seed_spec(first, first_images) == seed_spec(second, second_images),
{
}

/// The position of the category that a seed selects among `count` categories.
pub open spec fn selected_position(seed: u64, count: nat) -> int {
    (seed as int) % (count as int)
}

/// Two requests that agree in the fields of the seed, with image lists that
/// agree in their first three addresses, select the category at the same
/// position of the same list of categories.
pub proof fn lemma_same_fields_same_category(
    first: ListingRequest,
    first_images: Seq<Seq<char>>,
    second: ListingRequest,
    second_images: Seq<Seq<char>>,
    count: nat,
)
    requires
        seed_fields(first, first_images) == seed_fields(second, second_images),
        count > 0,
    ensures
        selected_position(seed_spec(first, first_images), count) == selected_position(
            seed_spec(second, second_images),
            count,
        ),
{
    lemma_seed_depends_on_fields_only(first, first_images, second, second_images);
}

} // verus!
