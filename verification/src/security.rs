//! Admission: who a request comes from and whether it is let through.

use crate::rate_limit::{
    after_request, admits, in_range, take_token, BucketState, RateExceeded, RateLimit, RatePermit,
};
use crate::text::{
    chars_of, concat2, copy_str, decimal2, decimal2_spec, eq_ignore_ascii_case,
    eq_ignore_ascii_case_spec, is_space, lemma_trimmed_has_no_white_ends, same_text,
    split_chars, split_spec, string_of_range, trim, trim_chars, trim_spec,
};
use vstd::prelude::*;

verus! {

/// Who a request comes from.
#[derive(Debug)]
pub struct AuthContext {
    pub org_id: String,
    pub api_key_id: String,
}

/// One key: the secret that a client presents, and whose it is.
#[derive(Debug)]
pub struct KeyRecord {
    pub secret: String,
    pub org_id: String,
    pub api_key_id: String,
}

impl KeyRecord {
    /// The record as plain values: secret, organization, key id.
    pub open spec fn view(self) -> (Seq<char>, Seq<char>, Seq<char>) {
        (self.secret@, self.org_id@, self.api_key_id@)
    }
}

/// The views of a sequence of records.
pub open spec fn record_views(records: Seq<KeyRecord>) -> Seq<(Seq<char>, Seq<char>, Seq<char>)> {
    Seq::new(records.len(), |i: int| records[i]@)
}

/// The position of the first colon of `s`, or the length of `s` when it has none.
pub open spec fn first_colon(s: Seq<char>) -> int
    decreases s.len(),
{
    if s.len() == 0 {
        0
    } else if s[0] == ':' {
        0
    } else {
        1 + first_colon(s.drop_first())
    }
}

/// The record that the piece at position `index` of a key list stands for:
/// the piece is `org:secret`, both parts trimmed and not empty, and the key
/// id counts the pieces from one, with two digits. Any other piece stands for nothing.
pub open spec fn record_of(piece: Seq<char>, index: nat) -> Option<
    (Seq<char>, Seq<char>, Seq<char>),
> {
    let t = trim_spec(piece);
    let at = first_colon(t);
    if at >= t.len() {
        None
    } else {
        let org = trim_spec(t.take(at));
        let secret = trim_spec(t.skip(at + 1));
        if org.len() == 0 || secret.len() == 0 {
            None
        } else {
            Some((secret, org, "key-"@ + decimal2_spec(index + 1)))
        }
    }
}

/// The records of the first `upto` pieces, in order.
pub open spec fn records_of(pieces: Seq<Seq<char>>, upto: nat) -> Seq<
    (Seq<char>, Seq<char>, Seq<char>),
>
    decreases upto,
{
    if upto == 0 || upto > pieces.len() {
        Seq::empty()
    } else {
        let before = records_of(pieces, (upto - 1) as nat);
        match record_of(pieces[upto - 1], (upto - 1) as nat) {
            Some(r) => before.push(r),
            None => before,
        }
    }
}

/// The one record that stands in when a key list holds no key.
pub open spec fn demo_record() -> (Seq<char>, Seq<char>, Seq<char>) {
    ("demo-key"@, "demo-org"@, "key-01"@)
}

/// The records of a key list: those of its pieces between commas, or the
/// demo record when no piece stands for a record.
pub open spec fn key_table_spec(raw: Seq<char>) -> Seq<(Seq<char>, Seq<char>, Seq<char>)> {
    let pieces = split_spec(raw, seq![','].to_set());
    let found = records_of(pieces, pieces.len());
    if found.len() == 0 {
        seq![demo_record()]
    } else {
        found
    }
}

/// The record that a presented secret selects: the last with that secret.
pub open spec fn find_record(
    records: Seq<(Seq<char>, Seq<char>, Seq<char>)>,
    presented: Seq<char>,
) -> Option<(Seq<char>, Seq<char>, Seq<char>)>
    decreases records.len(),
{
    if records.len() == 0 {
        None
    } else if records.last().0 == presented {
        Some(records.last())
    } else {
        find_record(records.drop_last(), presented)
    }
}

fn colon_position(t: &Vec<char>) -> (at: usize)
    ensures
        at == first_colon(t@),
        at <= t@.len(),
{
    let mut i: usize = 0;
    assert(t@.subrange(0, t@.len() as int) =~= t@);
    while i < t.len()
        invariant
            i <= t@.len(),
            first_colon(t@) == i + first_colon(t@.subrange(i as int, t@.len() as int)),
        decreases t@.len() - i,
    {
        let ghost rest = t@.subrange(i as int, t@.len() as int);
        assert(rest[0] == t@[i as int]);
        if t[i] == ':' {
            return i;
        }
        assert(rest.drop_first() =~= t@.subrange(i + 1, t@.len() as int));
        i += 1;
    }
    i
}

fn parse_record(piece: &Vec<char>, index: usize) -> (out: Option<KeyRecord>)
    requires
        index < usize::MAX,
    ensures
        match out {
            Some(r) => record_of(piece@, index as nat) == Some(r@),
            None => record_of(piece@, index as nat) is None,
        },
{
    let t = trim_chars(piece);
    let at = colon_position(&t);
    if at >= t.len() {
        return None;
    }
    let mut head: Vec<char> = Vec::new();
    let mut i: usize = 0;
    while i < at
        invariant
            i <= at < t@.len(),
            head@ == t@.take(i as int),
        decreases at - i,
    {
        head.push(t[i]);
        assert(t@.take(i + 1) =~= t@.take(i as int).push(t@[i as int]));
        i += 1;
    }
    let mut tail: Vec<char> = Vec::new();
    let mut j: usize = at + 1;
    assert(t@.skip(at + 1).take(0) =~= Seq::<char>::empty());
    while j < t.len()
        invariant
            at + 1 <= j <= t@.len(),
            tail@ == t@.skip(at + 1).take(j - at - 1),
        decreases t@.len() - j,
    {
        tail.push(t[j]);
        assert(t@.skip(at + 1).take(j - at) =~= t@.skip(at + 1).take(j - at - 1).push(
            t@[j as int],
        ));
        j += 1;
    }
    assert(t@.skip(at + 1).take(t@.len() - at - 1) =~= t@.skip(at + 1));
    let org = trim_chars(&head);
    let secret = trim_chars(&tail);
    if org.len() == 0 || secret.len() == 0 {
        return None;
    }
    let number = decimal2((index + 1) as u64);
    Some(
        KeyRecord {
            secret: crate::text::string_of(&secret),
            org_id: crate::text::string_of(&org),
            api_key_id: concat2("key-", number.as_str()),
        },
    )
}

/// The records of the key list `raw`, which names keys as `org:secret`
/// between commas.
pub fn parse_api_keys(raw: &str) -> (out: Vec<KeyRecord>)
    ensures
        record_views(out@) == key_table_spec(raw@),
{
    let chars = chars_of(raw);
    let mut comma: Vec<char> = Vec::new();
    comma.push(',');
    assert(comma@ =~= seq![',']);
    let pieces = split_chars(&chars, &comma);
    let ghost all = crate::text::rows(pieces@);
    let mut out: Vec<KeyRecord> = Vec::new();
    let mut i: usize = 0;
    assert(record_views(out@) =~= Seq::empty());
    while i < pieces.len()
        invariant
            i <= pieces@.len(),
            all == crate::text::rows(pieces@),
            record_views(out@) == records_of(all, i as nat),
        decreases pieces@.len() - i,
    {
        let ghost before = record_views(out@);
        assert(all[i as int] == pieces@[i as int]@);
        match parse_record(&pieces[i], i) {
            Some(r) => {
                let ghost v = r@;
                out.push(r);
                assert(record_views(out@) =~= before.push(v));
            },
            None => {},
        }
        i += 1;
    }
    assert(record_views(out@).len() == out@.len());
    if out.len() == 0 {
        out.push(
            KeyRecord {
                secret: copy_str("demo-key"),
                org_id: copy_str("demo-org"),
                api_key_id: copy_str("key-01"),
            },
        );
        assert(record_views(out@) =~= seq![demo_record()]);
    }
    out
}

/// The key that an authorization presents: what follows `bearer`, in any
/// letter case, in an authorization of at least seven characters, trimmed;
/// none when nothing but white space follows.
pub open spec fn bearer_key(authorization: Seq<char>) -> Option<Seq<char>> {
    if authorization.len() >= 7 && eq_ignore_ascii_case_spec(authorization.take(6), "bearer"@)
        && trim_spec(authorization.skip(6)).len() > 0 {
        Some(trim_spec(authorization.skip(6)))
    } else {
        None
    }
}

/// The key that the headers of a request present: that of the
/// authorization when it presents one, else the trimmed key header when
/// that is not empty. An empty key is never presented.
pub open spec fn presented_key(authorization: Option<Seq<char>>, key_header: Option<Seq<char>>) -> Option<
    Seq<char>,
> {
    if authorization is Some && bearer_key(authorization->0) is Some {
        bearer_key(authorization->0)
    } else if key_header is Some && trim_spec(key_header->0).len() > 0 {
        Some(trim_spec(key_header->0))
    } else {
        None
    }
}

/// A key that is presented is not empty and neither begins nor ends with
/// white space.
pub proof fn lemma_presented_key_is_sound(
    authorization: Option<Seq<char>>,
    key_header: Option<Seq<char>>,
)
    ensures
        presented_key(authorization, key_header) matches Some(key) ==> key.len() > 0 && !is_space(
            key[0],
        ) && !is_space(key.last()),
{
    if authorization is Some {
        lemma_trimmed_has_no_white_ends(authorization->0.skip(6));
    }
    if key_header is Some {
        lemma_trimmed_has_no_white_ends(key_header->0);
    }
}

fn after_bearer(raw: &str) -> (out: Option<String>)
    ensures
        crate::text::opt_text(out) == bearer_key(raw@),
{
    let chars = chars_of(raw);
    if chars.len() < 7 {
        return None;
    }
    let mut head: Vec<char> = Vec::new();
    let mut i: usize = 0;
    while i < 6
        invariant
            i <= 6,
            chars@.len() >= 7,
            head@ == chars@.take(i as int),
        decreases 6 - i,
    {
        head.push(chars[i]);
        assert(chars@.take(i + 1) =~= chars@.take(i as int).push(chars@[i as int]));
        i += 1;
    }
    let word = chars_of("bearer");
    if !eq_ignore_ascii_case(&head, &word) {
        return None;
    }
    let rest = string_of_range(&chars, 6, chars.len());
    assert(chars@.subrange(6, chars@.len() as int) =~= chars@.skip(6));
    let key = trim(rest.as_str());
    if key.as_str().is_empty() {
        None
    } else {
        Some(key)
    }
}

/// The key that a request presents in its authorization header or its key header.
pub fn extract_api_key(authorization: Option<&str>, key_header: Option<&str>) -> (out: Option<
    String,
>)
    ensures
        crate::text::opt_text(out) == presented_key(
            match authorization {
                Some(a) => Some(a@),
                None => None,
            },
            match key_header {
                Some(k) => Some(k@),
                None => None,
            },
        ),
{
    if let Some(raw) = authorization {
        if let Some(key) = after_bearer(raw) {
            return Some(key);
        }
    }
    match key_header {
        Some(value) => {
            let key = trim(value);
            if key.as_str().is_empty() {
                None
            } else {
                Some(key)
            }
        },
        None => None,
    }
}

/// One bucket with the organization that it belongs to.
#[derive(Debug)]
pub struct BucketEntry {
    pub key: String,
    pub state: BucketState,
}

/// The buckets of all organizations, one for each that has made a request.
#[derive(Debug)]
pub struct TokenBuckets {
    limit: RateLimit,
    buckets: Vec<BucketEntry>,
}

/// The state of the bucket of `key`, when it has one.
pub open spec fn bucket_of(entries: Seq<(Seq<char>, BucketState)>, key: Seq<char>) -> Option<
    BucketState,
>
    decreases entries.len(),
{
    if entries.len() == 0 {
        None
    } else if entries.last().0 == key {
        Some(entries.last().1)
    } else {
        bucket_of(entries.drop_last(), key)
    }
}

/// What a request of the organization `key` at the time `now_ns` does to
/// the buckets `before`, which become `after`, and how it is answered. An
/// organization's first request finds a full bucket. The request is let
/// through and takes a token when the bucket, filled by what flowed in
/// since its last request, holds a whole token; no other bucket changes.
pub open spec fn consumed(
    limit: RateLimit,
    before: Seq<(Seq<char>, BucketState)>,
    key: Seq<char>,
    now_ns: u64,
    after: Seq<(Seq<char>, BucketState)>,
    out: Result<RatePermit, RateExceeded>,
) -> bool {
    let found = match bucket_of(before, key) {
        Some(s) => s,
        None => crate::rate_limit::limit_full(limit, now_ns),
    };
    let left = after_request(limit, found, now_ns);
    &&& bucket_of(after, key) == Some(left)
    &&& forall|other: Seq<char>| other != key ==> bucket_of(after, other) == bucket_of(before, other)
    &&& if admits(limit, found, now_ns) {
        out is Ok && out->Ok_0.wf() && out->Ok_0 == (RatePermit {
            capacity_milli: limit.capacity_milli,
            tokens_pico: left.tokens_pico,
            rate_milli: limit.rate_milli,
        })
    } else {
        out is Err && out->Err_0.wf() && out->Err_0 == (RateExceeded {
            capacity_milli: limit.capacity_milli,
            tokens_pico: left.tokens_pico,
            rate_milli: limit.rate_milli,
        })
    }
}

fn bucket_position(buckets: &Vec<BucketEntry>, key: &str) -> (out: Option<usize>)
    ensures
        match out {
            Some(at) => at < buckets@.len() && buckets@[at as int].key@ == key@,
            None => forall|k: int| 0 <= k < buckets@.len() ==> buckets@[k].key@ != key@,
        },
{
    let mut i: usize = 0;
    while i < buckets.len()
        invariant
            i <= buckets@.len(),
            forall|k: int| 0 <= k < i ==> buckets@[k].key@ != key@,
        decreases buckets@.len() - i,
    {
        if same_text(buckets[i].key.as_str(), key) {
            return Some(i);
        }
        i += 1;
    }
    None
}

impl TokenBuckets {
    /// The limit of every bucket.
    pub closed spec fn limit_spec(self) -> RateLimit {
        self.limit
    }

    /// The buckets as pairs of organization and state.
    pub closed spec fn view(self) -> Seq<(Seq<char>, BucketState)> {
        Seq::new(self.buckets@.len(), |i: int| (self.buckets@[i].key@, self.buckets@[i].state))
    }

    /// The limit is sound, no organization has two buckets, and every bucket
    /// holds between nothing and the capacity.
    pub closed spec fn wf(self) -> bool {
        &&& self.limit.wf()
        &&& forall|i: int, j: int|
            0 <= i < j < self.buckets@.len() ==> self.buckets@[i].key@ != self.buckets@[j].key@
        &&& forall|i: int|
            0 <= i < self.buckets@.len() ==> in_range(self.limit, #[trigger] self.buckets@[i].state)
    }

    /// Every bucket of a sound table holds between nothing and the capacity.
    pub proof fn lemma_buckets_in_range(self, key: Seq<char>)
        requires
            self.wf(),
            bucket_of(self@, key) is Some,
        ensures
            in_range(self.limit_spec(), bucket_of(self@, key)->0),
    {
        Self::lemma_bucket_found(self@, key);
        let i = choose|i: int| 0 <= i < self@.len() && self@[i] == (key, bucket_of(self@, key)->0);
        assert(self.buckets@[i].state == bucket_of(self@, key)->0);
    }

    proof fn lemma_bucket_found(entries: Seq<(Seq<char>, BucketState)>, key: Seq<char>)
        ensures
            bucket_of(entries, key) is Some ==> exists|i: int|
                0 <= i < entries.len() && #[trigger] entries[i] == (
                    key,
                    bucket_of(entries, key)->0,
                ),
            bucket_of(entries, key) is None ==> forall|i: int|
                0 <= i < entries.len() ==> (#[trigger] entries[i]).0 != key,
        decreases entries.len(),
    {
        if entries.len() > 0 {
            let rest = entries.drop_last();
            Self::lemma_bucket_found(rest, key);
            if entries.last().0 == key {
                assert(entries[entries.len() - 1] == (key, entries.last().1));
            } else {
                if bucket_of(rest, key) is Some {
                    let i = choose|i: int|
                        0 <= i < rest.len() && #[trigger] rest[i] == (
                            key,
                            bucket_of(rest, key)->0,
                        );
                    assert(entries[i] == rest[i]);
                } else {
                    assert forall|i: int| 0 <= i < entries.len() implies (
                    #[trigger] entries[i]).0 != key by {
                        if i < rest.len() {
                            assert(rest[i] == entries[i]);
                        }
                    }
                }
            }
        }
    }

    /// No bucket yet, with the given limit.
    pub fn new(limit: RateLimit) -> (out: TokenBuckets)
        requires
            limit.wf(),
        ensures
            out.wf(),
            out.limit_spec() == limit,
            out@ == Seq::<(Seq<char>, BucketState)>::empty(),
    {
        let out = TokenBuckets { limit, buckets: Vec::new() };
        assert(out@ =~= Seq::empty());
        out
    }

    /// A request of the organization `key` at the time `now_ns`: see `consumed`.
    pub fn consume(&mut self, key: &str, now_ns: u64) -> (out: Result<RatePermit, RateExceeded>)
        requires
            old(self).wf(),
        ensures
            final(self).wf(),
            final(self).limit_spec() == old(self).limit_spec(),
            consumed(old(self).limit_spec(), old(self)@, key@, now_ns, final(self)@, out),
    {
        let ghost before_view = self@;
        let limit = self.limit;
        let found = bucket_position(&self.buckets, key);
        let at: usize = match found {
            Some(at) => at,
            None => {
                self.buckets.push(
                    BucketEntry { key: copy_str(key), state: limit.full_bucket(now_ns) },
                );
                self.buckets.len() - 1
            },
        };
        let ghost mid = self@;
        let ghost start = self.buckets@[at as int].state;
        proof {
            Self::lemma_bucket_found(before_view, key@);
            if found is Some {
                assert(mid =~= before_view);
                assert(before_view[at as int] == (key@, start));
                Self::lemma_unique_lookup(before_view, key@, at as int);
            } else {
                assert(mid =~= before_view.push((key@, start)));
            }
        }
        let old_entry = self.buckets.remove(at);
        let mut state = old_entry.state;
        let out = take_token(&limit, &mut state, now_ns);
        self.buckets.insert(at, BucketEntry { key: old_entry.key, state });
        proof {
            let after_view = self@;
            assert(after_view =~= mid.update(at as int, (key@, state)));
            assert forall|a: int, b: int| 0 <= a < b < self.buckets@.len() implies self.buckets@[a].key@
                != self.buckets@[b].key@ by {
                assert(after_view[a].0 == mid[a].0 && after_view[b].0 == mid[b].0);
                if found is Some {
                    assert(mid[a].0 == old(self).buckets@[a].key@);
                    assert(mid[b].0 == old(self).buckets@[b].key@);
                } else {
                    if b < before_view.len() {
                        assert(mid[a].0 == old(self).buckets@[a].key@);
                        assert(mid[b].0 == old(self).buckets@[b].key@);
                    } else {
                        assert(mid[a].0 == old(self).buckets@[a].key@);
                        assert(old(self).buckets@[a].key@ != key@);
                    }
                }
            }
            assert forall|k: int| 0 <= k < self.buckets@.len() implies in_range(
                self.limit,
                #[trigger] self.buckets@[k].state,
            ) by {
                if k != at {
                    assert(after_view[k] == mid[k]);
                    if k < before_view.len() {
                        assert(self.buckets@[k].state == old(self).buckets@[k].state);
                    }
                }
            }
            Self::lemma_unique_lookup(after_view, key@, at as int);
            assert forall|other: Seq<char>| other != key@ implies bucket_of(after_view, other)
                == bucket_of(before_view, other) by {
                Self::lemma_lookup_update(mid, at as int, key@, state, other);
                if found is None {
                    assert(mid.drop_last() =~= before_view);
                }
            }
        }
        out
    }

    proof fn lemma_unique_lookup(entries: Seq<(Seq<char>, BucketState)>, key: Seq<char>, at: int)
        requires
            0 <= at < entries.len(),
            entries[at].0 == key,
            forall|i: int, j: int|
                0 <= i < j < entries.len() ==> (#[trigger] entries[i]).0 != (
                #[trigger] entries[j]).0,
        ensures
            bucket_of(entries, key) == Some(entries[at].1),
        decreases entries.len(),
    {
        if entries.last().0 == key {
            if at < entries.len() - 1 {
                assert(entries[at].0 != entries[entries.len() - 1].0);
            }
        } else {
            let rest = entries.drop_last();
            assert(rest[at] == entries[at]);
            assert forall|i: int, j: int| 0 <= i < j < rest.len() implies (#[trigger] rest[i]).0
                != (#[trigger] rest[j]).0 by {
                assert(rest[i] == entries[i] && rest[j] == entries[j]);
            }
            Self::lemma_unique_lookup(rest, key, at);
        }
    }

    proof fn lemma_lookup_update(
        entries: Seq<(Seq<char>, BucketState)>,
        at: int,
        key: Seq<char>,
        state: BucketState,
        other: Seq<char>,
    )
        requires
            0 <= at < entries.len(),
            entries[at].0 == key,
            other != key,
        ensures
            bucket_of(entries.update(at, (key, state)), other) == bucket_of(entries, other),
        decreases entries.len(),
    {
        let changed = entries.update(at, (key, state));
        if at == entries.len() - 1 {
            assert(changed.drop_last() =~= entries.drop_last());
        } else {
            assert(changed.drop_last() =~= entries.drop_last().update(at, (key, state)));
            assert(changed.last() == entries.last());
            if entries.last().0 != other {
                Self::lemma_lookup_update(entries.drop_last(), at, key, state, other);
            }
        }
    }
}

/// The keys that are known and the buckets of their organizations.
#[derive(Debug)]
pub struct AuthState {
    records: Vec<KeyRecord>,
    limiter: TokenBuckets,
}

/// What becomes of a request at the door.
#[derive(Debug)]
pub enum Admission {
    /// No key was presented: answered with 401 `missing_api_key`.
    MissingKey,
    /// The key is not known: answered with 401 `invalid_api_key`.
    InvalidKey,
    /// The organization has no token left: answered with 429 `rate_limited`.
    Limited { context: AuthContext, exceeded: RateExceeded },
    /// The request goes on, on behalf of `context`.
    Admitted { context: AuthContext, permit: RatePermit },
}

/// How a request that is not let through is answered: a status, an error
/// code and a note for the client.
#[derive(Debug, Clone, Copy)]
pub struct Rejection {
    pub status: u16,
    pub code: &'static str,
    pub note: &'static str,
}

impl Admission {
    /// On whose behalf the request was made, when its key is known.
    pub open spec fn context(self) -> Option<AuthContext> {
        match self {
            Admission::Admitted { context, .. } => Some(context),
            Admission::Limited { context, .. } => Some(context),
            _ => None,
        }
    }

    /// What the organization's bucket said; a request without a known key
    /// never reaches a bucket.
    pub open spec fn answer(self) -> Result<RatePermit, RateExceeded> {
        match self {
            Admission::Admitted { permit, .. } => Ok(permit),
            Admission::Limited { exceeded, .. } => Err(exceeded),
            _ => Err(RateExceeded { capacity_milli: 0, tokens_pico: 0, rate_milli: 0 }),
        }
    }

    /// How the request is answered when it is not let through: 401 without
    /// a key or with an unknown one, 429 when the organization has no token left.
    pub fn rejection(&self) -> (out: Option<Rejection>)
        ensures
            out is None <==> self is Admitted,
            self is MissingKey ==> out->0.status == 401 && out->0.code@ == "missing_api_key"@
                && out->0.note@ == "Provide X-Hermes-Key or Bearer token"@,
            self is InvalidKey ==> out->0.status == 401 && out->0.code@ == "invalid_api_key"@
                && out->0.note@ == "Key not recognized"@,
            self is Limited ==> out->0.status == 429 && out->0.code@ == "rate_limited"@
                && out->0.note@ == "Too many requests"@,
    {
        match self {
            Admission::MissingKey => Some(
                Rejection {
                    status: 401,
                    code: "missing_api_key",
                    note: "Provide X-Hermes-Key or Bearer token",
                },
            ),
            Admission::InvalidKey => Some(
                Rejection { status: 401, code: "invalid_api_key", note: "Key not recognized" },
            ),
            Admission::Limited { .. } => Some(
                Rejection { status: 429, code: "rate_limited", note: "Too many requests" },
            ),
            Admission::Admitted { .. } => None,
        }
    }
}

/// The headers that tell a client of its rate limit.
#[derive(Debug, Clone, Copy, PartialEq, Eq, Structural)]
pub struct RateHeaders {
    pub limit: u64,
    pub remaining: u64,
    pub reset: u64,
    pub retry_after: Option<u64>,
}

impl AuthState {
    /// The known keys as plain values.
    pub closed spec fn records_spec(self) -> Seq<(Seq<char>, Seq<char>, Seq<char>)> {
        record_views(self.records@)
    }

    /// The buckets.
    pub closed spec fn limiter_spec(self) -> TokenBuckets {
        self.limiter
    }

    /// Whether the buckets are sound.
    pub open spec fn wf(self) -> bool {
        self.limiter_spec().wf()
    }

    /// The state with the keys of the list `keys` and empty buckets of the given limit.
    pub fn new(keys: &str, limit: RateLimit) -> (out: AuthState)
        requires
            limit.wf(),
        ensures
            out.wf(),
            out.records_spec() == key_table_spec(keys@),
            out.limiter_spec().limit_spec() == limit,
            out.limiter_spec()@.len() == 0,
    {
        AuthState { records: parse_api_keys(keys), limiter: TokenBuckets::new(limit) }
    }

    /// Whose the presented secret is, when it is known.
    pub fn authenticate(&self, presented: &str) -> (out: Option<AuthContext>)
        ensures
            match out {
                Some(ctx) => find_record(self.records_spec(), presented@) matches Some(r)
                    && ctx.org_id@ == r.1 && ctx.api_key_id@ == r.2,
                None => find_record(self.records_spec(), presented@) is None,
            },
    {
        let ghost all = record_views(self.records@);
        let mut j: usize = self.records.len();
        assert(all.take(j as int) =~= all);
        while j > 0
            invariant
                j <= self.records@.len(),
                all == record_views(self.records@),
                find_record(all, presented@) == find_record(all.take(j as int), presented@),
            decreases j,
        {
            let ghost part = all.take(j as int);
            assert(part.last() == self.records@[j - 1]@);
            assert(part.drop_last() =~= all.take(j - 1));
            if same_text(self.records[j - 1].secret.as_str(), presented) {
                return Some(
                    AuthContext {
                        org_id: self.records[j - 1].org_id.clone(),
                        api_key_id: self.records[j - 1].api_key_id.clone(),
                    },
                );
            }
            j -= 1;
        }
        None
    }

    /// A request of the organization `org_id` at the time `now_ns`.
    pub fn consume(&mut self, org_id: &str, now_ns: u64) -> (out: Result<RatePermit, RateExceeded>)
        requires
            old(self).wf(),
        ensures
            final(self).wf(),
            final(self).records_spec() == old(self).records_spec(),
            final(self).limiter_spec().limit_spec() == old(self).limiter_spec().limit_spec(),
            consumed(
                old(self).limiter_spec().limit_spec(),
                old(self).limiter_spec()@,
                org_id@,
                now_ns,
                final(self).limiter_spec()@,
                out,
            ),
    {
        self.limiter.consume(org_id, now_ns)
    }

    /// What becomes of a request with the given headers at the time
    /// `now_ns`: without a key it is turned away as missing one, with an
    /// unknown key as invalid; else its organization's bucket decides.
    pub fn check_request(
        &mut self,
        authorization: Option<&str>,
        key_header: Option<&str>,
        now_ns: u64,
    ) -> (out: Admission)
        requires
            old(self).wf(),
        ensures
            final(self).wf(),
            final(self).records_spec() == old(self).records_spec(),
            ({
                let key = presented_key(
                    match authorization {
                        Some(a) => Some(a@),
                        None => None,
                    },
                    match key_header {
                        Some(k) => Some(k@),
                        None => None,
                    },
                );
                let limit = old(self).limiter_spec().limit_spec();
                match key {
                    None => out is MissingKey && final(self).limiter_spec() == old(
                        self,
                    ).limiter_spec(),
                    Some(k) => match find_record(old(self).records_spec(), k) {
                        None => out is InvalidKey && final(self).limiter_spec() == old(
                            self,
                        ).limiter_spec(),
                        Some(r) => {
                            &&& out.context() matches Some(context) && context.org_id@ == r.1
                                && context.api_key_id@ == r.2
                            &&& consumed(
                                limit,
                                old(self).limiter_spec()@,
                                r.1,
                                now_ns,
                                final(self).limiter_spec()@,
                                out.answer(),
                            )
                        },
                    },
                }
            }),
    {
        let presented = match extract_api_key(authorization, key_header) {
            Some(p) => p,
            None => {
                return Admission::MissingKey;
            },
        };
        let context = match self.authenticate(presented.as_str()) {
            Some(c) => c,
            None => {
                return Admission::InvalidKey;
            },
        };
        match self.limiter.consume(context.org_id.as_str(), now_ns) {
            Ok(permit) => Admission::Admitted { context, permit },
            Err(exceeded) => Admission::Limited { context, exceeded },
        }
    }
}

/// The headers of an admitted request.
pub fn permit_headers(permit: &RatePermit) -> (out: RateHeaders)
    requires
        permit.wf(),
    ensures
        out.limit == permit.capacity_milli / 1000,
        out.remaining == permit.tokens_pico / crate::rate_limit::PICO_PER_TOKEN,
        out.reset == crate::rate_limit::seconds_until(
            permit.capacity_milli * 1_000_000_000 - permit.tokens_pico,
            permit.rate_milli as int,
        ),
        out.retry_after is None,
{
    RateHeaders {
        limit: permit.limit(),
        remaining: permit.remaining(),
        reset: permit.reset(),
        retry_after: None,
    }
}

/// The headers of a rejected request.
pub fn exceeded_headers(exceeded: &RateExceeded) -> (out: RateHeaders)
    requires
        exceeded.wf(),
    ensures
        out.limit == exceeded.capacity_milli / 1000,
        out.remaining == 0,
        out.reset == crate::rate_limit::seconds_until(
            exceeded.capacity_milli * 1_000_000_000 - exceeded.tokens_pico,
            exceeded.rate_milli as int,
        ),
        out.retry_after == Some(
            crate::rate_limit::seconds_until(
                crate::rate_limit::PICO_PER_TOKEN - exceeded.tokens_pico,
                exceeded.rate_milli as int,
            ) as u64,
        ),
{
    RateHeaders {
        limit: exceeded.limit(),
        remaining: exceeded.remaining(),
        reset: exceeded.reset(),
        retry_after: Some(exceeded.retry_after()),
    }
}

} // verus!
