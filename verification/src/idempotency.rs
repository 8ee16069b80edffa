//! Replaying the answer to a request that was answered before.
//!
//! An answer is stored as the text that was sent, so a replay is the same
//! text, character for character.

use crate::text::{same_text, trim, trim_spec};
use vstd::prelude::*;

verus! {

/// What a request's idempotency key asks of the cache.
#[derive(Debug)]
pub enum CachePlan {
    /// The request has no key: it runs, and nothing is stored.
    Bypass,
    /// The answer is looked up and stored in the remote store.
    Remote { key: String },
    /// The answer is looked up and stored in this process.
    Local { key: String },
}

/// What a request with the given key header asks of the cache.
pub fn cache_plan(key_header: Option<&str>, remote_configured: bool) -> (out: CachePlan)
    ensures
        ({
            let key = match key_header {
                Some(h) => trim_spec(h@),
                None => Seq::<char>::empty(),
            };
            if key.len() == 0 {
                out is Bypass
            } else if remote_configured {
                out matches CachePlan::Remote { key: k } && k@ == key
            } else {
                out matches CachePlan::Local { key: k } && k@ == key
            }
        }),
{
    match key_header {
        Some(h) => {
            let key = trim(h);
            if key.as_str().is_empty() {
                CachePlan::Bypass
            } else if remote_configured {
                CachePlan::Remote { key }
            } else {
                CachePlan::Local { key }
            }
        },
        None => CachePlan::Bypass,
    }
}

/// One stored answer.
#[derive(Debug)]
pub struct CacheEntry {
    pub key: String,
    pub body: String,
}

/// The answers stored in this process. Nothing is ever evicted.
#[derive(Debug)]
pub struct ResponseCache {
    entries: Vec<CacheEntry>,
}

/// The answer stored under `key`: that of the last entry with that key.
pub open spec fn stored(entries: Seq<(Seq<char>, Seq<char>)>, key: Seq<char>) -> Option<
    Seq<char>,
>
    decreases entries.len(),
{
    if entries.len() == 0 {
        None
    } else if entries.last().0 == key {
        Some(entries.last().1)
    } else {
        stored(entries.drop_last(), key)
    }
}

/// What a request finds in the cache and what it then does.
#[derive(Debug)]
pub enum CacheStep {
    /// The stored answer is sent again.
    Replay { body: String },
    /// The request runs, and its answer is stored.
    Run,
}

impl ResponseCache {
    /// The entries as pairs of key and answer, oldest first.
    pub closed spec fn view(self) -> Seq<(Seq<char>, Seq<char>)> {
        Seq::new(self.entries@.len(), |i: int| (self.entries@[i].key@, self.entries@[i].body@))
    }

    /// A cache that holds nothing.
    pub fn new() -> (out: ResponseCache)
        ensures
            out@ == Seq::<(Seq<char>, Seq<char>)>::empty(),
    {
        let out = ResponseCache { entries: Vec::new() };
        assert(out@ =~= Seq::empty());
        out
    }

    /// The answer stored under `key`.
    pub fn get(&self, key: &str) -> (out: Option<String>)
        ensures
            crate::text::opt_text(out) == stored(self@, key@),
    {
        let ghost all = self@;
        let mut j: usize = self.entries.len();
        assert(all.take(j as int) =~= all);
        while j > 0
            invariant
                j <= self.entries@.len(),
                all == self@,
                stored(all, key@) == stored(all.take(j as int), key@),
            decreases j,
        {
            let ghost part = all.take(j as int);
            assert(part.last() == (self.entries@[j - 1].key@, self.entries@[j - 1].body@));
            assert(part.drop_last() =~= all.take(j - 1));
            if same_text(self.entries[j - 1].key.as_str(), key) {
                return Some(self.entries[j - 1].body.clone());
            }
            j -= 1;
        }
        None
    }

    /// Stores `body` under `key`, in place of what was stored there.
    pub fn insert(&mut self, key: String, body: String)
        ensures
            final(self)@ == old(self)@.push((key@, body@)),
    {
        let ghost before = self@;
        let ghost k = key@;
        let ghost b = body@;
        self.entries.push(CacheEntry { key, body });
        assert(self@ =~= before.push((k, b)));
    }

    /// What a request with the key `key` does: it sends the stored answer
    /// again when there is one, else it runs.
    pub fn begin(&self, key: &str) -> (out: CacheStep)
        ensures
            match stored(self@, key@) {
                Some(body) => out matches CacheStep::Replay { body: b } && b@ == body,
                None => out is Run,
            },
    {
        match self.get(key) {
            Some(body) => CacheStep::Replay { body },
            None => CacheStep::Run,
        }
    }
}

/// What is stored under a key is found under that key, and storing under
/// one key changes nothing under any other.
pub proof fn lemma_stored_after_insert(
    entries: Seq<(Seq<char>, Seq<char>)>,
    key: Seq<char>,
    body: Seq<char>,
    other: Seq<char>,
)
    ensures
        stored(entries.push((key, body)), key) == Some(body),
        other != key ==> stored(entries.push((key, body)), other) == stored(entries, other),
{
    assert(entries.push((key, body)).drop_last() =~= entries);
}

/// Two requests with one key get the same answer, character for character:
/// the first runs and its answer is stored, the second is sent that answer
/// again, whatever was stored under other keys in between.
pub proof fn lemma_replay_is_identical(
    entries: Seq<(Seq<char>, Seq<char>)>,
    key: Seq<char>,
    body: Seq<char>,
    between: Seq<(Seq<char>, Seq<char>)>,
)
    requires
        forall|i: int| 0 <= i < between.len() ==> (#[trigger] between[i]).0 != key,
    ensures
        stored(entries.push((key, body)) + between, key) == Some(body),
    decreases between.len(),
{
    let first = entries.push((key, body));
    if between.len() == 0 {
        assert(first + between =~= first);
        lemma_stored_after_insert(entries, key, body, key);
    } else {
        let all = first + between;
        assert(all.last() == between.last());
        assert(all.drop_last() =~= first + between.drop_last());
        assert forall|i: int| 0 <= i < between.drop_last().len() implies (
        #[trigger] between.drop_last()[i]).0 != key by {
            assert(between.drop_last()[i] == between[i]);
        }
        lemma_replay_is_identical(entries, key, body, between.drop_last());
    }
}

} // verus!
