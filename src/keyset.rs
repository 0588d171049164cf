//! Signing-key sets and their per-issuer cache with time-based expiry.

use jsonwebtoken::jwk::{Jwk, JwkSet};
use vstd::prelude::*;

verus! {

#[verifier::external_type_specification]
#[verifier::external_body]
pub struct ExJwk(Jwk);

#[verifier::external_type_specification]
#[verifier::external_body]
pub struct ExJwkSet(JwkSet);

/// The key ids a published key-set document holds, one per key (`None`
/// for a key without `kid`), in the document's order.
pub uninterp spec fn published_kids(set: JwkSet) -> Seq<Option<Seq<char>>>;

/// Relies on jsonwebtoken's `JwkSet`: its `keys` field lists the keys in
/// the document's order, and each key's `common.key_id` is its `kid`. Each
/// key is paired with its id.
#[verifier::external_body]
fn keys_with_ids(set: JwkSet) -> (r: Vec<(Option<String>, Jwk)>)
    ensures
        r@.map_values(|e: (Option<String>, Jwk)| opt_string(e.0)) == published_kids(set),
{
    set.keys.into_iter().map(|k| (k.common.key_id.clone(), k)).collect()
}

/// The characters of an optional string.
pub open spec fn opt_string(o: Option<String>) -> Option<Seq<char>> {
    match o {
        Some(s) => Some(s@),
        None => None,
    }
}

/// One verification key, with the key id it was published under.
pub struct SigningKey {
    pub kid: Option<String>,
    pub jwk: Jwk,
}

/// A published set of verification keys. It is replaced whole on refresh,
/// never changed in place.
pub struct SigningKeySet {
    pub keys: Vec<SigningKey>,
}

/// Some key of `kids` carries the id `kid`.
pub open spec fn has_kid(kids: Seq<Option<Seq<char>>>, kid: Seq<char>) -> bool {
    exists|i: int| 0 <= i < kids.len() && kids[i] == Some(kid)
}

impl SigningKeySet {
    /// The key ids of the set, in order.
    pub open spec fn kids(&self) -> Seq<Option<Seq<char>>> {
        self.keys@.map_values(|k: SigningKey| opt_string(k.kid))
    }

    pub fn new(keys: Vec<SigningKey>) -> (r: Self)
        ensures
            r.keys@ == keys@,
    {
        SigningKeySet { keys }
    }

    /// The keys of a published key-set document, each under the key id it
    /// was published with, in the document's order.
    pub fn from_jwk_set(set: JwkSet) -> (r: Self)
        ensures
            r.kids() == published_kids(set),
    {
        let mut entries = keys_with_ids(set);
        let ghost all = entries@.map_values(|e: (Option<String>, Jwk)| opt_string(e.0));
        let mut keys: Vec<SigningKey> = Vec::new();
        assert(keys@.map_values(|k: SigningKey| opt_string(k.kid)) =~= Seq::<Option<Seq<char>>>::empty());
        assert(all =~= Seq::<Option<Seq<char>>>::empty() + entries@.map_values(
            |e: (Option<String>, Jwk)| opt_string(e.0),
        ));
        while entries.len() > 0
            invariant
                keys@.map_values(|k: SigningKey| opt_string(k.kid)) + entries@.map_values(
                    |e: (Option<String>, Jwk)| opt_string(e.0),
                ) == all,
            decreases entries@.len(),
        {
            let ghost done = keys@.map_values(|k: SigningKey| opt_string(k.kid));
            let ghost rest = entries@.map_values(|e: (Option<String>, Jwk)| opt_string(e.0));
            let (kid, jwk) = entries.remove(0);
            let ghost k0 = opt_string(kid);
            keys.push(SigningKey { kid, jwk });
            proof {
                assert(rest[0] == k0);
                assert(entries@.map_values(|e: (Option<String>, Jwk)| opt_string(e.0)) =~= rest.drop_first());
                assert(keys@.map_values(|k: SigningKey| opt_string(k.kid)) =~= done.push(k0));
                assert(done.push(k0) + rest.drop_first() =~= done + rest);
            }
        }
        assert(entries@.map_values(|e: (Option<String>, Jwk)| opt_string(e.0)) =~= Seq::<Option<Seq<char>>>::empty());
        assert(keys@.map_values(|k: SigningKey| opt_string(k.kid)) =~= all);
        SigningKeySet { keys }
    }

    /// The position of the first key whose id is `kid`.
    pub fn find_key(&self, kid: &str) -> (r: Option<usize>)
        ensures
            r matches Some(i) ==> i < self.kids().len() && self.kids()[i as int] == Some(kid@)
                && forall|j: int| 0 <= j < i ==> self.kids()[j] != Some(kid@),
            r is None ==> !has_kid(self.kids(), kid@),
    {
        let mut i: usize = 0;
        while i < self.keys.len()
            invariant
                i <= self.keys@.len(),
                forall|j: int| 0 <= j < i ==> self.kids()[j] != Some(kid@),
            decreases self.keys@.len() - i,
        {
            let matched = match &self.keys[i].kid {
                Some(k) => crate::text::same_text(k.as_str(), kid),
                None => false,
            };
            if matched {
                return Some(i);
            }
            i = i + 1;
        }
        None
    }
}

/// What the cache holds for one issuer: when the keys were fetched and their ids.
pub struct CachedKeys {
    pub fetched_at: u64,
    pub kids: Seq<Option<Seq<char>>>,
}

/// How a cached entry stands at some instant.
#[derive(Debug, Clone, Copy, PartialEq, Eq, Structural)]
pub enum Freshness {
    /// Fetched less than one time-to-live ago: served without a fetch.
    Fresh,
    /// Present but expired (or fetched "in the future"): a fetch is due.
    Stale,
    /// Never fetched successfully.
    Missing,
}

/// Keys fetched at `fetched_at` are live at `now` under a time-to-live of `ttl`.
pub open spec fn is_fresh(fetched_at: u64, now: u64, ttl: u64) -> bool {
    fetched_at <= now && now - fetched_at < ttl
}

pub open spec fn freshness_of(e: Option<CachedKeys>, now: u64, ttl: u64) -> Freshness {
    match e {
        Some(c) => if is_fresh(c.fetched_at, now, ttl) {
            Freshness::Fresh
        } else {
            Freshness::Stale
        },
        None => Freshness::Missing,
    }
}

struct CacheEntry {
    keys: SigningKeySet,
    fetched_at: u64,
}

spec fn entry_view(e: Option<CacheEntry>) -> Option<CachedKeys> {
    match e {
        Some(e) => Some(CachedKeys { fetched_at: e.fetched_at, kids: e.keys.kids() }),
        None => None,
    }
}

/// Key sets per issuer, by the issuer's position in the configured list,
/// each with the instant (milliseconds) it was fetched.
pub struct KeySetCache {
    entries: Vec<Option<CacheEntry>>,
    ttl_ms: u64,
}

impl View for KeySetCache {
    type V = Seq<Option<CachedKeys>>;

    closed spec fn view(&self) -> Seq<Option<CachedKeys>> {
        self.entries@.map_values(|e: Option<CacheEntry>| entry_view(e))
    }
}

impl KeySetCache {
    /// The time-to-live of an entry, in milliseconds.
    pub closed spec fn ttl(&self) -> u64 {
        self.ttl_ms
    }

    /// An empty cache for `issuers` issuers.
    pub fn new(issuers: usize, ttl_ms: u64) -> (r: Self)
        ensures
            r@.len() == issuers,
            forall|i: int| 0 <= i < issuers ==> r@[i] is None,
            r.ttl() == ttl_ms,
    {
        let mut entries: Vec<Option<CacheEntry>> = Vec::new();
        let mut k: usize = 0;
        while k < issuers
            invariant
                k <= issuers,
                entries@.len() == k,
                forall|i: int| 0 <= i < k ==> entries@[i] is None,
            decreases issuers - k,
        {
            entries.push(None);
            k = k + 1;
        }
        let r = KeySetCache { entries, ttl_ms };
        proof {
            assert forall|i: int| 0 <= i < issuers implies r@[i] is None by {
                assert(r.entries@[i] is None);
            }
        }
        r
    }

    /// The number of issuers the cache has room for.
    pub fn issuers(&self) -> (r: usize)
        ensures
            r == self@.len(),
    {
        self.entries.len()
    }

    /// How the entry of issuer `i` stands at `now`.
    pub fn lookup(&self, i: usize, now: u64) -> (r: Freshness)
        requires
            i < self@.len(),
        ensures
            r == freshness_of(self@[i as int], now, self.ttl()),
    {
        match &self.entries[i] {
            Some(e) => if e.fetched_at <= now && now - e.fetched_at < self.ttl_ms {
                Freshness::Fresh
            } else {
                Freshness::Stale
            },
            None => Freshness::Missing,
        }
    }

    /// The keys cached for issuer `i`, fresh or stale.
    pub fn keys(&self, i: usize) -> (r: Option<&SigningKeySet>)
        requires
            i < self@.len(),
        ensures
            r is Some <==> self@[i as int] is Some,
            r matches Some(ks) ==> self@[i as int]->0.kids == ks.kids(),
    {
        match &self.entries[i] {
            Some(e) => Some(&e.keys),
            None => None,
        }
    }

    /// Replaces the entry of issuer `i` whole with `keys`, fetched at `now`.
    pub fn store(&mut self, i: usize, keys: SigningKeySet, now: u64)
        requires
            i < old(self)@.len(),
        ensures
            final(self)@ == old(self)@.update(
                i as int,
                Some(CachedKeys { fetched_at: now, kids: keys.kids() }),
            ),
            final(self).ttl() == old(self).ttl(),
    {
        let ghost kids = keys.kids();
        self.entries.set(i, Some(CacheEntry { keys, fetched_at: now }));
        proof {
            assert(self@ =~= old(self)@.update(
                i as int,
                Some(CachedKeys { fetched_at: now, kids }),
            ));
        }
    }
}

/// Keys stored for an issuer at `t` are served from the cache, with no
/// fetch, at every instant from `t` until one time-to-live has passed; from
/// then on a lookup finds them stale and asks for exactly one new fetch.
pub proof fn lemma_cache_ttl(
    cache: Seq<Option<CachedKeys>>,
    i: int,
    kids: Seq<Option<Seq<char>>>,
    t: u64,
    now: u64,
    ttl: u64,
)
    requires
        0 <= i < cache.len(),
        t <= now,
    ensures
        freshness_of(cache.update(i, Some(CachedKeys { fetched_at: t, kids }))[i], now, ttl) == (
        if now - t < ttl {
            Freshness::Fresh
        } else {
            Freshness::Stale
        }),
{
}

} // verus!
