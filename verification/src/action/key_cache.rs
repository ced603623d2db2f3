//! The memory of failed key fetches.
//!
//! An instance that could not deliver a key is not asked again for a while: for five minutes
//! where the network failed, for an hour where the answer was no.
use crate::text;
use crate::types::{self, Error, Timestamp};
use vstd::prelude::*;

verus! {

/// How many failures are remembered by default.
pub const DEFAULT_CACHE_CAPACITY: usize = 100;

/// How long a failure of the network is remembered, in seconds.
pub const TTL_NETWORK_ERROR_SECS: i64 = 300;

/// How long any other failure is remembered, in seconds.
pub const TTL_PERSISTENT_ERROR_SECS: i64 = 3600;

/// Why a key could not be fetched.
#[derive(Debug, Clone, Copy, PartialEq, Eq, Structural)]
pub enum FailureType {
    /// The network failed.
    NetworkError,
    /// There is no such key.
    NotFound,
    /// Access was denied.
    Unauthorized,
    /// The answer could not be read.
    ParseError,
}

impl FailureType {
    pub open spec fn ttl(self) -> i64 {
        if self is NetworkError {
            TTL_NETWORK_ERROR_SECS
        } else {
            TTL_PERSISTENT_ERROR_SECS
        }
    }

    /// How long a failure of this type is remembered, in seconds.
    pub fn ttl_secs(self) -> (r: i64)
        ensures
            r == self.ttl(),
    {
        match self {
            FailureType::NetworkError => TTL_NETWORK_ERROR_SECS,
            FailureType::NotFound | FailureType::Unauthorized | FailureType::ParseError =>
                TTL_PERSISTENT_ERROR_SECS,
        }
    }

    /// The type of failure that an error stands for; an unknown one counts as one of the network.
    pub open spec fn of(error: Error) -> FailureType {
        match error {
            Error::NotFound => FailureType::NotFound,
            Error::PermissionDenied => FailureType::Unauthorized,
            Error::Unauthorized => FailureType::Unauthorized,
            Error::Parse => FailureType::ParseError,
            _ => FailureType::NetworkError,
        }
    }

    pub fn from_error(error: &Error) -> (r: FailureType)
        ensures
            r == FailureType::of(*error),
    {
        match error {
            Error::NotFound => FailureType::NotFound,
            Error::PermissionDenied | Error::Unauthorized => FailureType::Unauthorized,
            Error::Parse => FailureType::ParseError,
            _ => FailureType::NetworkError,
        }
    }
}

/// A remembered failure.
#[derive(Debug, Clone, Copy)]
pub struct FailureEntry {
    pub failed_at: Timestamp,
    pub failure_type: FailureType,
    /// When the key may be asked for again.
    pub retry_after: Timestamp,
}

/// The entry for a failure at a given time.
pub open spec fn failure_at(failure_type: FailureType, now: Timestamp) -> FailureEntry {
    FailureEntry {
        failed_at: now,
        failure_type,
        retry_after: Timestamp(
            types::saturating_sum(now.0 as int, failure_type.ttl() as int) as i64,
        ),
    }
}

impl FailureEntry {
    /// The entry for a failure that happens now.
    pub fn new(failure_type: FailureType) -> (r: FailureEntry)
        ensures
            r == failure_at(failure_type, r.failed_at),
    {
        FailureEntry::new_at(failure_type, Timestamp::now())
    }

    pub fn new_at(failure_type: FailureType, now: Timestamp) -> (r: FailureEntry)
        ensures
            r == failure_at(failure_type, now),
    {
        let ttl: i64 = failure_type.ttl_secs();
        FailureEntry { failed_at: now, failure_type, retry_after: now.add_seconds(ttl) }
    }

    /// Whether the key may be asked for again now.
    pub fn is_expired(&self) -> (r: bool)
        ensures
            exists|now: i64| r == #[trigger] self.expired_at(now),
    {
        let now = Timestamp::now();
        assert(self.expired_at(now.0) == (now.0 >= self.retry_after.0));
        self.is_expired_at(now)
    }

    pub open spec fn expired_at(self, now: i64) -> bool {
        now >= self.retry_after.0
    }

    pub fn is_expired_at(&self, now: Timestamp) -> (r: bool)
        ensures
            r == self.expired_at(now.0),
    {
        now.0 >= self.retry_after.0
    }

    /// The seconds until the key may be asked for again, counted from now.
    pub fn seconds_until_retry(&self) -> (r: i64)
        ensures
            r >= 0,
            exists|now: i64| #[trigger] self.waits_at(now, r),
    {
        let now = Timestamp::now();
        let r: i64 = self.seconds_until_retry_at(now);
        assert(self.waits_at(now.0, r));
        r
    }

    /// Whether `secs` is the time left at a given time, held at the largest 64-bit number.
    pub open spec fn waits_at(self, now: i64, secs: i64) -> bool {
        secs == (if now >= self.retry_after.0 {
            0
        } else if self.retry_after.0 - now > i64::MAX {
            i64::MAX as int
        } else {
            self.retry_after.0 - now
        })
    }

    pub fn seconds_until_retry_at(&self, now: Timestamp) -> (r: i64)
        ensures
            self.waits_at(now.0, r),
            r >= 0,
    {
        if now.0 >= self.retry_after.0 {
            0
        } else {
            match self.retry_after.0.checked_sub(now.0) {
                Some(d) => d,
                None => i64::MAX,
            }
        }
    }
}

// ---------------------------------------------------------------------------------------------
// The least-recently-used cache
// ---------------------------------------------------------------------------------------------

/// `lru::DefaultHasher`: how the cache hashes its keys.
#[verifier::external_type_specification]
#[verifier::external_body]
pub struct ExDefaultHasher(lru::DefaultHasher);

/// `lru::LruCache`: a bounded map that gives up what was used least recently.
#[verifier::external_type_specification]
#[verifier::external_body]
#[verifier::reject_recursive_types(K)]
#[verifier::reject_recursive_types(V)]
#[verifier::reject_recursive_types(S)]
pub struct ExLruCache<K, V, S>(lru::LruCache<K, V, S>);

/// The entries of a cache, the most recently used first.
pub uninterp spec fn cached(c: lru::LruCache<String, FailureEntry>) -> Seq<
    (Seq<char>, FailureEntry),
>;

/// The number of entries that a cache was made for.
pub uninterp spec fn cache_capacity(c: lru::LruCache<String, FailureEntry>) -> nat;

/// The entries without that of a key.
pub open spec fn without_key(s: Seq<(Seq<char>, FailureEntry)>, k: Seq<char>) -> Seq<
    (Seq<char>, FailureEntry),
>
    decreases s.len(),
{
    if s.len() == 0 {
        Seq::empty()
    } else if s.last().0 == k {
        without_key(s.drop_last(), k)
    } else {
        without_key(s.drop_last(), k).push(s.last())
    }
}

/// The entry of a key.
pub open spec fn entry_of(s: Seq<(Seq<char>, FailureEntry)>, k: Seq<char>) -> Option<FailureEntry>
    decreases s.len(),
{
    if s.len() == 0 {
        None
    } else if s.last().0 == k {
        Some(s.last().1)
    } else {
        entry_of(s.drop_last(), k)
    }
}

/// The entries once a key has been looked up: its entry, where there is one, comes first.
pub open spec fn used(s: Seq<(Seq<char>, FailureEntry)>, k: Seq<char>) -> Seq<
    (Seq<char>, FailureEntry),
> {
    match entry_of(s, k) {
        Some(e) => seq![(k, e)] + without_key(s, k),
        None => s,
    }
}

/// The entries once one has been put in: it comes first, in place of an earlier one for its key;
/// where there is none and the cache is full, the last one goes.
pub open spec fn put_in(
    s: Seq<(Seq<char>, FailureEntry)>,
    capacity: nat,
    k: Seq<char>,
    e: FailureEntry,
) -> Seq<(Seq<char>, FailureEntry)> {
    if entry_of(s, k) is Some {
        seq![(k, e)] + without_key(s, k)
    } else if s.len() > 0 && s.len() == capacity {
        seq![(k, e)] + s.drop_last()
    } else {
        seq![(k, e)] + s
    }
}

/// `lru::LruCache::new`: an empty cache for the given number of entries, of which there is at
/// least one. The limit keeps the size of its table within what can be allocated.
#[verifier::external_body]
fn lru_new(capacity: usize) -> (r: lru::LruCache<String, FailureEntry>)
    requires
        0 < capacity <= usize::MAX / 128,
    ensures
        cached(r) == Seq::<(Seq<char>, FailureEntry)>::empty(),
        cache_capacity(r) == capacity,
{
    lru::LruCache::new(std::num::NonZeroUsize::new(capacity).unwrap_or(std::num::NonZeroUsize::MIN))
}

/// `lru::LruCache::get`: the entry of a key, which becomes the most recently used one.
#[verifier::external_body]
fn lru_get(c: &mut lru::LruCache<String, FailureEntry>, key: &str) -> (r: Option<FailureEntry>)
    ensures
        r == entry_of(cached(*old(c)), key@),
        cached(*final(c)) == used(cached(*old(c)), key@),
        cache_capacity(*final(c)) == cache_capacity(*old(c)),
{
    c.get(key).copied()
}

/// `lru::LruCache::put`: the entry becomes the most recently used one, in place of an earlier
/// one for its key; where there is none and the cache is full, the least recently used one goes.
#[verifier::external_body]
fn lru_put(c: &mut lru::LruCache<String, FailureEntry>, key: String, e: FailureEntry)
    ensures
        cached(*final(c)) == put_in(cached(*old(c)), cache_capacity(*old(c)), key@, e),
        cache_capacity(*final(c)) == cache_capacity(*old(c)),
{
    c.put(key, e);
}

/// `lru::LruCache::pop`: the entry of a key goes; the others keep their order.
#[verifier::external_body]
fn lru_pop(c: &mut lru::LruCache<String, FailureEntry>, key: &str)
    ensures
        cached(*final(c)) == without_key(cached(*old(c)), key@),
        cache_capacity(*final(c)) == cache_capacity(*old(c)),
{
    c.pop(key);
}

/// `lru::LruCache::len`: the number of entries.
#[verifier::external_body]
fn lru_len(c: &lru::LruCache<String, FailureEntry>) -> (r: usize)
    ensures
        r == cached(*c).len(),
{
    c.len()
}

/// `lru::LruCache::clear`: all entries go.
#[verifier::external_body]
fn lru_clear(c: &mut lru::LruCache<String, FailureEntry>)
    ensures
        cached(*final(c)) == Seq::<(Seq<char>, FailureEntry)>::empty(),
        cache_capacity(*final(c)) == cache_capacity(*old(c)),
{
    c.clear();
}

/// The failures that are remembered. Where it is shared, the program puts a lock round it.
pub struct KeyFetchCache {
    failures: lru::LruCache<String, FailureEntry>,
}

/// The key of an issuer's key.
pub open spec fn failure_key(issuer: Seq<char>, key_id: Seq<char>) -> Seq<char> {
    issuer + ":"@ + key_id
}

pub open spec fn distinct_entries(s: Seq<(Seq<char>, FailureEntry)>) -> bool {
    forall|i: int, j: int| 0 <= i < j < s.len() ==> (#[trigger] s[i]).0 != (#[trigger] s[j]).0
}

proof fn lemma_without_key(s: Seq<(Seq<char>, FailureEntry)>, k: Seq<char>)
    requires
        distinct_entries(s),
    ensures
        distinct_entries(without_key(s, k)),
        forall|i: int| 0 <= i < without_key(s, k).len() ==> (#[trigger] without_key(s, k)[i]).0 != k
            && s.contains(without_key(s, k)[i]),
        forall|i: int|
            0 <= i < s.len() && (#[trigger] s[i]).0 != k ==> without_key(s, k).contains(s[i]),
        entry_of(s, k) is Some ==> without_key(s, k).len() == s.len() - 1,
        entry_of(s, k) is None ==> without_key(s, k) == s,
        entry_of(s, k) is None <==> (forall|i: int| 0 <= i < s.len() ==> (#[trigger] s[i]).0 != k),
    decreases s.len(),
{
    if s.len() > 0 {
        let t = s.drop_last();
        assert forall|i: int, j: int| 0 <= i < j < t.len() implies (#[trigger] t[i]).0 != (
        #[trigger] t[j]).0 by {
            assert(s[i].0 != s[j].0);
        }
        lemma_without_key(t, k);
        let w = without_key(s, k);
        let wt = without_key(t, k);
        assert forall|i: int| 0 <= i < wt.len() implies s.contains(#[trigger] wt[i]) by {
            let j = choose|j: int| 0 <= j < t.len() && t[j] == wt[i];
            assert(s[j] == wt[i]);
        }
        if s.last().0 == k {
            assert forall|i: int| 0 <= i < t.len() implies (#[trigger] t[i]).0 != k by {
                assert(s[i].0 != s[s.len() - 1].0);
            }
            assert(entry_of(t, k) is None);
            assert forall|i: int| 0 <= i < s.len() && (#[trigger] s[i]).0 != k implies w.contains(
                s[i],
            ) by {
                assert(t[i] == s[i]);
            }
            assert(s[s.len() - 1].0 == k);
        } else {
            assert(w == wt.push(s.last()));
            assert(s[s.len() - 1] == s.last());
            assert(s.contains(s.last()));
            assert forall|i: int, j: int| 0 <= i < j < w.len() implies (#[trigger] w[i]).0 != (
            #[trigger] w[j]).0 by {
                if j == wt.len() {
                    let a = choose|a: int| 0 <= a < t.len() && t[a] == wt[i];
                    assert(s[a].0 != s[s.len() - 1].0);
                }
            }
            assert forall|i: int| 0 <= i < s.len() && (#[trigger] s[i]).0 != k implies w.contains(
                s[i],
            ) by {
                if i < t.len() {
                    assert(t[i] == s[i]);
                    let a = choose|a: int| 0 <= a < wt.len() && wt[a] == s[i];
                    assert(w[a] == s[i]);
                } else {
                    assert(w[wt.len() as int] == s[i]);
                }
            }
            assert forall|i: int| 0 <= i < w.len() implies (#[trigger] w[i]).0 != k && s.contains(
                w[i],
            ) by {
                if i < wt.len() {
                    assert(w[i] == wt[i]);
                }
            }
            if entry_of(t, k) is None {
                assert(w =~= s);
            }
            if forall|i: int| 0 <= i < s.len() ==> (#[trigger] s[i]).0 != k {
                assert forall|i: int| 0 <= i < t.len() implies (#[trigger] t[i]).0 != k by {
                    assert(s[i].0 != k);
                }
            }
            if entry_of(s, k) is None {
                assert forall|i: int| 0 <= i < s.len() implies (#[trigger] s[i]).0 != k by {
                    if i < t.len() {
                        assert(t[i].0 != k);
                    }
                }
            }
        }
    }
}

proof fn lemma_front(k: Seq<char>, e: FailureEntry, rest: Seq<(Seq<char>, FailureEntry)>)
    requires
        distinct_entries(rest),
        forall|i: int| 0 <= i < rest.len() ==> (#[trigger] rest[i]).0 != k,
    ensures
        distinct_entries(seq![(k, e)] + rest),
        entry_of(seq![(k, e)] + rest, k) == Some(e),
    decreases rest.len(),
{
    let s = seq![(k, e)] + rest;
    assert forall|i: int, j: int| 0 <= i < j < s.len() implies (#[trigger] s[i]).0 != (
    #[trigger] s[j]).0 by {
        if i > 0 {
            assert(rest[i - 1].0 != rest[j - 1].0);
        } else {
            assert(rest[j - 1].0 != k);
        }
    }
    if rest.len() == 0 {
        assert(s.last() == (k, e));
    } else {
        let r = rest.drop_last();
        assert forall|i: int, j: int| 0 <= i < j < r.len() implies (#[trigger] r[i]).0 != (
        #[trigger] r[j]).0 by {
            assert(rest[i].0 != rest[j].0);
        }
        assert forall|i: int| 0 <= i < r.len() implies (#[trigger] r[i]).0 != k by {
            assert(rest[i].0 != k);
        }
        lemma_front(k, e, r);
        assert(s.last() == rest.last());
        assert(rest[rest.len() - 1].0 != k);
        assert(s.drop_last() =~= seq![(k, e)] + r);
    }
}

impl KeyFetchCache {
    /// The remembered failures, the most recently used first.
    pub closed spec fn entries(self) -> Seq<(Seq<char>, FailureEntry)> {
        cached(self.failures)
    }

    pub closed spec fn capacity(self) -> nat {
        cache_capacity(self.failures)
    }

    /// Every key occurs once, and there are no more entries than the cache was made for.
    pub open spec fn wf(self) -> bool {
        &&& distinct_entries(self.entries())
        &&& self.entries().len() <= self.capacity()
        &&& self.capacity() > 0
    }

    /// An empty cache for the given number of entries, but for one at least. The limit is that
    /// of the memory that can be allocated at once.
    pub fn new(max_entries: usize) -> (r: KeyFetchCache)
        requires
            max_entries <= usize::MAX / 128,
        ensures
            r.wf(),
            r.entries().len() == 0,
            r.capacity() == (if max_entries == 0 {
                1
            } else {
                max_entries as nat
            }),
    {
        let capacity: usize = if max_entries == 0 {
            1
        } else {
            max_entries
        };
        KeyFetchCache { failures: lru_new(capacity) }
    }

    fn make_key(issuer: &str, key_id: &str) -> (r: String)
        ensures
            r@ == failure_key(issuer@, key_id@),
    {
        let mut k = text::owned(issuer);
        k.append(":");
        k.append(key_id);
        k
    }

    /// Whether a failure counts now, and what is remembered then: one that has expired is
    /// forgotten.
    pub fn check_failure_at(&mut self, issuer: &str, key_id: &str, now: Timestamp) -> (r: Option<
        FailureEntry,
    >)
        requires
            old(self).wf(),
        ensures
            final(self).wf(),
            final(self).capacity() == old(self).capacity(),
            checked(
                old(self).entries(),
                failure_key(issuer@, key_id@),
                now.0,
                r,
                final(self).entries(),
            ),
    {
        let key = KeyFetchCache::make_key(issuer, key_id);
        let ghost before = self.entries();
        proof {
            lemma_without_key(before, key@);
        }
        match lru_get(&mut self.failures, key.as_str()) {
            Some(entry) => {
                proof {
                    lemma_front(key@, entry, without_key(before, key@));
                    lemma_without_key(self.entries(), key@);
                    lemma_drop_front(key@, entry, without_key(before, key@));
                }
                if entry.is_expired_at(now) {
                    lru_pop(&mut self.failures, key.as_str());
                    None
                } else {
                    Some(entry)
                }
            },
            None => None,
        }
    }

    /// The failure because of which a key is not to be asked for yet, if there is one.
    pub fn check_failure(&mut self, issuer: &str, key_id: &str) -> (r: Option<FailureEntry>)
        requires
            old(self).wf(),
        ensures
            final(self).wf(),
            final(self).capacity() == old(self).capacity(),
            exists|now: i64| #[trigger]
                checked(
                    old(self).entries(),
                    failure_key(issuer@, key_id@),
                    now,
                    r,
                    final(self).entries(),
                ),
    {
        let now = Timestamp::now();
        self.check_failure_at(issuer, key_id, now)
    }

    /// Remembers a failure that happened at a given time.
    pub fn record_failure_at(&mut self, issuer: &str, key_id: &str, error: &Error, now: Timestamp)
        requires
            old(self).wf(),
        ensures
            final(self).wf(),
            final(self).capacity() == old(self).capacity(),
            final(self).entries() == put_in(
                old(self).entries(),
                old(self).capacity(),
                failure_key(issuer@, key_id@),
                failure_at(FailureType::of(*error), now),
            ),
    {
        let key = KeyFetchCache::make_key(issuer, key_id);
        let entry = FailureEntry::new_at(FailureType::from_error(error), now);
        proof {
            let s = self.entries();
            lemma_put_in(s, self.capacity(), key@, entry);
        }
        lru_put(&mut self.failures, key, entry);
    }

    /// Remembers a failure that happens now.
    pub fn record_failure(&mut self, issuer: &str, key_id: &str, error: &Error)
        requires
            old(self).wf(),
        ensures
            final(self).wf(),
            final(self).capacity() == old(self).capacity(),
            exists|now: Timestamp|
                final(self).entries() == put_in(
                    old(self).entries(),
                    old(self).capacity(),
                    failure_key(issuer@, key_id@),
                    #[trigger] failure_at(FailureType::of(*error), now),
                ),
    {
        let now = Timestamp::now();
        self.record_failure_at(issuer, key_id, error, now);
    }

    /// Forgets a failure, as after a fetch that succeeded.
    pub fn clear_failure(&mut self, issuer: &str, key_id: &str)
        requires
            old(self).wf(),
        ensures
            final(self).wf(),
            final(self).capacity() == old(self).capacity(),
            final(self).entries() == without_key(
                old(self).entries(),
                failure_key(issuer@, key_id@),
            ),
    {
        let key = KeyFetchCache::make_key(issuer, key_id);
        proof {
            lemma_without_key(self.entries(), key@);
        }
        lru_pop(&mut self.failures, key.as_str());
    }

    pub fn len(&self) -> (r: usize)
        ensures
            r == self.entries().len(),
    {
        lru_len(&self.failures)
    }

    pub fn is_empty(&self) -> (r: bool)
        ensures
            r == (self.entries().len() == 0),
    {
        lru_len(&self.failures) == 0
    }

    /// Forgets everything.
    pub fn clear(&mut self)
        requires
            old(self).wf(),
        ensures
            final(self).wf(),
            final(self).capacity() == old(self).capacity(),
            final(self).entries().len() == 0,
    {
        lru_clear(&mut self.failures);
    }
}

impl Default for KeyFetchCache {
    fn default() -> (r: Self)
        ensures
            r.wf(),
            r.entries().len() == 0,
            r.capacity() == DEFAULT_CACHE_CAPACITY,
    {
        KeyFetchCache::new(DEFAULT_CACHE_CAPACITY)
    }
}

/// What looking a failure up gives, and what is remembered then: a failure that has not expired
/// is found and becomes the most recently used one, and one that has expired is forgotten.
pub open spec fn checked(
    before: Seq<(Seq<char>, FailureEntry)>,
    key: Seq<char>,
    now: i64,
    result: Option<FailureEntry>,
    after: Seq<(Seq<char>, FailureEntry)>,
) -> bool {
    match entry_of(before, key) {
        Some(e) => if e.expired_at(now) {
            result is None && after == without_key(before, key)
        } else {
            result == Some(e) && after == used(before, key)
        },
        None => result is None && after == before,
    }
}

proof fn lemma_drop_front(k: Seq<char>, e: FailureEntry, rest: Seq<(Seq<char>, FailureEntry)>)
    requires
        distinct_entries(rest),
        forall|i: int| 0 <= i < rest.len() ==> (#[trigger] rest[i]).0 != k,
    ensures
        without_key(seq![(k, e)] + rest, k) == rest,
    decreases rest.len(),
{
    let s = seq![(k, e)] + rest;
    if rest.len() == 0 {
        assert(s.drop_last() =~= Seq::<(Seq<char>, FailureEntry)>::empty());
        assert(s.last() == (k, e));
        reveal_with_fuel(without_key, 2);
        assert(without_key(s, k) =~= rest);
    } else {
        let r = rest.drop_last();
        assert forall|i: int, j: int| 0 <= i < j < r.len() implies (#[trigger] r[i]).0 != (
        #[trigger] r[j]).0 by {
            assert(rest[i].0 != rest[j].0);
        }
        assert forall|i: int| 0 <= i < r.len() implies (#[trigger] r[i]).0 != k by {
            assert(rest[i].0 != k);
        }
        lemma_drop_front(k, e, r);
        assert(s.drop_last() =~= seq![(k, e)] + r);
        assert(s.last() == rest.last());
        assert(rest[rest.len() - 1].0 != k);
        assert(without_key(s, k) =~= rest);
    }
}

proof fn lemma_put_in(
    s: Seq<(Seq<char>, FailureEntry)>,
    capacity: nat,
    k: Seq<char>,
    e: FailureEntry,
)
    requires
        distinct_entries(s),
        s.len() <= capacity,
        capacity > 0,
    ensures
        distinct_entries(put_in(s, capacity, k, e)),
        put_in(s, capacity, k, e).len() <= capacity,
        entry_of(put_in(s, capacity, k, e), k) == Some(e),
{
    lemma_without_key(s, k);
    if entry_of(s, k) is Some {
        lemma_front(k, e, without_key(s, k));
    } else if s.len() > 0 && s.len() == capacity {
        let t = s.drop_last();
        assert forall|i: int, j: int| 0 <= i < j < t.len() implies (#[trigger] t[i]).0 != (
        #[trigger] t[j]).0 by {
            assert(s[i].0 != s[j].0);
        }
        assert forall|i: int| 0 <= i < t.len() implies (#[trigger] t[i]).0 != k by {
            assert(s[i].0 != k);
        }
        lemma_front(k, e, t);
    } else {
        lemma_front(k, e, s);
    }
}

/// A failure that was just recorded is found until it expires, and not after that.
pub proof fn law_recorded_failure_is_found(
    s: Seq<(Seq<char>, FailureEntry)>,
    capacity: nat,
    k: Seq<char>,
    failure_type: FailureType,
    failed_at: Timestamp,
    now: i64,
    r: Option<FailureEntry>,
    after: Seq<(Seq<char>, FailureEntry)>,
)
    requires
        distinct_entries(s),
        s.len() <= capacity,
        capacity > 0,
        checked(put_in(s, capacity, k, failure_at(failure_type, failed_at)), k, now, r, after),
    ensures
        r is Some <==> now < types::saturating_sum(failed_at.0 as int, failure_type.ttl() as int),
        r matches Some(e) ==> e == failure_at(failure_type, failed_at),
{
    lemma_put_in(s, capacity, k, failure_at(failure_type, failed_at));
}

/// Recording a failure never exceeds the capacity, keeps every other entry while there is room,
/// and gives up only the least recently used one where there is none.
pub proof fn law_recording_keeps_the_recent(
    s: Seq<(Seq<char>, FailureEntry)>,
    capacity: nat,
    k: Seq<char>,
    e: FailureEntry,
    i: int,
)
    requires
        distinct_entries(s),
        s.len() <= capacity,
        capacity > 0,
        0 <= i < s.len(),
        s[i].0 != k,
    ensures
        put_in(s, capacity, k, e).len() <= capacity,
        entry_of(s, k) is Some || s.len() < capacity || i < s.len() - 1 ==> put_in(
            s,
            capacity,
            k,
            e,
        ).contains(s[i]),
{
    lemma_put_in(s, capacity, k, e);
    lemma_without_key(s, k);
    let p = put_in(s, capacity, k, e);
    if entry_of(s, k) is Some {
        let w = without_key(s, k);
        let a = choose|a: int| 0 <= a < w.len() && w[a] == s[i];
        assert(p[a + 1] == s[i]);
    } else if s.len() == capacity {
        if i < s.len() - 1 {
            assert(p[i + 1] == s[i]);
        }
    } else {
        assert(p[i + 1] == s[i]);
    }
}

/// A failure that was cleared is not found.
pub proof fn law_cleared_failure_is_gone(s: Seq<(Seq<char>, FailureEntry)>, k: Seq<char>)
    requires
        distinct_entries(s),
    ensures
        entry_of(without_key(s, k), k) is None,
{
    lemma_without_key(s, k);
    lemma_without_key(without_key(s, k), k);
}

} // verus!
