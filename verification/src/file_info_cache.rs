//! A cache of what the master reported of files.
//!
//! The cache holds a bounded number of entries and drops the one that was used
//! least recently. An entry counts for a limited time after it was put in.

use std::sync::Arc;

use vstd::prelude::*;
use vstd::string::*;

use crate::clock::{is_reading, present, read, shows, was_present, Duration};
use crate::error::Result;
use crate::proto::FileInfo;

verus! {

/// An entry of the cache.
pub struct CachedFileInfo {
    /// What the master reported.
    pub info: Arc<FileInfo>,
    /// When it was put in, since the start of the cache.
    pub inserted_at: Duration,
}

/// What the map hashes its keys with.
#[verifier::external_type_specification]
#[verifier::external_body]
pub struct ExLruHasher(lru::DefaultHasher);

/// A map that drops the entry that was used least recently.
#[verifier::external_type_specification]
#[verifier::external_body]
#[verifier::reject_recursive_types(K)]
#[verifier::reject_recursive_types(V)]
#[verifier::reject_recursive_types(S)]
pub struct ExLruCache<K, V, S>(lru::LruCache<K, V, S>);

/// The entries of a map, the one that was used most recently first.
pub uninterp spec fn lru_entries(c: lru::LruCache<String, CachedFileInfo>) -> Seq<
    (Seq<char>, CachedFileInfo),
>;

/// The number of entries that a map can hold.
pub uninterp spec fn lru_limit(c: lru::LruCache<String, CachedFileInfo>) -> nat;

/// The value of `key`, if there is one.
pub open spec fn found(entries: Seq<(Seq<char>, CachedFileInfo)>, key: Seq<char>) -> Option<
    CachedFileInfo,
>
    decreases entries.len(),
{
    if entries.len() == 0 {
        None
    } else if entries[0].0 == key {
        Some(entries[0].1)
    } else {
        found(entries.drop_first(), key)
    }
}

/// The entries but that of `key`.
pub open spec fn without(entries: Seq<(Seq<char>, CachedFileInfo)>, key: Seq<char>) -> Seq<
    (Seq<char>, CachedFileInfo),
>
    decreases entries.len(),
{
    if entries.len() == 0 {
        Seq::empty()
    } else if entries[0].0 == key {
        without(entries.drop_first(), key)
    } else {
        seq![entries[0]] + without(entries.drop_first(), key)
    }
}

/// The entries with that of `key` in front.
pub open spec fn with_front(
    entries: Seq<(Seq<char>, CachedFileInfo)>,
    key: Seq<char>,
    value: CachedFileInfo,
) -> Seq<(Seq<char>, CachedFileInfo)> {
    seq![(key, value)] + without(entries, key)
}

/// The first `limit` entries.
pub open spec fn bounded(entries: Seq<(Seq<char>, CachedFileInfo)>, limit: nat) -> Seq<
    (Seq<char>, CachedFileInfo),
> {
    if entries.len() <= limit {
        entries
    } else {
        entries.take(limit as int)
    }
}

/// `lru::LruCache::sparse`: an empty map that holds at most `limit` entries.
#[verifier::external_body]
fn lru_new(limit: usize) -> (r: lru::LruCache<String, CachedFileInfo>)
    requires
        limit > 0,
    ensures
        lru_entries(r).len() == 0,
        lru_limit(r) == limit,
{
    lru::LruCache::sparse(std::num::NonZeroUsize::new(limit).unwrap())
}

/// `lru::LruCache::peek`: the value of the key, which does not count as a use.
#[verifier::external_body]
fn lru_peek<'a>(c: &'a lru::LruCache<String, CachedFileInfo>, key: &str) -> (r: Option<
    &'a CachedFileInfo,
>)
    ensures
        match r {
            Some(v) => found(lru_entries(*c), key@) == Some(*v),
            None => found(lru_entries(*c), key@) is None,
        },
{
    c.peek(key)
}

/// `lru::LruCache::get`: the value of the key, which counts as a use: the entry
/// moves to the front.
#[verifier::external_body]
fn lru_get(c: &mut lru::LruCache<String, CachedFileInfo>, key: &str) -> (r: Option<Arc<FileInfo>>)
    ensures
        lru_limit(*final(c)) == lru_limit(*old(c)),
        match found(lru_entries(*old(c)), key@) {
            Some(v) => r == Some(v.info) && lru_entries(*final(c)) == with_front(
                lru_entries(*old(c)),
                key@,
                v,
            ),
            None => r is None && lru_entries(*final(c)) == lru_entries(*old(c)),
        },
{
    c.get(key).map(|v| v.info.clone())
}

/// `lru::LruCache::put`: puts the entry in front, in place of one with the same
/// key. Where there would be too many, the last one goes.
#[verifier::external_body]
fn lru_put(c: &mut lru::LruCache<String, CachedFileInfo>, key: String, value: CachedFileInfo)
    ensures
        lru_limit(*final(c)) == lru_limit(*old(c)),
        lru_entries(*final(c)) == bounded(
            with_front(lru_entries(*old(c)), key@, value),
            lru_limit(*old(c)),
        ),
{
    c.put(key, value);
}

/// `lru::LruCache::pop`: takes the entry of the key out, and tells whether there
/// was one.
#[verifier::external_body]
fn lru_pop(c: &mut lru::LruCache<String, CachedFileInfo>, key: &str) -> (r: bool)
    ensures
        lru_limit(*final(c)) == lru_limit(*old(c)),
        lru_entries(*final(c)) == without(lru_entries(*old(c)), key@),
        r == (found(lru_entries(*old(c)), key@) is Some),
{
    c.pop(key).is_some()
}

/// `lru::LruCache::len`: the number of entries.
#[verifier::external_body]
fn lru_len(c: &lru::LruCache<String, CachedFileInfo>) -> (r: usize)
    ensures
        r == lru_entries(*c).len(),
{
    c.len()
}

/// `lru::LruCache::clear`: takes all entries out.
#[verifier::external_body]
fn lru_clear(c: &mut lru::LruCache<String, CachedFileInfo>)
    ensures
        lru_limit(*final(c)) == lru_limit(*old(c)),
        lru_entries(*final(c)).len() == 0,
{
    c.clear()
}

/// Counters of a cache.
#[derive(Debug, Clone, Copy, PartialEq, Eq, Structural)]
pub struct FileInfoCacheStats {
    /// Lookups that found a fresh entry.
    pub hits: u64,
    /// Lookups that did not.
    pub misses: u64,
    /// Entries that were too old when they were looked up.
    pub expired: u64,
    /// Entries that were taken out on request.
    pub invalidations: u64,
}

impl Default for FileInfoCacheStats {
    fn default() -> (r: Self)
        ensures
            r == (FileInfoCacheStats { hits: 0, misses: 0, expired: 0, invalidations: 0 }),
    {
        FileInfoCacheStats { hits: 0, misses: 0, expired: 0, invalidations: 0 }
    }
}

/// A cache of what the master reported of files.
pub struct FileInfoCache {
    lru: lru::LruCache<String, CachedFileInfo>,
    ttl: Duration,
    epoch: std::time::Instant,
    latest: Duration,
    stats: FileInfoCacheStats,
}

/// Whether an entry is too old at the time `at`.
pub open spec fn is_expired(entry: CachedFileInfo, at: Duration, ttl: Duration) -> bool {
    let age = if at.nanos >= entry.inserted_at.nanos {
        at.nanos - entry.inserted_at.nanos
    } else {
        0
    };
    age >= ttl.nanos
}

/// The entries and counters after a lookup at the time `at`, and its result.
pub open spec fn looked_up(c: FileInfoCache, path: Seq<char>, at: Duration) -> (
    Seq<(Seq<char>, CachedFileInfo)>,
    FileInfoCacheStats,
    Option<Arc<FileInfo>>,
) {
    let s = c.counters();
    match found(c.entries(), path) {
        None => (
            c.entries(),
            FileInfoCacheStats { misses: u64::wrapping_add(s.misses, 1), ..s },
            None,
        ),
        Some(entry) => if is_expired(entry, at, c.lifetime()) {
            (
                without(c.entries(), path),
                FileInfoCacheStats {
                    misses: u64::wrapping_add(s.misses, 1),
                    expired: u64::wrapping_add(s.expired, 1),
                    ..s
                },
                None,
            )
        } else {
            (
                with_front(c.entries(), path, entry),
                FileInfoCacheStats { hits: u64::wrapping_add(s.hits, 1), ..s },
                Some(entry.info),
            )
        },
    }
}

/// The entries and counters once the entry of a path has been taken out, if there was
/// one.
pub open spec fn invalidated(
    entries: Seq<(Seq<char>, CachedFileInfo)>,
    stats: FileInfoCacheStats,
    path: Seq<char>,
) -> (Seq<(Seq<char>, CachedFileInfo)>, FileInfoCacheStats) {
    (
        without(entries, path),
        if found(entries, path) is Some {
            FileInfoCacheStats { invalidations: u64::wrapping_add(stats.invalidations, 1), ..stats }
        } else {
            stats
        },
    )
}

impl FileInfoCache {
    /// The entries, the one that was used most recently first.
    pub closed spec fn entries(self) -> Seq<(Seq<char>, CachedFileInfo)> {
        lru_entries(self.lru)
    }

    /// The number of entries that the cache can hold.
    pub closed spec fn limit(self) -> nat {
        lru_limit(self.lru)
    }

    /// How long an entry counts.
    pub closed spec fn lifetime(self) -> Duration {
        self.ttl
    }

    /// When the cache was made.
    pub closed spec fn started(self) -> std::time::Instant {
        self.epoch
    }

    /// The time since its start at which the cache was last used, as far as the clock or
    /// a caller has told it.
    pub closed spec fn latest(self) -> Duration {
        self.latest
    }

    /// Whether no entry was put in later than the cache was last used.
    pub open spec fn in_order(self) -> bool {
        forall|i: int|
            0 <= i < self.entries().len() ==> (#[trigger] self.entries()[i]).1.inserted_at.nanos
                <= self.latest().nanos
    }

    /// The counters.
    pub closed spec fn counters(self) -> FileInfoCacheStats {
        self.stats
    }

    /// A cache of at most `capacity` entries, and at least one, that count for
    /// `ttl`. There is none if that is no time at all.
    pub fn maybe_new(ttl: Duration, capacity: usize) -> (r: Option<Self>)
        ensures
            match r {
                None => ttl.nanos == 0,
                Some(c) => {
                    &&& ttl.nanos > 0
                    &&& c.entries().len() == 0
                    &&& c.limit() == (if capacity < 1 {
                        1
                    } else {
                        capacity as int
                    })
                    &&& c.lifetime() == ttl
                    &&& was_present(c.started())
                    &&& c.latest().nanos == 0
                    &&& c.counters() == (FileInfoCacheStats {
                        hits: 0,
                        misses: 0,
                        expired: 0,
                        invalidations: 0,
                    })
                },
            },
    {
        if ttl.is_zero() {
            return None;
        }
        let limit: usize = if capacity < 1 {
            1
        } else {
            capacity
        };
        Some(
            FileInfoCache {
                lru: lru_new(limit),
                ttl,
                epoch: present(),
                latest: Duration { nanos: 0 },
                stats: FileInfoCacheStats::default(),
            },
        )
    }

    /// What the cache holds of a path at the time `at` since its start. An
    /// entry that is too old is taken out.
    pub fn get_at(&mut self, path: &str, at: Duration) -> (r: Option<Arc<FileInfo>>)
        ensures
            (final(self).entries(), final(self).counters(), r) == looked_up(*old(self), path@, at),
            final(self).limit() == old(self).limit(),
            final(self).lifetime() == old(self).lifetime(),
            final(self).started() == old(self).started(),
            final(self).latest() == old(self).latest(),
    {
        let expired = match lru_peek(&self.lru, path) {
            None => {
                self.stats.misses = self.stats.misses.wrapping_add(1);
                return None;
            },
            Some(entry) => {
                let age: u128 = if at.nanos >= entry.inserted_at.nanos {
                    at.nanos - entry.inserted_at.nanos
                } else {
                    0
                };
                age >= self.ttl.nanos
            },
        };
        if expired {
            lru_pop(&mut self.lru, path);
            self.stats.expired = self.stats.expired.wrapping_add(1);
            self.stats.misses = self.stats.misses.wrapping_add(1);
            return None;
        }
        self.stats.hits = self.stats.hits.wrapping_add(1);
        lru_get(&mut self.lru, path)
    }

    /// What the cache holds of a path now. Which entries are too old depends on
    /// the clock.
    pub fn get(&mut self, path: &str) -> (r: Option<Arc<FileInfo>>)
        ensures
            is_reading(old(self).started(), old(self).latest(), final(self).latest()),
            (final(self).entries(), final(self).counters(), r) == looked_up(
                *old(self),
                path@,
                final(self).latest(),
            ),
            final(self).limit() == old(self).limit(),
            final(self).lifetime() == old(self).lifetime(),
            final(self).started() == old(self).started(),
    {
        let at = read(&self.epoch, self.latest);
        self.latest = at;
        self.get_at(path, at)
    }

    /// Puts in what the master reported of a path at the time `at` since the
    /// start of the cache.
    pub fn insert_at(&mut self, path: &str, info: Arc<FileInfo>, at: Duration)
        ensures
            final(self).entries() == bounded(
                with_front(old(self).entries(), path@, entry_of(info, at)),
                old(self).limit(),
            ),
            final(self).counters() == old(self).counters(),
            final(self).limit() == old(self).limit(),
            final(self).lifetime() == old(self).lifetime(),
            final(self).started() == old(self).started(),
            final(self).latest() == (if at.nanos >= old(self).latest().nanos {
                at
            } else {
                old(self).latest()
            }),
    {
        if at.nanos >= self.latest.nanos {
            self.latest = at;
        }
        lru_put(&mut self.lru, path.to_owned(), CachedFileInfo { info, inserted_at: at });
    }

    /// Puts in what the master reported of a path.
    pub fn insert(&mut self, path: &str, info: FileInfo)
        ensures
            is_reading(old(self).started(), old(self).latest(), final(self).latest()),
            final(self).entries() == bounded(
                with_front(
                    old(self).entries(),
                    path@,
                    entry_of(Arc::new(info), final(self).latest()),
                ),
                old(self).limit(),
            ),
            final(self).counters() == old(self).counters(),
            final(self).limit() == old(self).limit(),
            final(self).lifetime() == old(self).lifetime(),
            final(self).started() == old(self).started(),
    {
        self.insert_arc(path, Arc::new(info));
    }

    /// Puts in what the master reported of a path, shared with the caller.
    pub fn insert_arc(&mut self, path: &str, info: Arc<FileInfo>)
        ensures
            is_reading(old(self).started(), old(self).latest(), final(self).latest()),
            final(self).entries() == bounded(
                with_front(old(self).entries(), path@, entry_of(info, final(self).latest())),
                old(self).limit(),
            ),
            final(self).counters() == old(self).counters(),
            final(self).limit() == old(self).limit(),
            final(self).lifetime() == old(self).lifetime(),
            final(self).started() == old(self).started(),
    {
        let at = read(&self.epoch, self.latest);
        self.insert_at(path, info, at);
    }

    /// Takes the entry of a path out, if there is one.
    pub fn invalidate(&mut self, path: &str)
        ensures
            (final(self).entries(), final(self).counters()) == invalidated(
                old(self).entries(),
                old(self).counters(),
                path@,
            ),
            final(self).limit() == old(self).limit(),
            final(self).lifetime() == old(self).lifetime(),
            final(self).started() == old(self).started(),
            final(self).latest() == old(self).latest(),
    {
        if lru_pop(&mut self.lru, path) {
            self.stats.invalidations = self.stats.invalidations.wrapping_add(1);
        }
    }

    /// Takes in the outcome of deleting a path. Where that succeeded, nothing of the
    /// path is held any more.
    pub fn delete_done(&mut self, path: &str, outcome: Result<()>) -> (r: Result<()>)
        ensures
            r == outcome,
            (final(self).entries(), final(self).counters()) == (if outcome is Ok {
                invalidated(old(self).entries(), old(self).counters(), path@)
            } else {
                (old(self).entries(), old(self).counters())
            }),
            final(self).limit() == old(self).limit(),
            final(self).lifetime() == old(self).lifetime(),
            final(self).started() == old(self).started(),
            final(self).latest() == old(self).latest(),
    {
        if outcome.is_ok() {
            self.invalidate(path);
        }
        outcome
    }

    /// Takes in the outcome of renaming a path. Where that succeeded, nothing of the
    /// old and the new path is held any more.
    pub fn rename_done(&mut self, src: &str, dst: &str, outcome: Result<()>) -> (r: Result<()>)
        ensures
            r == outcome,
            (final(self).entries(), final(self).counters()) == (if outcome is Ok {
                let (entries, stats) = invalidated(
                    old(self).entries(),
                    old(self).counters(),
                    src@,
                );
                invalidated(entries, stats, dst@)
            } else {
                (old(self).entries(), old(self).counters())
            }),
            final(self).limit() == old(self).limit(),
            final(self).lifetime() == old(self).lifetime(),
            final(self).started() == old(self).started(),
            final(self).latest() == old(self).latest(),
    {
        if outcome.is_ok() {
            self.invalidate(src);
            self.invalidate(dst);
        }
        outcome
    }

    /// Takes all entries out.
    pub fn clear(&mut self)
        ensures
            final(self).entries().len() == 0,
            final(self).counters() == (FileInfoCacheStats {
                invalidations: u64::wrapping_add(
                    old(self).counters().invalidations,
                    old(self).entries().len() as u64,
                ),
                ..old(self).counters()
            }),
            final(self).limit() == old(self).limit(),
            final(self).lifetime() == old(self).lifetime(),
            final(self).started() == old(self).started(),
            final(self).latest() == old(self).latest(),
    {
        let n: usize = lru_len(&self.lru);
        lru_clear(&mut self.lru);
        self.stats.invalidations = self.stats.invalidations.wrapping_add(n as u64);
    }

    /// The counters.
    pub fn stats(&self) -> (r: FileInfoCacheStats)
        ensures
            r == self.counters(),
    {
        self.stats
    }

    /// The number of entries.
    pub fn len(&self) -> (r: usize)
        ensures
            r == self.entries().len(),
    {
        lru_len(&self.lru)
    }

    /// How long an entry counts.
    pub fn ttl(&self) -> (r: Duration)
        ensures
            r == self.lifetime(),
    {
        self.ttl
    }
}

/// The entry of `info` that was put in at the time `at`.
pub open spec fn entry_of(info: Arc<FileInfo>, at: Duration) -> CachedFileInfo {
    CachedFileInfo { info, inserted_at: at }
}

proof fn lemma_without(entries: Seq<(Seq<char>, CachedFileInfo)>, key: Seq<char>, other: Seq<char>)
    ensures
        found(without(entries, key), key) is None,
        other != key ==> found(without(entries, key), other) == found(entries, other),
        without(entries, key).len() <= entries.len(),
        found(entries, key) is Some ==> without(entries, key).len() < entries.len(),
    decreases entries.len(),
{
    if entries.len() > 0 {
        let rest = entries.drop_first();
        lemma_without(rest, key, other);
        if entries[0].0 != key {
            let out = without(entries, key);
            assert(out.drop_first() =~= without(rest, key));
        }
    }
}

/// What was put in is found until it is too old, and what is too old is never
/// handed out.
pub proof fn law_entry_counts_for_its_lifetime(
    c: FileInfoCache,
    path: Seq<char>,
    entry: CachedFileInfo,
    at: Duration,
)
    requires
        found(c.entries(), path) == Some(entry),
        at.nanos >= entry.inserted_at.nanos,
    ensures
        at.nanos - entry.inserted_at.nanos < c.lifetime().nanos ==> looked_up(c, path, at).2
            == Some(entry.info),
        at.nanos - entry.inserted_at.nanos >= c.lifetime().nanos ==> looked_up(c, path, at).2
            is None,
{
}

/// What was put in is found, and what was put in before under another path
/// stays as long as there is room.
pub proof fn law_inserted_entry_is_found(
    entries: Seq<(Seq<char>, CachedFileInfo)>,
    limit: nat,
    path: Seq<char>,
    other: Seq<char>,
    entry: CachedFileInfo,
)
    requires
        limit > 0,
    ensures
        found(bounded(with_front(entries, path, entry), limit), path) == Some(entry),
        other != path && entries.len() < limit ==> found(
            bounded(with_front(entries, path, entry), limit),
            other,
        ) == found(entries, other),
{
    lemma_without(entries, path, other);
    let front = with_front(entries, path, entry);
    assert(front.drop_first() =~= without(entries, path));
    assert(bounded(front, limit)[0] == (path, entry));
}

/// A path that was taken out is not found, and no other path is affected.
pub proof fn law_invalidated_entry_is_gone(
    entries: Seq<(Seq<char>, CachedFileInfo)>,
    path: Seq<char>,
    other: Seq<char>,
)
    requires
        other != path,
    ensures
        found(without(entries, path), path) is None,
        found(without(entries, path), other) == found(entries, other),
{
    lemma_without(entries, path, other);
}

/// A path that was renamed is not found, and neither is the one that it was renamed
/// to; no other path is affected.
pub proof fn law_renamed_paths_are_gone(
    entries: Seq<(Seq<char>, CachedFileInfo)>,
    stats: FileInfoCacheStats,
    src: Seq<char>,
    dst: Seq<char>,
    other: Seq<char>,
)
    requires
        other != src,
        other != dst,
    ensures
        ({
            let (mid, counted) = invalidated(entries, stats, src);
            let left = invalidated(mid, counted, dst).0;
            found(left, src) is None && found(left, dst) is None && found(left, other) == found(
                entries,
                other,
            )
        }),
{
    let mid = without(entries, src);
    lemma_without(entries, src, other);
    lemma_without(mid, dst, other);
    if src != dst {
        lemma_without(mid, dst, src);
    }
}

/// The cache never holds more entries than it may, whatever is put in.
pub proof fn law_cache_stays_bounded(
    entries: Seq<(Seq<char>, CachedFileInfo)>,
    limit: nat,
    path: Seq<char>,
    entry: CachedFileInfo,
)
    ensures
        bounded(with_front(entries, path, entry), limit).len() <= limit,
{
}

/// A lookup that finds an entry makes it the one that was used most recently.
pub proof fn law_lookup_refreshes_recency(
    c: FileInfoCache,
    path: Seq<char>,
    at: Duration,
    info: Arc<FileInfo>,
)
    requires
        looked_up(c, path, at).2 == Some(info),
    ensures
        looked_up(c, path, at).0[0].0 == path,
        looked_up(c, path, at).0[0].1.info == info,
{
}

/// A lookup is made at the time that the clock shows, and never at an earlier one than
/// what was done before. An entry that was put in its lifetime or longer ago is then not
/// handed out, and not held any more; a younger one is handed out.
pub proof fn law_stale_entry_is_not_served(
    cache: &mut FileInfoCache,
    path: &str,
    entry: CachedFileInfo,
    r: Option<Arc<FileInfo>>,
)
    requires
        call_ensures(FileInfoCache::get, (cache, path), r),
        found(old(cache).entries(), path@) == Some(entry),
    ensures
        exists|shown: Duration| #[trigger]
            shows(old(cache).started(), shown) && final(cache).latest().nanos >= shown.nanos && (
            shown.nanos >= old(cache).latest().nanos ==> final(cache).latest() == shown),
        final(cache).latest().nanos >= old(cache).latest().nanos,
        final(cache).latest().nanos - entry.inserted_at.nanos >= old(cache).lifetime().nanos ==> r
            is None && found(final(cache).entries(), path@) is None,
        old(cache).lifetime().nanos > 0 && final(cache).latest().nanos - entry.inserted_at.nanos
            < old(cache).lifetime().nanos ==> r == Some(entry.info),
{
    lemma_without(old(cache).entries(), path@, path@);
}

/// What was put in is handed out by a lookup that comes next exactly if less than its
/// lifetime has passed between the two, as the clock shows.
pub proof fn law_entry_lives_from_insert_to_expiry(
    before: &mut FileInfoCache,
    path: &str,
    info: Arc<FileInfo>,
    after: &mut FileInfoCache,
    r: Option<Arc<FileInfo>>,
)
    requires
        call_ensures(FileInfoCache::insert_arc, (before, path, info), ()),
        call_ensures(FileInfoCache::get, (after, path), r),
        *old(after) == *final(before),
        old(before).limit() > 0,
        old(before).lifetime().nanos > 0,
    ensures
        exists|shown: Duration| #[trigger]
            shows(old(before).started(), shown) && final(before).latest().nanos >= shown.nanos && (
            shown.nanos >= old(before).latest().nanos ==> final(before).latest() == shown),
        exists|shown: Duration| #[trigger]
            shows(old(before).started(), shown) && final(after).latest().nanos >= shown.nanos && (
            shown.nanos >= final(before).latest().nanos ==> final(after).latest() == shown),
        final(after).latest().nanos >= final(before).latest().nanos,
        r == (if final(after).latest().nanos - final(before).latest().nanos
            < old(before).lifetime().nanos {
            Some(info)
        } else {
            None
        }),
{
    let entry = entry_of(info, final(before).latest());
    law_inserted_entry_is_found(
        old(before).entries(),
        old(before).limit(),
        path@,
        path@,
        entry,
    );
}

/// Putting a report in is putting it in shared.
pub proof fn law_insert_holds_the_report(
    cache: &mut FileInfoCache,
    path: &str,
    info: FileInfo,
)
    requires
        call_ensures(FileInfoCache::insert, (cache, path, info), ()),
        old(cache).limit() > 0,
    ensures
        found(final(cache).entries(), path@) matches Some(entry) && *entry.info == info
            && entry.inserted_at == final(cache).latest(),
        exists|shown: Duration| #[trigger]
            shows(old(cache).started(), shown) && final(cache).latest().nanos >= shown.nanos && (
            shown.nanos >= old(cache).latest().nanos ==> final(cache).latest() == shown),
        final(cache).latest().nanos >= old(cache).latest().nanos,
{
    law_inserted_entry_is_found(
        old(cache).entries(),
        old(cache).limit(),
        path@,
        path@,
        entry_of(Arc::new(info), final(cache).latest()),
    );
}

proof fn lemma_without_absent(entries: Seq<(Seq<char>, CachedFileInfo)>, key: Seq<char>)
    requires
        found(entries, key) is None,
    ensures
        without(entries, key) == entries,
    decreases entries.len(),
{
    if entries.len() > 0 {
        lemma_without_absent(entries.drop_first(), key);
        assert(seq![entries[0]] + entries.drop_first() =~= entries);
    } else {
        assert(without(entries, key) =~= entries);
    }
}

/// A full cache drops the entry that was used least recently, and no other, to make room
/// for a new one.
pub proof fn law_least_recently_used_makes_room(
    cache: &mut FileInfoCache,
    path: &str,
    info: Arc<FileInfo>,
)
    requires
        call_ensures(FileInfoCache::insert_arc, (cache, path, info), ()),
        found(old(cache).entries(), path@) is None,
        old(cache).entries().len() == old(cache).limit(),
        old(cache).limit() > 0,
    ensures
        final(cache).entries().len() == old(cache).limit(),
        final(cache).entries()[0].0 == path@,
        final(cache).entries()[0].1.info == info,
        forall|i: int|
            0 <= i < old(cache).limit() - 1 ==> final(cache).entries()[i + 1] == (
            #[trigger] old(cache).entries()[i]),
{
    lemma_without_absent(old(cache).entries(), path@);
}

/// Every lookup counts once, as a hit if something was handed out and as a miss if not;
/// an entry that was too old counts as expired as well.
pub proof fn law_every_lookup_is_counted(
    cache: &mut FileInfoCache,
    path: &str,
    r: Option<Arc<FileInfo>>,
)
    requires
        call_ensures(FileInfoCache::get, (cache, path), r),
        old(cache).counters().hits < u64::MAX,
        old(cache).counters().misses < u64::MAX,
        old(cache).counters().expired < u64::MAX,
    ensures
        r is Some ==> final(cache).counters() == (FileInfoCacheStats {
            hits: (old(cache).counters().hits + 1) as u64,
            ..old(cache).counters()
        }),
        r is None ==> final(cache).counters().hits == old(cache).counters().hits
            && final(cache).counters().misses == old(cache).counters().misses + 1
            && final(cache).counters().invalidations == old(cache).counters().invalidations,
        r is None ==> final(cache).counters().expired - old(cache).counters().expired == (if found(
            old(cache).entries(),
            path@,
        ) is Some {
            1int
        } else {
            0int
        }),
{
}

/// After a path was deleted or taken out, nothing of it is handed out, and all other
/// paths stay; after a deletion that failed, nothing has changed.
pub proof fn law_deleted_path_is_not_served(
    cache: &mut FileInfoCache,
    path: &str,
    outcome: Result<()>,
    r: Result<()>,
    other: Seq<char>,
)
    requires
        call_ensures(FileInfoCache::delete_done, (cache, path, outcome), r),
        other != path@,
    ensures
        r == outcome,
        found(final(cache).entries(), other) == found(old(cache).entries(), other),
        outcome is Ok ==> found(final(cache).entries(), path@) is None,
        outcome is Err ==> final(cache).entries() == old(cache).entries()
            && final(cache).counters() == old(cache).counters(),
{
    lemma_without(old(cache).entries(), path@, other);
}

/// After a path was taken out, nothing of it is handed out, and all other paths stay.
pub proof fn law_invalidated_path_is_not_served(
    cache: &mut FileInfoCache,
    path: &str,
    other: Seq<char>,
)
    requires
        call_ensures(FileInfoCache::invalidate, (cache, path), ()),
        other != path@,
    ensures
        found(final(cache).entries(), path@) is None,
        found(final(cache).entries(), other) == found(old(cache).entries(), other),
        found(old(cache).entries(), path@) is Some && old(cache).counters().invalidations
            < u64::MAX ==> final(cache).counters().invalidations == old(cache).counters().invalidations + 1,
        found(old(cache).entries(), path@) is None ==> final(cache).counters() == old(cache).counters(),
{
    lemma_without(old(cache).entries(), path@, other);
}

/// After a renaming nothing of the old and the new path is handed out, and all other
/// paths stay; after one that failed, nothing has changed.
pub proof fn law_renamed_path_is_not_served(
    cache: &mut FileInfoCache,
    src: &str,
    dst: &str,
    outcome: Result<()>,
    r: Result<()>,
    other: Seq<char>,
)
    requires
        call_ensures(FileInfoCache::rename_done, (cache, src, dst, outcome), r),
        other != src@,
        other != dst@,
    ensures
        r == outcome,
        found(final(cache).entries(), other) == found(old(cache).entries(), other),
        outcome is Ok ==> found(final(cache).entries(), src@) is None && found(
            final(cache).entries(),
            dst@,
        ) is None,
        outcome is Err ==> final(cache).entries() == old(cache).entries(),
{
    law_renamed_paths_are_gone(
        old(cache).entries(),
        old(cache).counters(),
        src@,
        dst@,
        other,
    );
}

proof fn lemma_without_is_part(entries: Seq<(Seq<char>, CachedFileInfo)>, key: Seq<char>, i: int)
    requires
        0 <= i < without(entries, key).len(),
    ensures
        entries.contains(without(entries, key)[i]),
    decreases entries.len(),
{
    if entries.len() > 0 {
        let rest = entries.drop_first();
        if entries[0].0 == key {
            lemma_without_is_part(rest, key, i);
            let k = rest.index_of(without(rest, key)[i]);
            assert(entries[k + 1] == rest[k]);
        } else if i > 0 {
            lemma_without_is_part(rest, key, i - 1);
            let k = rest.index_of(without(rest, key)[i - 1]);
            assert(entries[k + 1] == rest[k]);
        } else {
            assert(entries[0] == without(entries, key)[0]);
        }
    }
}

/// No entry is ever younger than the last use of the cache, so that its age is never
/// counted as less than it is.
pub proof fn law_entries_stay_in_order(
    cache: &mut FileInfoCache,
    path: &str,
    info: Arc<FileInfo>,
)
    requires
        call_ensures(FileInfoCache::insert_arc, (cache, path, info), ()),
        old(cache).in_order(),
    ensures
        final(cache).in_order(),
{
    let before = old(cache).entries();
    let after = final(cache).entries();
    assert forall|i: int| 0 <= i < after.len() implies (#[trigger] after[i]).1.inserted_at.nanos
        <= final(cache).latest().nanos by {
        if i > 0 {
            assert(after[i] == without(before, path@)[i - 1]);
            lemma_without_is_part(before, path@, i - 1);
            let k = before.index_of(after[i]);
            assert(before[k].1.inserted_at.nanos <= old(cache).latest().nanos);
        }
    }
}

/// A cache is made unless entries would count for no time at all; it holds as many
/// entries as it was asked for, and at least one.
pub proof fn law_cache_is_made_as_asked(
    ttl: Duration,
    capacity: usize,
    r: Option<FileInfoCache>,
)
    requires
        call_ensures(FileInfoCache::maybe_new, (ttl, capacity), r),
    ensures
        r is None <==> ttl.nanos == 0,
        r matches Some(c) ==> c.lifetime() == ttl && c.limit() >= 1 && c.in_order(),
        r matches Some(c) ==> capacity >= 1 ==> c.limit() == capacity,
        r matches Some(c) ==> capacity == 0 ==> c.limit() == 1,
        r matches Some(c) ==> c.counters().hits == 0 && c.counters().misses == 0
            && c.counters().expired == 0 && c.counters().invalidations == 0,
        r matches Some(c) ==> forall|path: Seq<char>| #[trigger]
            found(c.entries(), path) is None,
{
}

/// An entry that is put in at one time is found until the lifetime has passed since then,
/// and not from then on.
pub proof fn law_entry_lives_as_long_as_the_lifetime(
    cache: &mut FileInfoCache,
    later: &mut FileInfoCache,
    path: &str,
    info: Arc<FileInfo>,
    put: Duration,
    at: Duration,
    r: Option<Arc<FileInfo>>,
    life: Duration,
)
    requires
        call_ensures(FileInfoCache::insert_at, (cache, path, info, put), ()),
        *old(later) == *final(cache),
        call_ensures(FileInfoCache::get_at, (later, path, at), r),
        call_ensures(FileInfoCache::ttl, (old(cache),), life),
        at.nanos >= put.nanos,
        old(cache).limit() > 0,
    ensures
        at.nanos - put.nanos < life.nanos ==> r == Some(info),
        at.nanos - put.nanos >= life.nanos ==> r is None,
{
    let e = entry_of(info, put);
    let all = with_front(old(cache).entries(), path@, e);
    assert(all[0] == (path@, e));
    assert(bounded(all, old(cache).limit())[0] == (path@, e));
}

/// A cleared cache finds nothing, and counts what it gave up.
pub proof fn law_cleared_cache_finds_nothing(
    cache: &mut FileInfoCache,
    later: &mut FileInfoCache,
    path: &str,
    at: Duration,
    r: Option<Arc<FileInfo>>,
    before: FileInfoCacheStats,
    after: FileInfoCacheStats,
    n: usize,
)
    requires
        call_ensures(FileInfoCache::len, (old(cache),), n),
        call_ensures(FileInfoCache::stats, (old(cache),), before),
        call_ensures(FileInfoCache::clear, (cache,), ()),
        call_ensures(FileInfoCache::stats, (final(cache),), after),
        *old(later) == *final(cache),
        call_ensures(FileInfoCache::get_at, (later, path, at), r),
        before.invalidations + n <= u64::MAX,
    ensures
        r is None,
        after.invalidations == before.invalidations + n,
        after.hits == before.hits && after.misses == before.misses && after.expired
            == before.expired,
{
}

} // verus!
