//! The two bounded, expiring stores of the daemon, which are caches of the crate `moka`.
//!
//! Such a cache drops entries on its own account: when their time to live is over, and when it
//! is full. So two things are said of what it holds. Its entries are what was last written under
//! each key and not removed since; some of them may be gone. Its lapsed keys are those that a
//! lookup found gone. A lookup returns the entry of its key, which has not lapsed then, or
//! nothing, and then the key has lapsed until it is written again.

use moka::sync::Cache as MokaCache;
use vstd::prelude::*;

verus! {

/// A concurrent cache of the crate `moka`.
#[verifier::external_type_specification]
#[verifier::external_body]
#[verifier::reject_recursive_types(K)]
#[verifier::reject_recursive_types(V)]
#[verifier::reject_recursive_types(S)]
pub struct ExMokaCache<K, V, S>(MokaCache<K, V, S>);

/// A cache of values, by key.
pub type ValueStore = MokaCache<String, String>;

/// A cache of files, by key: the path of each, and how many use it.
pub type FileStore = MokaCache<String, (String, u64)>;

/// The longest time to live that `moka` accepts: 1000 years of 365 days.
pub const MAX_TTL_SECONDS: u64 = 31_536_000_000;

/// What was last written to `store` under each key and not removed since.
pub uninterp spec fn value_entries(store: ValueStore) -> Map<Seq<char>, Seq<char>>;

/// The keys under which a lookup in `store` found nothing, and nothing was written since.
pub uninterp spec fn lapsed_values(store: ValueStore) -> Set<Seq<char>>;

/// How many entries `store` counts. The count lags behind what is written and removed.
pub uninterp spec fn value_count(store: ValueStore) -> u64;

/// The capacity and the time to live in seconds with which `store` was made.
pub uninterp spec fn value_limits(store: ValueStore) -> (u64, u64);

/// What was last written to `store` under each key and not removed since.
pub uninterp spec fn file_entries(store: FileStore) -> Map<Seq<char>, (Seq<char>, u64)>;

/// The keys under which a lookup in `store` found nothing, and nothing was written since.
pub uninterp spec fn lapsed_files(store: FileStore) -> Set<Seq<char>>;

/// How many entries `store` counts. The count lags behind what is written and removed.
pub uninterp spec fn file_count(store: FileStore) -> u64;

/// The capacity and the time to live in seconds with which `store` was made.
pub uninterp spec fn file_limits(store: FileStore) -> (u64, u64);

/// Calls `CacheBuilder::build` of `moka`, after `max_capacity` and `time_to_live`: an empty
/// cache with those limits, which counts no entry. `build` panics on a time to live of more than
/// 1000 years.
#[verifier::external_body]
pub(crate) fn new_value_store(max_entries: u64, ttl_seconds: u64) -> (store: ValueStore)
    requires
        ttl_seconds <= MAX_TTL_SECONDS,
    ensures
        (value_entries(store) == Map::<Seq<char>, Seq<char>>::empty()),
        lapsed_values(store).is_empty(),
        value_count(store) == 0,
        value_limits(store) == (max_entries, ttl_seconds),
{
    MokaCache::builder()
        .max_capacity(max_entries)
        .time_to_live(std::time::Duration::from_secs(ttl_seconds))
        .build()
}

/// Calls `Cache::get` of `moka`: a copy of the value last written under `key`, or nothing where
/// it was never written, was removed, has expired or was evicted. Which of the two comes back
/// for an entry that has not lapsed depends on the time and on what the cache evicts, and is not
/// claimed.
#[verifier::external_body]
pub(crate) fn get_value(store: &mut ValueStore, key: &str) -> (found: Option<String>)
    ensures
        match found {
            Some(value) => {
                &&& value_entries(*old(store)).contains_key(key@)
                &&& !lapsed_values(*old(store)).contains(key@)
                &&& value@ == value_entries(*old(store))[key@]
                &&& lapsed_values(*final(store)) == lapsed_values(*old(store))
            },
            None => lapsed_values(*final(store)) == lapsed_values(*old(store)).insert(key@),
        },
        value_entries(*final(store)) == value_entries(*old(store)),
        value_limits(*final(store)) == value_limits(*old(store)),
{
    store.get(key)
}

/// Calls `Cache::insert` of `moka`: writes `value` under `key`, over what was there.
#[verifier::external_body]
pub(crate) fn insert_value(store: &mut ValueStore, key: String, value: String)
    ensures
        value_entries(*final(store)) == value_entries(*old(store)).insert(key@, value@),
        lapsed_values(*final(store)) == lapsed_values(*old(store)).remove(key@),
        value_limits(*final(store)) == value_limits(*old(store)),
{
    store.insert(key, value)
}

/// Calls `Cache::invalidate` of `moka`: removes what is written under `key`.
#[verifier::external_body]
pub(crate) fn invalidate_value(store: &mut ValueStore, key: &str)
    ensures
        value_entries(*final(store)) == value_entries(*old(store)).remove(key@),
        lapsed_values(*final(store)) == lapsed_values(*old(store)),
        value_limits(*final(store)) == value_limits(*old(store)),
{
    store.invalidate(key)
}

/// Calls `Cache::invalidate_all` of `moka`, which dismisses every entry written before the
/// current reading of the cache's clock. An entry written at that very reading is still
/// returned, so no more is claimed than that the entries left are some of those before.
#[verifier::external_body]
pub(crate) fn invalidate_all_values(store: &mut ValueStore)
    ensures
        value_entries(*final(store)).submap_of(value_entries(*old(store))),
        lapsed_values(*final(store)) == lapsed_values(*old(store)),
        value_limits(*final(store)) == value_limits(*old(store)),
{
    store.invalidate_all()
}

/// Calls `Cache::iter` of `moka` and collects the keys. The iterator visits every entry that a
/// lookup would return. An entry that it leaves out is gone, and counts as removed.
#[verifier::external_body]
pub(crate) fn value_keys(store: &mut ValueStore) -> (keys: Vec<String>)
    ensures
        value_entries(*final(store)).submap_of(value_entries(*old(store))),
        forall|key: Seq<char>| #[trigger]
            value_entries(*final(store)).contains_key(key) ==> exists|i: int|
                0 <= i < keys@.len() && (#[trigger] keys@[i])@ == key,
        lapsed_values(*final(store)) == lapsed_values(*old(store)),
        value_limits(*final(store)) == value_limits(*old(store)),
{
    store.iter().map(|entry| (*entry.0).clone()).collect()
}

/// Calls `Cache::entry_count` of `moka`: the count that the cache keeps. It is brought up to date
/// only in the course of reads and writes, and how far it lags is not claimed.
#[verifier::external_body]
pub(crate) fn count_values(store: &ValueStore) -> (count: u64)
    ensures
        count == value_count(*store),
{
    store.entry_count()
}

/// Calls `CacheBuilder::build` of `moka`, as `new_value_store` does, for a cache of files.
#[verifier::external_body]
pub(crate) fn new_file_store(max_entries: u64, ttl_seconds: u64) -> (store: FileStore)
    requires
        ttl_seconds <= MAX_TTL_SECONDS,
    ensures
        (file_entries(store) == Map::<Seq<char>, (Seq<char>, u64)>::empty()),
        lapsed_files(store).is_empty(),
        file_count(store) == 0,
        file_limits(store) == (max_entries, ttl_seconds),
{
    MokaCache::builder()
        .max_capacity(max_entries)
        .time_to_live(std::time::Duration::from_secs(ttl_seconds))
        .build()
}

/// Calls `Cache::get` of `moka`, as `get_value` does, on a cache of files.
#[verifier::external_body]
pub(crate) fn get_file(store: &mut FileStore, key: &str) -> (found: Option<(String, u64)>)
    ensures
        match found {
            Some(file) => {
                &&& file_entries(*old(store)).contains_key(key@)
                &&& !lapsed_files(*old(store)).contains(key@)
                &&& file.0@ == file_entries(*old(store))[key@].0
                &&& file.1 == file_entries(*old(store))[key@].1
                &&& lapsed_files(*final(store)) == lapsed_files(*old(store))
            },
            None => lapsed_files(*final(store)) == lapsed_files(*old(store)).insert(key@),
        },
        file_entries(*final(store)) == file_entries(*old(store)),
        file_limits(*final(store)) == file_limits(*old(store)),
{
    store.get(key)
}

/// Calls `Cache::insert` of `moka`, as `insert_value` does, on a cache of files.
#[verifier::external_body]
pub(crate) fn insert_file(store: &mut FileStore, key: String, path: String, users: u64)
    ensures
        file_entries(*final(store)) == file_entries(*old(store)).insert(key@, (path@, users)),
        lapsed_files(*final(store)) == lapsed_files(*old(store)).remove(key@),
        file_limits(*final(store)) == file_limits(*old(store)),
{
    store.insert(key, (path, users))
}

/// Calls `Cache::invalidate` of `moka`, as `invalidate_value` does, on a cache of files.
#[verifier::external_body]
pub(crate) fn invalidate_file(store: &mut FileStore, key: &str)
    ensures
        file_entries(*final(store)) == file_entries(*old(store)).remove(key@),
        lapsed_files(*final(store)) == lapsed_files(*old(store)),
        file_limits(*final(store)) == file_limits(*old(store)),
{
    store.invalidate(key)
}

/// Calls `Cache::entry_count` of `moka`, as `count_values` does, on a cache of files.
#[verifier::external_body]
pub(crate) fn count_files(store: &FileStore) -> (count: u64)
    ensures
        count == file_count(*store),
{
    store.entry_count()
}

} // verus!
