//! The daemon's cache: values and files by key, with counters of hits and misses.

use crate::daemon::store::{
    count_files, count_values, file_count, file_entries, file_limits, get_file, get_value,
    insert_file, insert_value, invalidate_all_values, invalidate_file, invalidate_value,
    lapsed_files, lapsed_values, new_file_store, new_value_store, value_count, value_entries,
    value_keys, value_limits, FileStore, ValueStore, MAX_TTL_SECONDS,
};
use crate::protocol::CacheStats;
use crate::text::owned_text_of;
use vstd::prelude::*;

verus! {

/// The cache of the daemon.
pub struct Cache {
    values: ValueStore,
    files: FileStore,
    hits: u64,
    misses: u64,
}

/// What a `Cache` holds: what was written to it, the counters, and the limits.
///
/// An entry may be gone before it is removed, because its time is over or because room was
/// needed. A lookup finds that out, and from then on the key has lapsed until it is written again.
pub struct CacheView {
    /// The value last written under each key and not removed since.
    pub values: Map<Seq<char>, Seq<char>>,
    /// The keys whose values a lookup found gone.
    pub lapsed_values: Set<Seq<char>>,
    /// The path of the file last written under each key and not removed since, and how many use
    /// the file.
    pub files: Map<Seq<char>, (Seq<char>, u64)>,
    /// The keys whose files a lookup found gone.
    pub lapsed_files: Set<Seq<char>>,
    pub hits: u64,
    pub misses: u64,
    /// The capacity and the time to live in seconds of the values.
    pub value_limits: (u64, u64),
    /// The capacity and the time to live in seconds of the files.
    pub file_limits: (u64, u64),
    /// How many values are counted. The count lags behind what is written and removed.
    pub value_count: u64,
    /// How many files are counted. The count lags behind what is written and removed.
    pub file_count: u64,
}

/// `n + 1`, or 0 after the largest number.
pub open spec fn next_count(n: u64) -> u64 {
    if n == u64::MAX {
        0
    } else {
        (n + 1) as u64
    }
}

impl CacheView {
    /// A cache that nothing was written to.
    pub open spec fn empty(max_entries: u64, ttl_seconds: u64) -> CacheView {
        CacheView {
            values: Map::empty(),
            lapsed_values: Set::empty(),
            files: Map::empty(),
            lapsed_files: Set::empty(),
            hits: 0,
            misses: 0,
            value_limits: (max_entries, ttl_seconds),
            file_limits: (max_entries, (2 * ttl_seconds) as u64),
            value_count: 0,
            file_count: 0,
        }
    }

    /// How many entries are counted, modulo 2^64.
    pub open spec fn entry_count(self) -> int {
        (self.value_count + self.file_count) % 0x1_0000_0000_0000_0000
    }

    /// This cache, counting as many values as `other` does. Reading, writing and removing values
    /// may bring their count up to date, and nothing else does.
    pub open spec fn with_value_count_of(self, other: CacheView) -> CacheView {
        CacheView { value_count: other.value_count, ..self }
    }

    /// This cache, counting as many files as `other` does. Reading, writing and removing files may
    /// bring their count up to date, and nothing else does.
    pub open spec fn with_file_count_of(self, other: CacheView) -> CacheView {
        CacheView { file_count: other.file_count, ..self }
    }

    /// This cache after one more lookup is counted.
    pub open spec fn counted(self, found: bool) -> CacheView {
        if found {
            CacheView { hits: next_count(self.hits), ..self }
        } else {
            CacheView { misses: next_count(self.misses), ..self }
        }
    }

    /// The value that a lookup of `key` gives, unless it finds the value gone.
    pub open spec fn value(self, key: Seq<char>) -> Option<Seq<char>> {
        if self.values.contains_key(key) && !self.lapsed_values.contains(key) {
            Some(self.values[key])
        } else {
            None
        }
    }

    /// The file that a lookup of `key` gives, unless it finds the file gone.
    pub open spec fn file(self, key: Seq<char>) -> Option<(Seq<char>, u64)> {
        if self.files.contains_key(key) && !self.lapsed_files.contains(key) {
            Some(self.files[key])
        } else {
            None
        }
    }

    /// This cache after the value under `key` was found gone.
    pub open spec fn value_lapsed(self, key: Seq<char>) -> CacheView {
        CacheView { lapsed_values: self.lapsed_values.insert(key), ..self }
    }

    /// A lookup of the value under `key` that gives `found` leads from `self` to `post`.
    pub open spec fn value_read(
        self,
        key: Seq<char>,
        found: Option<Seq<char>>,
        post: CacheView,
    ) -> bool {
        match found {
            Some(value) => {
                &&& self.value(key) == Some(value)
                &&& post == self.counted(true).with_value_count_of(post)
            },
            None => post == self.value_lapsed(key).counted(false).with_value_count_of(post),
        }
    }

    /// This cache after `value` is written under `key`.
    pub open spec fn value_written(self, key: Seq<char>, value: Seq<char>) -> CacheView {
        CacheView {
            values: self.values.insert(key, value),
            lapsed_values: self.lapsed_values.remove(key),
            ..self
        }
    }

    /// This cache after the file under `key` was found gone.
    pub open spec fn file_lapsed(self, key: Seq<char>) -> CacheView {
        CacheView { lapsed_files: self.lapsed_files.insert(key), ..self }
    }

    /// This cache after the entry of the file under `key` is removed.
    pub open spec fn file_removed(self, key: Seq<char>) -> CacheView {
        CacheView { files: self.files.remove(key), ..self }
    }

    /// A lookup of the file under `key` that gives `found` leads from `self` to `post`.
    pub open spec fn file_read(
        self,
        key: Seq<char>,
        found: Option<(Seq<char>, u64)>,
        post: CacheView,
    ) -> bool {
        match found {
            Some(file) => {
                &&& self.file(key) == Some(file)
                &&& post == self.counted(true).with_file_count_of(post)
            },
            None => post == self.file_lapsed(key).counted(false).with_file_count_of(post),
        }
    }

    /// This cache after the file at `path`, with `users` users, is written under `key`.
    pub open spec fn file_written(self, key: Seq<char>, path: Seq<char>, users: u64) -> CacheView {
        CacheView {
            files: self.files.insert(key, (path, users)),
            lapsed_files: self.lapsed_files.remove(key),
            ..self
        }
    }

    /// Taking one more reference to the file under `key` gives `users` and leads from `self` to
    /// `post`. Nothing comes back only where the file is found gone, and nothing else changes
    /// then.
    pub open spec fn file_retained(
        self,
        key: Seq<char>,
        users: Option<u64>,
        post: CacheView,
    ) -> bool {
        match users {
            Some(n) => {
                &&& self.file(key) matches Some(file)
                &&& n == file.1 + 1
                &&& post == self.file_written(key, file.0, n).with_file_count_of(post)
            },
            None => post == self.file_lapsed(key).with_file_count_of(post),
        }
    }

    /// Giving up a reference to the file under `key` gives `released` and leads from `self` to
    /// `post`. The number of users that remain comes with the path of the file when there is
    /// none, and the entry is then removed. Nothing comes back only where the file is found gone,
    /// and nothing else changes then.
    pub open spec fn file_released(
        self,
        key: Seq<char>,
        released: Option<(u64, Option<Seq<char>>)>,
        post: CacheView,
    ) -> bool {
        match released {
            Some((users, stale_path)) => {
                &&& self.file(key) matches Some(file)
                &&& if file.1 <= 1 {
                    &&& users == 0
                    &&& stale_path == Some(file.0)
                    &&& post == self.file_removed(key).with_file_count_of(post)
                } else {
                    &&& users == file.1 - 1
                    &&& stale_path is None
                    &&& post == self.file_written(key, file.0, users).with_file_count_of(post)
                }
            },
            None => post == self.file_lapsed(key).with_file_count_of(post),
        }
    }

    /// This cache without its values, and with its counters at zero. The files stay.
    pub open spec fn cleared(self) -> CacheView {
        CacheView { values: Map::empty(), hits: 0, misses: 0, ..self }
    }
}

impl View for Cache {
    type V = CacheView;

    closed spec fn view(&self) -> CacheView {
        CacheView {
            values: value_entries(self.values),
            lapsed_values: lapsed_values(self.values),
            files: file_entries(self.files),
            lapsed_files: lapsed_files(self.files),
            hits: self.hits,
            misses: self.misses,
            value_limits: value_limits(self.values),
            file_limits: file_limits(self.files),
            value_count: value_count(self.values),
            file_count: file_count(self.files),
        }
    }
}

/// What giving up a reference to a file leaves.
#[derive(Debug)]
pub struct ReleasedFile {
    /// How many still use the file.
    pub users: u64,
    /// The file to delete, when none does.
    pub stale_path: Option<String>,
}

impl ReleasedFile {
    /// The number of users and the file to delete.
    pub open spec fn parts(self) -> (u64, Option<Seq<char>>) {
        (self.users, owned_text_of(self.stale_path))
    }
}

/// What a lookup of a file says: its path, and how many use it.
pub open spec fn found_file(found: Option<(String, u64)>) -> Option<(Seq<char>, u64)> {
    match found {
        Some(file) => Some((file.0@, file.1)),
        None => None,
    }
}

/// The entry to write when one more reference is taken to a file that a lookup gave: the same
/// path, with one more user. None where the lookup gave none.
pub fn retained(found: Option<(String, u64)>) -> (entry: Option<(String, u64)>)
    requires
        found matches Some(file) ==> file.1 < u64::MAX,
    ensures
        found_file(entry) == match found_file(found) {
            Some(file) => Some((file.0, (file.1 + 1) as u64)),
            None => None,
        },
{
    match found {
        Some((path, users)) => Some((path, users + 1)),
        None => None,
    }
}

/// What giving up a reference to a file that a lookup gave leaves, and the entry to write, if the
/// file still has a user. None where the lookup gave none.
pub fn released(found: Option<(String, u64)>) -> (outcome: Option<
    (ReleasedFile, Option<(String, u64)>),
>)
    ensures
        match found_file(found) {
            Some(file) => {
                &&& outcome matches Some((left, entry))
                &&& if file.1 <= 1 {
                    &&& left.parts() == (0u64, Some(file.0))
                    &&& entry is None
                } else {
                    &&& left.parts() == ((file.1 - 1) as u64, None::<Seq<char>>)
                    &&& found_file(entry) == Some((file.0, (file.1 - 1) as u64))
                }
            },
            None => outcome is None,
        },
{
    match found {
        Some((path, users)) => {
            let users: u64 = users.saturating_sub(1);
            if users == 0 {
                Some((ReleasedFile { users, stale_path: Some(path) }, None))
            } else {
                Some((ReleasedFile { users, stale_path: None }, Some((path, users))))
            }
        },
        None => None,
    }
}

/// How long a file may be served: twice as long as a value.
pub fn file_ttl_seconds(ttl_seconds: u64) -> (seconds: u64)
    requires
        2 * ttl_seconds <= u64::MAX,
    ensures
        seconds == 2 * ttl_seconds,
{
    ttl_seconds * 2
}

impl Cache {
    /// The store of the values.
    pub closed spec fn value_store(&self) -> ValueStore {
        self.values
    }

    /// The store of the files.
    pub closed spec fn file_store(&self) -> FileStore {
        self.files
    }

    /// A cache shows what its two stores hold, count and are limited to, and nothing else.
    pub proof fn law_view_shows_the_stores(&self)
        ensures
            self@.values == value_entries(self.value_store()),
            self@.lapsed_values == lapsed_values(self.value_store()),
            self@.value_limits == value_limits(self.value_store()),
            self@.value_count == value_count(self.value_store()),
            self@.files == file_entries(self.file_store()),
            self@.lapsed_files == lapsed_files(self.file_store()),
            self@.file_limits == file_limits(self.file_store()),
            self@.file_count == file_count(self.file_store()),
    {
    }

    /// An empty cache of at most `max_entries` values, each served for `ttl_seconds`, and as many
    /// files, each served for twice as long. No time to live may exceed 1000 years.
    pub fn new(max_entries: u64, ttl_seconds: u64) -> (cache: Cache)
        requires
            2 * ttl_seconds <= MAX_TTL_SECONDS,
        ensures
            cache@ == CacheView::empty(max_entries, ttl_seconds),
            cache@.value_limits == (max_entries, ttl_seconds),
            cache@.file_limits.0 == max_entries,
            cache@.file_limits.1 == 2 * ttl_seconds,
            value_limits(cache.value_store()) == (max_entries, ttl_seconds),
            file_limits(cache.file_store()).0 == max_entries,
            file_limits(cache.file_store()).1 == 2 * ttl_seconds,
    {
        let values = new_value_store(max_entries, ttl_seconds);
        let files = new_file_store(max_entries, file_ttl_seconds(ttl_seconds));
        assert(lapsed_values(values) =~= Set::empty());
        assert(lapsed_files(files) =~= Set::empty());
        Cache { values, files, hits: 0, misses: 0 }
    }

    /// Counts a lookup.
    pub fn record_lookup(&mut self, found: bool)
        ensures
            final(self)@ == old(self)@.counted(found),
    {
        if found {
            self.hits = self.hits.wrapping_add(1);
        } else {
            self.misses = self.misses.wrapping_add(1);
        }
    }

    /// The value under `key`.
    pub fn get(&mut self, key: &str) -> (found: Option<String>)
        ensures
            old(self)@.value_read(key@, owned_text_of(found), final(self)@),
    {
        let found = get_value(&mut self.values, key);
        self.record_lookup(found.is_some());
        found
    }

    /// Writes `value` under `key`.
    pub fn insert(&mut self, key: &str, value: String)
        ensures
            final(self)@ == old(self)@.value_written(key@, value@).with_value_count_of(
                final(self)@,
            ),
    {
        insert_value(&mut self.values, key.to_owned(), value);
    }

    /// The path of the file under `key`, and how many use it.
    pub fn get_file(&mut self, key: &str) -> (found: Option<(String, u64)>)
        ensures
            old(self)@.file_read(key@, found_file(found), final(self)@),
    {
        let found = get_file(&mut self.files, key);
        self.record_lookup(found.is_some());
        found
    }

    /// Writes the file at `path` under `key`, with one user.
    pub fn insert_file(&mut self, key: &str, path: String)
        ensures
            final(self)@ == old(self)@.file_written(key@, path@, 1).with_file_count_of(
                final(self)@,
            ),
    {
        insert_file(&mut self.files, key.to_owned(), path, 1);
    }

    /// Takes one more reference to the file under `key`; the number of its users.
    pub fn increment_file_ref(&mut self, key: &str) -> (users: Option<u64>)
        requires
            old(self)@.file(key@) matches Some(file) ==> file.1 < u64::MAX,
        ensures
            old(self)@.file_retained(key@, users, final(self)@),
    {
        let found = get_file(&mut self.files, key);
        match retained(found) {
            Some((path, users)) => {
                insert_file(&mut self.files, key.to_owned(), path, users);
                Some(users)
            },
            None => None,
        }
    }

    /// Takes one more reference to the file under `key`, as `increment_file_ref` does, unless the
    /// number of its users is the largest that can be counted: the cache is then left as it is.
    pub fn try_increment_file_ref(&mut self, key: &str) -> (users: Result<Option<u64>, ()>)
        ensures
            match users {
                Ok(users) => old(self)@.file_retained(key@, users, final(self)@),
                Err(()) => {
                    &&& old(self)@.file(key@) matches Some(file)
                    &&& file.1 == u64::MAX
                    &&& final(self)@ == old(self)@.with_file_count_of(final(self)@)
                },
            },
    {
        let found = get_file(&mut self.files, key);
        if let Some((_, users)) = &found {
            if *users == u64::MAX {
                return Err(());
            }
        }
        match retained(found) {
            Some((path, users)) => {
                insert_file(&mut self.files, key.to_owned(), path, users);
                Ok(Some(users))
            },
            None => Ok(None),
        }
    }

    /// Gives up a reference to the file under `key`. When it was the last one, the entry is
    /// removed and the caller is told which file to delete.
    pub fn decrement_file_ref(&mut self, key: &str) -> (left: Option<ReleasedFile>)
        ensures
            old(self)@.file_released(
                key@,
                match left {
                    Some(file) => Some(file.parts()),
                    None => None,
                },
                final(self)@,
            ),
    {
        let found = get_file(&mut self.files, key);
        match released(found) {
            Some((left, Some((path, users)))) => {
                insert_file(&mut self.files, key.to_owned(), path, users);
                Some(left)
            },
            Some((left, None)) => {
                invalidate_file(&mut self.files, key);
                Some(left)
            },
            None => None,
        }
    }

    /// Drops the values and resets the counters. The files stay.
    pub fn clear(&mut self)
        ensures
            final(self)@ == old(self)@.cleared().with_value_count_of(final(self)@),
    {
        invalidate_all_values(&mut self.values);
        // What was written at the very reading of the clock that the call above took is still
        // there, and goes by its key.
        let keys = value_keys(&mut self.values);
        let mut i: usize = 0;
        while i < keys.len()
            invariant
                i <= keys.len(),
                self.files == old(self).files,
                value_limits(self.values) == value_limits(old(self).values),
                lapsed_values(self.values) == lapsed_values(old(self).values),
                forall|key: Seq<char>| #[trigger]
                    value_entries(self.values).contains_key(key) ==> exists|j: int|
                        i <= j < keys@.len() && (#[trigger] keys@[j])@ == key,
            decreases keys.len() - i,
        {
            invalidate_value(&mut self.values, keys[i].as_str());
            i += 1;
        }
        self.hits = 0;
        self.misses = 0;
        assert(self@.values =~= Map::<Seq<char>, Seq<char>>::empty());
    }

    /// The counters.
    pub fn stats(&self) -> (stats: CacheStats)
        ensures
            stats.entries == self@.entry_count(),
            stats.hits == self@.hits,
            stats.misses == self@.misses,
    {
        CacheStats::of(count_values(&self.values), count_files(&self.files), self.hits, self.misses)
    }
}

} // verus!
