//! The messages that a client and the daemon exchange.

use vstd::prelude::*;

verus! {

/// What a client asks of the daemon.
#[derive(Debug, Clone)]
pub enum Request {
    /// The value cached under `key`.
    Get { key: String },
    /// Cache `value` under `key`.
    Put { key: String, value: String },
    /// The path of the file cached under `key`.
    GetFile { key: String },
    /// Cache the file at `path` under `key`.
    SetFile { key: String, path: String },
    /// Whether the daemon is there.
    Ping,
    /// Drop the cached values and reset the counters.
    ClearCache,
    /// The counters.
    GetStats,
    /// Stop the daemon.
    Shutdown,
}

/// What the daemon answers.
#[derive(Debug, Clone)]
pub enum Response {
    /// The value asked for.
    Hit { value: String },
    /// Nothing is cached under that key.
    Miss,
    /// The value was cached.
    Stored,
    /// The path of the file asked for.
    FileHit { path: String },
    /// The file was cached.
    FileStored,
    /// The daemon is there.
    Pong,
    /// The values were dropped.
    CacheCleared,
    /// The counters asked for.
    Stats(CacheStats),
    /// The daemon is about to stop.
    ShuttingDown,
}

/// The counters of the cache.
#[derive(Debug, Clone, Copy, PartialEq, Eq, Structural)]
pub struct CacheStats {
    /// An estimate of how many entries are cached.
    pub entries: u64,
    /// How many lookups found an entry.
    pub hits: u64,
    /// How many lookups found none.
    pub misses: u64,
}

impl CacheStats {
    /// The counters of a cache whose two stores hold `values` and `files` entries. The number of
    /// entries is counted modulo 2^64.
    pub fn of(values: u64, files: u64, hits: u64, misses: u64) -> (stats: CacheStats)
        ensures
            stats.entries == (values + files) % 0x1_0000_0000_0000_0000,
            stats.hits == hits,
            stats.misses == misses,
    {
        CacheStats { entries: values.wrapping_add(files), hits, misses }
    }

    /// The hits and all lookups, where there was any.
    pub open spec fn ratio(self) -> Option<(int, int)> {
        if self.hits + self.misses > 0 {
            Some((self.hits as int, self.hits + self.misses))
        } else {
            None
        }
    }

    /// The hit rate as a fraction: the hits, and all lookups. None where nothing was looked up.
    pub fn hit_ratio(&self) -> (ratio: Option<(u64, u128)>)
        ensures
            ratio == if self.hits + self.misses > 0 {
                Some((self.hits, (self.hits + self.misses) as u128))
            } else {
                None
            },
            self.ratio() == match ratio {
                Some((hits, lookups)) => Some((hits as int, lookups as int)),
                None => None,
            },
    {
        let total: u128 = self.hits as u128 + self.misses as u128;
        if total > 0 {
            Some((self.hits, total))
        } else {
            None
        }
    }
}

/// What a `Request` says.
pub enum RequestView {
    Get { key: Seq<char> },
    Put { key: Seq<char>, value: Seq<char> },
    GetFile { key: Seq<char> },
    SetFile { key: Seq<char>, path: Seq<char> },
    Ping,
    ClearCache,
    GetStats,
    Shutdown,
}

impl View for Request {
    type V = RequestView;

    open spec fn view(&self) -> RequestView {
        match self {
            Request::Get { key } => RequestView::Get { key: key@ },
            Request::Put { key, value } => RequestView::Put { key: key@, value: value@ },
            Request::GetFile { key } => RequestView::GetFile { key: key@ },
            Request::SetFile { key, path } => RequestView::SetFile { key: key@, path: path@ },
            Request::Ping => RequestView::Ping,
            Request::ClearCache => RequestView::ClearCache,
            Request::GetStats => RequestView::GetStats,
            Request::Shutdown => RequestView::Shutdown,
        }
    }
}

/// What a `Response` says.
pub enum ResponseView {
    Hit { value: Seq<char> },
    Miss,
    Stored,
    FileHit { path: Seq<char> },
    FileStored,
    Pong,
    CacheCleared,
    Stats(CacheStats),
    ShuttingDown,
}

impl View for Response {
    type V = ResponseView;

    open spec fn view(&self) -> ResponseView {
        match self {
            Response::Hit { value } => ResponseView::Hit { value: value@ },
            Response::Miss => ResponseView::Miss,
            Response::Stored => ResponseView::Stored,
            Response::FileHit { path } => ResponseView::FileHit { path: path@ },
            Response::FileStored => ResponseView::FileStored,
            Response::Pong => ResponseView::Pong,
            Response::CacheCleared => ResponseView::CacheCleared,
            Response::Stats(stats) => ResponseView::Stats(*stats),
            Response::ShuttingDown => ResponseView::ShuttingDown,
        }
    }
}

} // verus!
