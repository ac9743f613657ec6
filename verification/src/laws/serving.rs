//! What the daemon's answers say of the requests before them.

use crate::config::ConfigView;
use crate::daemon::cache::CacheView;
use crate::daemon::server::{
    answered, connection_handled, server_actions, ConnectionAction, ConnectionEvent,
    ServerActionView, ServerEventView,
};
use crate::path::with_extension_of;
use crate::protocol::{RequestView, ResponseView};
use vstd::prelude::*;

verus! {

/// `log` is what was asked and answered, in order, and `states` is the cache before the first
/// request and after each answer.
pub open spec fn history(states: Seq<CacheView>, log: Seq<(RequestView, ResponseView)>) -> bool {
    &&& states.len() == log.len() + 1
    &&& forall|i: int|
        0 <= i < log.len() ==> answered(states[i], (#[trigger] log[i]).0, log[i].1, states[i + 1])
}

/// Request `j` writes `value` under `key`, and no request after it and before `n` writes that key
/// or clears the cache.
pub open spec fn latest_value(
    log: Seq<(RequestView, ResponseView)>,
    n: int,
    key: Seq<char>,
    value: Seq<char>,
    j: int,
) -> bool {
    &&& 0 <= j < n
    &&& log[j].0 == (RequestView::Put { key, value })
    &&& forall|i: int|
        j < i < n ==> {
            &&& !((#[trigger] log[i]).0 is ClearCache)
            &&& !(log[i].0 matches RequestView::Put { key: k, .. } && k == key)
        }
}

/// Request `j` writes the file at `path` under `key`, and no request after it and before `n`
/// writes a file under that key.
pub open spec fn latest_file(
    log: Seq<(RequestView, ResponseView)>,
    n: int,
    key: Seq<char>,
    path: Seq<char>,
    j: int,
) -> bool {
    &&& 0 <= j < n
    &&& log[j].0 == (RequestView::SetFile { key, path })
    &&& forall|i: int|
        j < i < n ==> !((#[trigger] log[i]).0 matches RequestView::SetFile { key: k, .. } && k
            == key)
}

/// How many of the first `n` answers were hits, counted from the last clearing on.
pub open spec fn hits_since_clear(log: Seq<(RequestView, ResponseView)>, n: int) -> int
    decreases n,
{
    if n <= 0 || log[n - 1].0 is ClearCache {
        0
    } else if log[n - 1].1 is Hit || log[n - 1].1 is FileHit {
        hits_since_clear(log, n - 1) + 1
    } else {
        hits_since_clear(log, n - 1)
    }
}

/// How many of the first `n` answers were misses, counted from the last clearing on.
pub open spec fn misses_since_clear(log: Seq<(RequestView, ResponseView)>, n: int) -> int
    decreases n,
{
    if n <= 0 || log[n - 1].0 is ClearCache {
        0
    } else if log[n - 1].1 is Miss {
        misses_since_clear(log, n - 1) + 1
    } else {
        misses_since_clear(log, n - 1)
    }
}

/// What the latest `Put` under a key wrote stays the value of that key.
pub proof fn lemma_latest_value_is_kept(
    states: Seq<CacheView>,
    log: Seq<(RequestView, ResponseView)>,
    n: int,
    key: Seq<char>,
    value: Seq<char>,
    j: int,
)
    requires
        history(states, log),
        n <= log.len(),
        latest_value(log, n, key, value, j),
    ensures
        states[n].values.contains_key(key),
        states[n].values[key] == value,
    decreases n,
{
    assert(answered(states[n - 1], log[n - 1].0, log[n - 1].1, states[n]));
    if n > j + 1 {
        lemma_latest_value_is_kept(states, log, n - 1, key, value, j);
    }
}

/// What the latest `SetFile` under a key wrote stays the file of that key.
pub proof fn lemma_latest_file_is_kept(
    states: Seq<CacheView>,
    log: Seq<(RequestView, ResponseView)>,
    n: int,
    key: Seq<char>,
    path: Seq<char>,
    j: int,
)
    requires
        history(states, log),
        n <= log.len(),
        latest_file(log, n, key, path, j),
    ensures
        states[n].files.contains_key(key),
        states[n].files[key].0 == path,
    decreases n,
{
    assert(answered(states[n - 1], log[n - 1].0, log[n - 1].1, states[n]));
    if n > j + 1 {
        lemma_latest_file_is_kept(states, log, n - 1, key, path, j);
    }
}

proof fn lemma_values_were_put(
    states: Seq<CacheView>,
    log: Seq<(RequestView, ResponseView)>,
    n: int,
    key: Seq<char>,
)
    requires
        history(states, log),
        states[0].values.is_empty(),
        0 <= n <= log.len(),
        states[n].values.contains_key(key),
    ensures
        exists|j: int| latest_value(log, n, key, states[n].values[key], j),
    decreases n,
{
    if n > 0 {
        let (request, response) = log[n - 1];
        let value = states[n].values[key];
        assert(answered(states[n - 1], log[n - 1].0, log[n - 1].1, states[n]));
        if request == (RequestView::Put { key, value }) {
            assert(latest_value(log, n, key, value, n - 1));
        } else {
            lemma_values_were_put(states, log, n - 1, key);
            let m = n - 1;
            let j = choose|j: int| latest_value(log, m, key, states[m].values[key], j);
            assert(latest_value(log, n, key, value, j));
        }
    }
}

proof fn lemma_files_were_put(
    states: Seq<CacheView>,
    log: Seq<(RequestView, ResponseView)>,
    n: int,
    key: Seq<char>,
)
    requires
        history(states, log),
        states[0].files.is_empty(),
        0 <= n <= log.len(),
        states[n].files.contains_key(key),
    ensures
        exists|j: int| latest_file(log, n, key, states[n].files[key].0, j),
    decreases n,
{
    if n > 0 {
        let (request, response) = log[n - 1];
        let path = states[n].files[key].0;
        assert(answered(states[n - 1], log[n - 1].0, log[n - 1].1, states[n]));
        if request == (RequestView::SetFile { key, path }) {
            assert(latest_file(log, n, key, path, n - 1));
        } else {
            lemma_files_were_put(states, log, n - 1, key);
            let m = n - 1;
            let j = choose|j: int| latest_file(log, m, key, states[m].files[key].0, j);
            assert(latest_file(log, n, key, path, j));
        }
    }
}

/// A hit gives back what was written: in every history that starts with an empty cache, a value
/// that is served is the one that the latest `Put` under its key wrote, and the cache was not
/// cleared since.
pub proof fn law_hit_gives_back_latest_value(
    max_entries: u64,
    ttl_seconds: u64,
    states: Seq<CacheView>,
    log: Seq<(RequestView, ResponseView)>,
    n: int,
    key: Seq<char>,
    value: Seq<char>,
)
    requires
        history(states, log),
        states[0] == CacheView::empty(max_entries, ttl_seconds),
        0 <= n < log.len(),
        log[n].0 == (RequestView::Get { key }),
        log[n].1 == (ResponseView::Hit { value }),
    ensures
        exists|j: int| latest_value(log, n, key, value, j),
{
    assert(answered(states[n], log[n].0, log[n].1, states[n + 1]));
    lemma_values_were_put(states, log, n, key);
}

/// A file hit gives back what was written: in every history that starts with an empty cache, the
/// path that is served is the one that the latest `SetFile` under its key wrote.
pub proof fn law_file_hit_gives_back_latest_path(
    max_entries: u64,
    ttl_seconds: u64,
    states: Seq<CacheView>,
    log: Seq<(RequestView, ResponseView)>,
    n: int,
    key: Seq<char>,
    path: Seq<char>,
)
    requires
        history(states, log),
        states[0] == CacheView::empty(max_entries, ttl_seconds),
        0 <= n < log.len(),
        log[n].0 == (RequestView::GetFile { key }),
        log[n].1 == (ResponseView::FileHit { path }),
    ensures
        exists|j: int| latest_file(log, n, key, path, j),
{
    assert(answered(states[n], log[n].0, log[n].1, states[n + 1]));
    lemma_files_were_put(states, log, n, key);
}

/// A key that was never written is answered with a miss.
pub proof fn law_unwritten_key_is_missed(
    max_entries: u64,
    ttl_seconds: u64,
    states: Seq<CacheView>,
    log: Seq<(RequestView, ResponseView)>,
    n: int,
    key: Seq<char>,
)
    requires
        history(states, log),
        states[0] == CacheView::empty(max_entries, ttl_seconds),
        0 <= n < log.len(),
        log[n].0 == (RequestView::Get { key }),
        forall|i: int|
            0 <= i < n ==> !((#[trigger] log[i]).0 matches RequestView::Put { key: k, .. } && k
                == key),
    ensures
        log[n].1 is Miss,
{
    assert(answered(states[n], log[n].0, log[n].1, states[n + 1]));
    if states[n].values.contains_key(key) {
        lemma_values_were_put(states, log, n, key);
        let j = choose|j: int| latest_value(log, n, key, states[n].values[key], j);
        assert(log[j].0 matches RequestView::Put { key: k, .. } && k == key);
    }
}

/// A miss lasts: a key that was missed is missed again, as long as it is not written in between.
pub proof fn law_miss_lasts(
    states: Seq<CacheView>,
    log: Seq<(RequestView, ResponseView)>,
    m: int,
    n: int,
    key: Seq<char>,
)
    requires
        history(states, log),
        0 <= m < n < log.len(),
        log[m].0 == (RequestView::Get { key }),
        log[m].1 is Miss,
        log[n].0 == (RequestView::Get { key }),
        forall|i: int|
            m < i < n ==> !((#[trigger] log[i]).0 matches RequestView::Put { key: k, .. } && k
                == key),
    ensures
        log[n].1 is Miss,
{
    assert(answered(states[m], log[m].0, log[m].1, states[m + 1]));
    lemma_absent_stays_absent(states, log, m + 1, n, key);
    assert(answered(states[n], log[n].0, log[n].1, states[n + 1]));
}

proof fn lemma_absent_stays_absent(
    states: Seq<CacheView>,
    log: Seq<(RequestView, ResponseView)>,
    m: int,
    n: int,
    key: Seq<char>,
)
    requires
        history(states, log),
        0 <= m <= n <= log.len(),
        states[m].value(key) is None,
        forall|i: int|
            m <= i < n ==> !((#[trigger] log[i]).0 matches RequestView::Put { key: k, .. } && k
                == key),
    ensures
        states[n].value(key) is None,
    decreases n - m,
{
    if m < n {
        assert(answered(states[m], log[m].0, log[m].1, states[m + 1]));
        lemma_absent_stays_absent(states, log, m + 1, n, key);
    }
}

/// A file that was never written is answered with a miss.
pub proof fn law_unwritten_file_is_missed(
    max_entries: u64,
    ttl_seconds: u64,
    states: Seq<CacheView>,
    log: Seq<(RequestView, ResponseView)>,
    n: int,
    key: Seq<char>,
)
    requires
        history(states, log),
        states[0] == CacheView::empty(max_entries, ttl_seconds),
        0 <= n < log.len(),
        log[n].0 == (RequestView::GetFile { key }),
        forall|i: int|
            0 <= i < n ==> !((#[trigger] log[i]).0 matches RequestView::SetFile { key: k, .. } && k
                == key),
    ensures
        log[n].1 is Miss,
{
    assert(answered(states[n], log[n].0, log[n].1, states[n + 1]));
    if states[n].files.contains_key(key) {
        lemma_files_were_put(states, log, n, key);
        let j = choose|j: int| latest_file(log, n, key, states[n].files[key].0, j);
        assert(log[j].0 matches RequestView::SetFile { key: k, .. } && k == key);
    }
}

/// A miss of a file lasts: a file that was missed is missed again, as long as it is not written in
/// between.
pub proof fn law_file_miss_lasts(
    states: Seq<CacheView>,
    log: Seq<(RequestView, ResponseView)>,
    m: int,
    n: int,
    key: Seq<char>,
)
    requires
        history(states, log),
        0 <= m < n < log.len(),
        log[m].0 == (RequestView::GetFile { key }),
        log[m].1 is Miss,
        log[n].0 == (RequestView::GetFile { key }),
        forall|i: int|
            m < i < n ==> !((#[trigger] log[i]).0 matches RequestView::SetFile { key: k, .. } && k
                == key),
    ensures
        log[n].1 is Miss,
{
    assert(answered(states[m], log[m].0, log[m].1, states[m + 1]));
    lemma_absent_file_stays_absent(states, log, m + 1, n, key);
    assert(answered(states[n], log[n].0, log[n].1, states[n + 1]));
}

proof fn lemma_absent_file_stays_absent(
    states: Seq<CacheView>,
    log: Seq<(RequestView, ResponseView)>,
    m: int,
    n: int,
    key: Seq<char>,
)
    requires
        history(states, log),
        0 <= m <= n <= log.len(),
        states[m].file(key) is None,
        forall|i: int|
            m <= i < n ==> !((#[trigger] log[i]).0 matches RequestView::SetFile { key: k, .. } && k
                == key),
    ensures
        states[n].file(key) is None,
    decreases n - m,
{
    if m < n {
        assert(answered(states[m], log[m].0, log[m].1, states[m + 1]));
        lemma_absent_file_stays_absent(states, log, m + 1, n, key);
    }
}

/// Clearing empties the cache of values: a lookup of any key after it is missed, as long as the
/// key is not written in between.
pub proof fn law_clear_drops_every_value(
    states: Seq<CacheView>,
    log: Seq<(RequestView, ResponseView)>,
    m: int,
    n: int,
    key: Seq<char>,
)
    requires
        history(states, log),
        0 <= m < n < log.len(),
        log[m].0 is ClearCache,
        log[n].0 == (RequestView::Get { key }),
        forall|i: int|
            m < i < n ==> !((#[trigger] log[i]).0 matches RequestView::Put { key: k, .. } && k
                == key),
    ensures
        log[n].1 is Miss,
{
    assert(answered(states[m], log[m].0, log[m].1, states[m + 1]));
    lemma_absent_stays_absent(states, log, m + 1, n, key);
    assert(answered(states[n], log[n].0, log[n].1, states[n + 1]));
}

/// Clearing leaves the files, and starts the counters again from zero.
pub proof fn law_clear_keeps_files_and_resets_counters(
    pre: CacheView,
    response: ResponseView,
    post: CacheView,
)
    requires
        answered(pre, RequestView::ClearCache, response, post),
    ensures
        response is CacheCleared,
        post.files == pre.files,
        post.values.is_empty(),
        post.hits == 0,
        post.misses == 0,
{
}

/// The counters count: in every history that starts with an empty cache they are the numbers of
/// hits and of misses among the answers since the last clearing, modulo 2^64. `GetStats` reports
/// them.
pub proof fn law_counters_count_lookups(
    max_entries: u64,
    ttl_seconds: u64,
    states: Seq<CacheView>,
    log: Seq<(RequestView, ResponseView)>,
    n: int,
)
    requires
        history(states, log),
        states[0] == CacheView::empty(max_entries, ttl_seconds),
        0 <= n <= log.len(),
    ensures
        states[n].hits == hits_since_clear(log, n) % 0x1_0000_0000_0000_0000,
        states[n].misses == misses_since_clear(log, n) % 0x1_0000_0000_0000_0000,
        n < log.len() && log[n].0 is GetStats ==> {
            &&& log[n].1 matches ResponseView::Stats(stats)
            &&& stats.hits == hits_since_clear(log, n) % 0x1_0000_0000_0000_0000
            &&& stats.misses == misses_since_clear(log, n) % 0x1_0000_0000_0000_0000
        },
    decreases n,
{
    if n > 0 {
        law_counters_count_lookups(max_entries, ttl_seconds, states, log, n - 1);
        assert(answered(states[n - 1], log[n - 1].0, log[n - 1].1, states[n]));
    }
    if n < log.len() {
        assert(answered(states[n], log[n].0, log[n].1, states[n + 1]));
    }
}

/// Only reads and writes of values, and clearing, move the count of the values, and only reads and
/// writes of files move the count of the files. What `GetStats` reports is the two together.
pub proof fn law_counts_move_with_their_own_requests(
    pre: CacheView,
    request: RequestView,
    response: ResponseView,
    post: CacheView,
)
    requires
        answered(pre, request, response, post),
    ensures
        !(request is Get || request is Put || request is ClearCache) ==> post.value_count
            == pre.value_count,
        !(request is GetFile || request is SetFile) ==> post.file_count == pre.file_count,
        request is Ping || request is GetStats || request is Shutdown ==> post == pre,
        response matches ResponseView::Stats(stats) ==> stats.entries == (pre.value_count
            + pre.file_count) % 0x1_0000_0000_0000_0000,
{
}

/// No request changes the limits of the cache.
pub proof fn law_limits_never_change(
    pre: CacheView,
    request: RequestView,
    response: ResponseView,
    post: CacheView,
)
    requires
        answered(pre, request, response, post),
    ensures
        post.value_limits == pre.value_limits,
        post.file_limits == pre.file_limits,
{
}

/// Keys do not interfere: a request that does not name `key` leaves its value as it is, unless it
/// clears the cache, and leaves its file as it is.
pub proof fn law_other_keys_are_left_alone(
    pre: CacheView,
    request: RequestView,
    response: ResponseView,
    post: CacheView,
    key: Seq<char>,
)
    requires
        answered(pre, request, response, post),
    ensures
        match request {
            RequestView::Get { key: k } | RequestView::Put { key: k, .. } => k != key,
            RequestView::ClearCache => false,
            _ => true,
        } ==> post.value(key) == pre.value(key),
        match request {
            RequestView::GetFile { key: k } | RequestView::SetFile { key: k, .. } => k != key,
            _ => true,
        } ==> post.file(key) == pre.file(key),
{
}

/// Whether every file of the cache has a user.
pub open spec fn every_file_is_used(cache: CacheView) -> bool {
    forall|key: Seq<char>| #[trigger] cache.files.contains_key(key) ==> cache.files[key].1 >= 1
}

/// A new cache has no file without a user, and neither a request nor taking or giving up a
/// reference leaves one.
pub proof fn law_every_file_stays_used(
    max_entries: u64,
    ttl_seconds: u64,
    pre: CacheView,
    request: RequestView,
    response: ResponseView,
    key: Seq<char>,
    users: Option<u64>,
    released: Option<(u64, Option<Seq<char>>)>,
    post: CacheView,
)
    requires
        every_file_is_used(pre),
    ensures
        every_file_is_used(CacheView::empty(max_entries, ttl_seconds)),
        answered(pre, request, response, post) ==> every_file_is_used(post),
        pre.file_retained(key, users, post) ==> every_file_is_used(post),
        pre.file_released(key, released, post) ==> every_file_is_used(post),
{
}

/// Giving up a reference undoes taking it: where both find the file, the cache is as it was but for
/// the count of its files, the number of users is what it was, and the file is not to be deleted.
pub proof fn law_release_undoes_retain(
    pre: CacheView,
    key: Seq<char>,
    users: u64,
    between: CacheView,
    released: (u64, Option<Seq<char>>),
    post: CacheView,
)
    requires
        every_file_is_used(pre),
        pre.file_retained(key, Some(users), between),
        between.file_released(key, Some(released), post),
    ensures
        post == pre.with_file_count_of(post),
        released.0 == users - 1,
        released.0 == pre.files[key].1,
        released.1 is None,
{
    assert(post.files =~= pre.files);
    assert(post.lapsed_files =~= pre.lapsed_files);
}

/// Giving up a reference hands out the file to be deleted exactly when it finds the file and that
/// was the last reference. Its entry is then removed, and no entry is removed otherwise: where the
/// file is found gone, every entry stays.
pub proof fn law_file_is_deleted_with_its_last_user(
    pre: CacheView,
    key: Seq<char>,
    released: Option<(u64, Option<Seq<char>>)>,
    post: CacheView,
    other: Seq<char>,
)
    requires
        every_file_is_used(pre),
        pre.file_released(key, released, post),
    ensures
        match released {
            Some((users, stale_path)) => {
                &&& pre.file(key) matches Some(file)
                &&& stale_path == if file.1 == 1 {
                    Some(file.0)
                } else {
                    None
                }
                &&& users == file.1 - 1
                &&& post.file(key) == if users == 0 {
                    None
                } else {
                    Some((file.0, users))
                }
            },
            None => post.files == pre.files && post.file(key) is None,
        },
        pre.files.contains_key(other) && !post.files.contains_key(other) ==> other == key
            && released == Some((0u64, Some(pre.files[other].0))),
{
}

/// What happened to the references to a file: whether one was taken or given up, the number of
/// users that came back, and the file to delete, if it came back.
pub type ReferenceStep = (bool, u64, Option<Seq<char>>);

/// `steps` is how references to the file under `key` were taken and given up, each time finding
/// the file, and `states` is the cache before the first step and after each.
pub open spec fn referenced(
    states: Seq<CacheView>,
    steps: Seq<ReferenceStep>,
    key: Seq<char>,
) -> bool {
    &&& states.len() == steps.len() + 1
    &&& forall|i: int|
        0 <= i < steps.len() ==> if (#[trigger] steps[i]).0 {
            steps[i].2 is None && states[i].file_retained(key, Some(steps[i].1), states[i + 1])
        } else {
            states[i].file_released(key, Some((steps[i].1, steps[i].2)), states[i + 1])
        }
}

/// `start`, and one more for each reference taken in the first `n` steps, and one less for each
/// given up.
pub open spec fn users_after(start: u64, steps: Seq<ReferenceStep>, n: int) -> int
    decreases n,
{
    if n <= 0 {
        start as int
    } else if steps[n - 1].0 {
        users_after(start, steps, n - 1) + 1
    } else {
        users_after(start, steps, n - 1) - 1
    }
}

/// References are counted: however they are taken and given up, each step returns the number of
/// users that this makes, the last user's step and no other returns the file to delete, and no
/// step finds the file after it.
pub proof fn law_references_are_counted(
    states: Seq<CacheView>,
    steps: Seq<ReferenceStep>,
    key: Seq<char>,
    path: Seq<char>,
    start: u64,
    n: int,
)
    requires
        referenced(states, steps, key),
        states[0].file(key) == Some((path, start)),
        start >= 1,
        0 <= n <= steps.len(),
    ensures
        n < steps.len() ==> users_after(start, steps, n) >= 1,
        0 <= users_after(start, steps, n) <= u64::MAX,
        states[n].file(key) == if users_after(start, steps, n) == 0 {
            None
        } else {
            Some((path, users_after(start, steps, n) as u64))
        },
        n > 0 ==> steps[n - 1].1 == users_after(start, steps, n),
        n > 0 ==> steps[n - 1].2 == if users_after(start, steps, n) == 0 {
            Some(path)
        } else {
            None
        },
    decreases n,
{
    if n > 0 {
        law_references_are_counted(states, steps, key, path, start, n - 1);
    }
    if n < steps.len() {
        assert(steps[n].0 || states[n].file(key) is Some);
    }
}

/// A request to shut down is answered before the daemon is told to stop, and nothing else that
/// happens on a connection tells it to stop.
pub proof fn law_shutdown_is_answered_then_signalled(
    pre: CacheView,
    event: ConnectionEvent,
    action: ConnectionAction,
    post: CacheView,
)
    requires
        connection_handled(pre, event, action, post),
    ensures
        event matches ConnectionEvent::Received(request) && request is Shutdown ==> {
            &&& action matches ConnectionAction::Respond { response, is_shutdown }
            &&& response is ShuttingDown
            &&& is_shutdown
        },
        action is SignalShutdown <==> {
            &&& event matches ConnectionEvent::Responded { is_shutdown, outcome }
            &&& is_shutdown
            &&& outcome is Ok
        },
        action matches ConnectionAction::Respond { is_shutdown, .. } ==> {
            &&& event matches ConnectionEvent::Received(request)
            &&& is_shutdown == (request is Shutdown)
        },
{
}

/// Only requests touch the cache, and every request is answered.
pub proof fn law_every_request_is_answered(
    pre: CacheView,
    event: ConnectionEvent,
    action: ConnectionAction,
    post: CacheView,
)
    requires
        connection_handled(pre, event, action, post),
    ensures
        event is Received <==> action is Respond,
        !(event is Received) ==> post == pre,
{
}

/// The socket is private from the start: it is bound under a mask that leaves it exactly the
/// permissions that are set afterwards.
pub proof fn law_socket_is_private(config: ConfigView, event: ServerEventView, i: int)
    requires
        0 <= i < server_actions(config, event).len(),
    ensures
        server_actions(config, event)[i] matches ServerActionView::Bind { path, umask } ==> path
            == config.socket_path && 0o777u32 & !umask == 0o600,
        server_actions(config, event)[i] matches ServerActionView::SetMode { path, mode } ==> path
            == config.socket_path && mode == 0o600,
        event == ServerEventView::Bound(Ok(())) ==> server_actions(config, event)[i] is SetMode,
{
    assert(0o777u32 & !0o177u32 == 0o600u32) by (bit_vector);
}

/// The daemon removes its socket and the file with its process id: it ends at the end of a list of
/// actions only, having removed its socket in that list unless the socket could not be bound, and
/// an orderly end removes the file with the process id as well. Fetched files stay where they are.
pub proof fn law_daemon_removes_socket_and_pid_file(
    config: ConfigView,
    event: ServerEventView,
    i: int,
)
    requires
        0 <= i < server_actions(config, event).len(),
        server_actions(config, event)[i] is Exit,
    ensures
        i == server_actions(config, event).len() - 1,
        event matches ServerEventView::Bound(outcome) ==> outcome is Err,
        !(event is Bound) ==> server_actions(config, event).contains(
            ServerActionView::RemoveFile(config.socket_path),
        ),
        server_actions(config, event)[i] == ServerActionView::Exit(Ok(())) ==> server_actions(
            config,
            event,
        ).contains(
            ServerActionView::RemoveFile(with_extension_of(config.socket_path, "pid"@)),
        ),
{
    let actions = server_actions(config, event);
    let socket = ServerActionView::RemoveFile(config.socket_path);
    let pid = ServerActionView::RemoveFile(with_extension_of(config.socket_path, "pid"@));
    match event {
        ServerEventView::Interrupted => {
            assert(actions[1] == socket && actions[2] == pid);
        },
        ServerEventView::ShutdownChanged(_) => {
            assert(actions[0] == socket && actions[1] == pid);
        },
        ServerEventView::Secured(_) => {
            assert(actions[0] == socket);
        },
        _ => {},
    }
}

/// The daemon goes on or ends: every list of actions ends in waiting for an event, in an action
/// whose outcome is the next event, or in the end.
pub proof fn law_daemon_goes_on_or_ends(config: ConfigView, event: ServerEventView)
    ensures
        server_actions(config, event).len() > 0,
        ({
            let last = server_actions(config, event).last();
            last is Listen || last is Bind || last is SetMode || last is Exit
        }),
{
}

} // verus!
