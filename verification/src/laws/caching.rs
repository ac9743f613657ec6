//! What each operation on the cache, each request and each event changes, and what it leaves.

use crate::config::ConfigView;
use crate::daemon::cache::CacheView;
use crate::daemon::server::{
    answered, connection_handled, server_actions, ConnectionAction, ConnectionEvent,
    ServerActionView, ServerEventView,
};
use crate::error::ErrorView;
use crate::path::with_extension_of;
use crate::protocol::{CacheStats, RequestView, ResponseView};
use vstd::prelude::*;

verus! {

/// A cache starts with nothing in it, with the configured capacity for values and for files, with
/// the configured time to live for values and twice that for files.
pub proof fn law_cache_starts_with_the_configured_limits(max_entries: u64, ttl_seconds: u64)
    requires
        2 * ttl_seconds <= u64::MAX,
    ensures
        ({
            let cache = CacheView::empty(max_entries, ttl_seconds);
            &&& cache.value_limits.0 == max_entries
            &&& cache.value_limits.1 == ttl_seconds
            &&& cache.file_limits.0 == max_entries
            &&& cache.file_limits.1 == 2 * ttl_seconds
            &&& cache.values.is_empty() && cache.lapsed_values.is_empty()
            &&& cache.files.is_empty() && cache.lapsed_files.is_empty()
            &&& cache.hits == 0 && cache.misses == 0
            &&& cache.value_count == 0 && cache.file_count == 0
        }),
{
}

/// Whether `a` and `b` agree on the files: what was written, what lapsed, the limits and the count.
pub open spec fn same_files(a: CacheView, b: CacheView) -> bool {
    &&& a.files == b.files
    &&& a.lapsed_files == b.lapsed_files
    &&& a.file_limits == b.file_limits
    &&& a.file_count == b.file_count
}

/// Whether `a` and `b` agree on the values: what was written, what lapsed, the limits and the
/// count.
pub open spec fn same_values(a: CacheView, b: CacheView) -> bool {
    &&& a.values == b.values
    &&& a.lapsed_values == b.lapsed_values
    &&& a.value_limits == b.value_limits
    &&& a.value_count == b.value_count
}

/// What a lookup may give is what was last written under the key, where the key has not lapsed, and
/// nothing otherwise.
pub proof fn law_entry_is_what_was_written_and_not_lapsed(cache: CacheView, key: Seq<char>)
    ensures
        cache.value(key) is Some <==> cache.values.contains_key(key)
            && !cache.lapsed_values.contains(key),
        cache.value(key) matches Some(value) ==> value == cache.values[key],
        cache.file(key) is Some <==> cache.files.contains_key(key) && !cache.lapsed_files.contains(
            key,
        ),
        cache.file(key) matches Some(file) ==> file == cache.files[key],
{
}

/// Bringing a count up to date changes that count and nothing else.
pub proof fn law_recount_changes_only_the_count(cache: CacheView, other: CacheView)
    ensures
        ({
            let recounted = cache.with_value_count_of(other);
            &&& recounted.value_count == other.value_count
            &&& recounted.values == cache.values && recounted.lapsed_values == cache.lapsed_values
            &&& recounted.value_limits == cache.value_limits
            &&& recounted.hits == cache.hits && recounted.misses == cache.misses
            &&& same_files(cache, recounted)
        }),
        ({
            let recounted = cache.with_file_count_of(other);
            &&& recounted.file_count == other.file_count
            &&& recounted.files == cache.files && recounted.lapsed_files == cache.lapsed_files
            &&& recounted.file_limits == cache.file_limits
            &&& recounted.hits == cache.hits && recounted.misses == cache.misses
            &&& same_values(cache, recounted)
        }),
{
}

/// The hit rate is the hits among all lookups, hits and misses together, and there is none before
/// the first lookup.
pub proof fn law_hit_rate_is_hits_among_lookups(stats: CacheStats)
    ensures
        stats.ratio() is None <==> stats.hits == 0 && stats.misses == 0,
        stats.ratio() matches Some((hits, lookups)) ==> hits == stats.hits && lookups - hits
            == stats.misses,
{
}

/// A lookup of a value gives what was last written under the key, if the key has not lapsed. It
/// counts one hit or one miss, and a miss makes the key lapse. It changes nothing else.
pub proof fn law_lookup_of_a_value(
    pre: CacheView,
    key: Seq<char>,
    found: Option<Seq<char>>,
    post: CacheView,
)
    requires
        pre.value_read(key, found, post),
    ensures
        found matches Some(value) ==> {
            &&& pre.values.contains_key(key)
            &&& !pre.lapsed_values.contains(key)
            &&& value == pre.values[key]
            &&& post.lapsed_values == pre.lapsed_values
            &&& post.hits == (pre.hits + 1) % 0x1_0000_0000_0000_0000
            &&& post.misses == pre.misses
        },
        found is None ==> {
            &&& post.lapsed_values == pre.lapsed_values.insert(key)
            &&& post.hits == pre.hits
            &&& post.misses == (pre.misses + 1) % 0x1_0000_0000_0000_0000
        },
        post.values == pre.values,
        post.value_limits == pre.value_limits,
        same_files(pre, post),
{
}

/// A lookup of a file does the same for files.
pub proof fn law_lookup_of_a_file(
    pre: CacheView,
    key: Seq<char>,
    found: Option<(Seq<char>, u64)>,
    post: CacheView,
)
    requires
        pre.file_read(key, found, post),
    ensures
        found matches Some(file) ==> {
            &&& pre.files.contains_key(key)
            &&& !pre.lapsed_files.contains(key)
            &&& file == pre.files[key]
            &&& post.lapsed_files == pre.lapsed_files
            &&& post.hits == (pre.hits + 1) % 0x1_0000_0000_0000_0000
            &&& post.misses == pre.misses
        },
        found is None ==> {
            &&& post.lapsed_files == pre.lapsed_files.insert(key)
            &&& post.hits == pre.hits
            &&& post.misses == (pre.misses + 1) % 0x1_0000_0000_0000_0000
        },
        post.files == pre.files,
        post.file_limits == pre.file_limits,
        same_values(pre, post),
{
}

/// Counting a lookup adds one hit or one miss, modulo 2^64, and changes nothing else.
pub proof fn law_lookup_is_counted(pre: CacheView, found: bool)
    ensures
        pre.counted(found).hits == if found {
            (pre.hits + 1) % 0x1_0000_0000_0000_0000
        } else {
            pre.hits as int
        },
        pre.counted(found).misses == if found {
            pre.misses as int
        } else {
            (pre.misses + 1) % 0x1_0000_0000_0000_0000
        },
        same_values(pre, pre.counted(found)),
        same_files(pre, pre.counted(found)),
{
}

/// A written value is what the next lookup of its key may give, whatever was there before and
/// whatever the value is. Other keys, the files and the counters stay.
pub proof fn law_written_value_is_there(
    pre: CacheView,
    key: Seq<char>,
    value: Seq<char>,
    other: Seq<char>,
)
    ensures
        ({
            let post = pre.value_written(key, value);
            &&& post.values.contains_key(key)
            &&& post.values[key] == value
            &&& !post.lapsed_values.contains(key)
            &&& post.value(key) == Some(value)
            &&& other != key ==> {
                &&& post.values.contains_key(other) == pre.values.contains_key(other)
                &&& pre.values.contains_key(other) ==> post.values[other] == pre.values[other]
                &&& post.lapsed_values.contains(other) == pre.lapsed_values.contains(other)
            }
            &&& post.hits == pre.hits && post.misses == pre.misses
            &&& post.value_limits == pre.value_limits && post.value_count == pre.value_count
            &&& same_files(pre, post)
        }),
{
}

/// A written file is what the next lookup of its key may give, with the given number of users.
/// Other keys, the values and the counters stay.
pub proof fn law_written_file_is_there(
    pre: CacheView,
    key: Seq<char>,
    path: Seq<char>,
    users: u64,
    other: Seq<char>,
)
    ensures
        ({
            let post = pre.file_written(key, path, users);
            &&& post.files.contains_key(key)
            &&& post.files[key] == (path, users)
            &&& !post.lapsed_files.contains(key)
            &&& post.file(key) == Some((path, users))
            &&& other != key ==> {
                &&& post.files.contains_key(other) == pre.files.contains_key(other)
                &&& pre.files.contains_key(other) ==> post.files[other] == pre.files[other]
                &&& post.lapsed_files.contains(other) == pre.lapsed_files.contains(other)
            }
            &&& post.hits == pre.hits && post.misses == pre.misses
            &&& post.file_limits == pre.file_limits && post.file_count == pre.file_count
            &&& same_values(pre, post)
        }),
{
}

/// Taking a reference finds the file as it was last written and adds one user, or finds it gone
/// and changes nothing else. It counts no lookup, and touches no other key and no value.
pub proof fn law_taking_a_reference_adds_one_user(
    pre: CacheView,
    key: Seq<char>,
    users: Option<u64>,
    post: CacheView,
    other: Seq<char>,
)
    requires
        pre.file_retained(key, users, post),
    ensures
        users matches Some(n) ==> {
            &&& pre.files.contains_key(key) && !pre.lapsed_files.contains(key)
            &&& n == pre.files[key].1 + 1
            &&& post.files[key] == (pre.files[key].0, n)
            &&& post.files.contains_key(key) && !post.lapsed_files.contains(key)
        },
        users is None ==> post.files == pre.files && post.lapsed_files == pre.lapsed_files.insert(key),
        other != key ==> post.files.contains_key(other) == pre.files.contains_key(other) && (
        pre.files.contains_key(other) ==> post.files[other] == pre.files[other]),
        other != key ==> post.lapsed_files.contains(other) == pre.lapsed_files.contains(other),
        post.hits == pre.hits && post.misses == pre.misses,
        post.file_limits == pre.file_limits,
        same_values(pre, post),
{
}

/// Giving up a reference finds the file as it was last written and takes one user away: the last
/// one takes the entry away and hands the path out. Or it finds the file gone and changes nothing
/// else. It counts no lookup, and touches no other key and no value.
pub proof fn law_giving_up_a_reference_takes_one_user(
    pre: CacheView,
    key: Seq<char>,
    released: Option<(u64, Option<Seq<char>>)>,
    post: CacheView,
    other: Seq<char>,
)
    requires
        pre.file_released(key, released, post),
    ensures
        released matches Some((users, stale_path)) ==> {
            &&& pre.files.contains_key(key) && !pre.lapsed_files.contains(key)
            &&& pre.files[key].1 <= 1 ==> users == 0 && stale_path == Some(pre.files[key].0)
                && !post.files.contains_key(key)
            &&& pre.files[key].1 > 1 ==> users == pre.files[key].1 - 1 && stale_path is None
                && post.files.contains_key(key) && post.files[key] == (pre.files[key].0, users)
                && !post.lapsed_files.contains(key)
        },
        released is None ==> post.files == pre.files && post.lapsed_files
            == pre.lapsed_files.insert(key),
        other != key ==> post.files.contains_key(other) == pre.files.contains_key(other) && (
        pre.files.contains_key(other) ==> post.files[other] == pre.files[other]),
        other != key ==> post.lapsed_files.contains(other) == pre.lapsed_files.contains(other),
        post.hits == pre.hits && post.misses == pre.misses,
        post.file_limits == pre.file_limits,
        same_values(pre, post),
{
}

/// Clearing leaves no value and no counts of lookups, and leaves the files and the limits.
pub proof fn law_clearing_leaves_the_files(pre: CacheView)
    ensures
        ({
            let post = pre.cleared();
            &&& post.values.is_empty()
            &&& post.hits == 0 && post.misses == 0
            &&& post.value_limits == pre.value_limits
            &&& same_files(pre, post)
        }),
{
}

/// A `Put` is answered, and the value is then there under its key; a `SetFile` likewise, with one
/// user. Nothing else of the cache changes.
pub proof fn law_writes_are_answered_and_kept(
    pre: CacheView,
    request: RequestView,
    response: ResponseView,
    post: CacheView,
    other: Seq<char>,
)
    requires
        answered(pre, request, response, post),
    ensures
        request matches RequestView::Put { key, value } ==> {
            &&& response is Stored
            &&& post.values.contains_key(key) && post.values[key] == value
            &&& !post.lapsed_values.contains(key)
            &&& other != key ==> post.value(other) == pre.value(other)
            &&& same_files(pre, post)
        },
        request matches RequestView::SetFile { key, path } ==> {
            &&& response is FileStored
            &&& post.files.contains_key(key) && post.files[key] == (path, 1u64)
            &&& !post.lapsed_files.contains(key)
            &&& other != key ==> post.file(other) == pre.file(other)
            &&& same_values(pre, post)
        },
        request is Put || request is SetFile ==> post.hits == pre.hits && post.misses == pre.misses,
{
}

/// A `Get` is answered with the value last written under its key or with a miss, a `GetFile` with
/// the path last written or with a miss, and the answer is counted. No entry changes.
pub proof fn law_lookups_are_answered_and_counted(
    pre: CacheView,
    request: RequestView,
    response: ResponseView,
    post: CacheView,
)
    requires
        answered(pre, request, response, post),
    ensures
        request matches RequestView::Get { key } ==> {
            ||| response is Miss
            ||| {
                &&& pre.values.contains_key(key) && !pre.lapsed_values.contains(key)
                &&& response == (ResponseView::Hit { value: pre.values[key] })
            }
        },
        request matches RequestView::GetFile { key } ==> {
            ||| response is Miss
            ||| {
                &&& pre.files.contains_key(key) && !pre.lapsed_files.contains(key)
                &&& response == (ResponseView::FileHit { path: pre.files[key].0 })
            }
        },
        request matches RequestView::Get { key } ==> response is Miss ==> post.lapsed_values
            == pre.lapsed_values.insert(key),
        request matches RequestView::GetFile { key } ==> response is Miss ==> post.lapsed_files
            == pre.lapsed_files.insert(key),
        request is Get || request is GetFile ==> {
            &&& post.values == pre.values && post.files == pre.files
            &&& response is Miss ==> post.hits == pre.hits && post.misses == (pre.misses + 1)
                % 0x1_0000_0000_0000_0000
            &&& !(response is Miss) ==> post.misses == pre.misses && post.hits == (pre.hits + 1)
                % 0x1_0000_0000_0000_0000
        },
        request is Get ==> same_files(pre, post),
        request is GetFile ==> same_values(pre, post),
{
}

/// The other requests are answered in kind: `GetStats` with the counters as they are, and it
/// changes them no more than `Ping` and `Shutdown` do. `ClearCache` is answered once no value is
/// left.
pub proof fn law_other_requests_are_answered_in_kind(
    pre: CacheView,
    request: RequestView,
    response: ResponseView,
    post: CacheView,
)
    requires
        answered(pre, request, response, post),
    ensures
        request is Ping ==> response is Pong && post == pre,
        request is Shutdown ==> response is ShuttingDown && post == pre,
        request is GetStats ==> post == pre && (response matches ResponseView::Stats(stats)
            && stats.hits == pre.hits && stats.misses == pre.misses && stats.entries == (
        pre.value_count + pre.file_count) % 0x1_0000_0000_0000_0000),
        request is ClearCache ==> {
            &&& response is CacheCleared
            &&& post.values.is_empty()
            &&& post.hits == 0 && post.misses == 0
            &&& post.value_limits == pre.value_limits
            &&& same_files(pre, post)
        },
{
}

/// A connection answers each request as the cache does and waits for the next; it ends when the
/// client or the daemon does, and fails with the reason when a message cannot be read or written.
pub proof fn law_connection_goes_on_ends_or_fails(
    pre: CacheView,
    event: ConnectionEvent,
    action: ConnectionAction,
    post: CacheView,
)
    requires
        connection_handled(pre, event, action, post),
    ensures
        event matches ConnectionEvent::Received(request) ==> {
            &&& action matches ConnectionAction::Respond { response, is_shutdown }
            &&& answered(pre, request@, response@, post)
            &&& is_shutdown == (request is Shutdown)
        },
        event is EndOfStream ==> action is Close,
        event matches ConnectionEvent::ReadFailed(reason) ==> {
            &&& action matches ConnectionAction::Fail(e)
            &&& e@ == ErrorView::Protocol(reason@)
        },
        event matches ConnectionEvent::Responded { is_shutdown, outcome } ==> {
            &&& outcome matches Err(e) ==> action == ConnectionAction::Fail(e)
            &&& outcome is Ok && is_shutdown ==> action is SignalShutdown
            &&& outcome is Ok && !is_shutdown ==> action is Wait
        },
        event == ConnectionEvent::ShutdownChanged(true) ==> action is Close,
        event == ConnectionEvent::ShutdownChanged(false) ==> action is Wait,
        !(event is Received) ==> post == pre,
{
}

/// The daemon starts by removing an old socket and binding a new one that only its owner may use,
/// makes sure of that, and then listens. Where either step fails it ends with the reason, and
/// removes a socket that it could not make private.
pub proof fn law_daemon_starts_with_a_private_socket(config: ConfigView, reason: Seq<char>)
    ensures
        ({
            let actions = server_actions(config, ServerEventView::Started);
            &&& actions.len() == 2
            &&& actions[0] == ServerActionView::RemoveFile(config.socket_path)
            &&& actions[1] == (ServerActionView::Bind { path: config.socket_path, umask: 0o177 })
        }),
        ({
            let actions = server_actions(config, ServerEventView::Bound(Ok(())));
            &&& actions.len() == 1
            &&& actions[0] == (ServerActionView::SetMode { path: config.socket_path, mode: 0o600 })
        }),
        ({
            let actions = server_actions(config, ServerEventView::Secured(Ok(())));
            actions.len() == 1 && actions[0] is Listen
        }),
        ({
            let actions = server_actions(config, ServerEventView::Bound(Err(reason)));
            &&& actions.len() == 1
            &&& actions[0] == ServerActionView::Exit(
                Err(ErrorView::Internal("failed to bind socket: "@ + reason)),
            )
        }),
        ({
            let actions = server_actions(config, ServerEventView::Secured(Err(reason)));
            &&& actions.len() == 2
            &&& actions[0] == ServerActionView::RemoveFile(config.socket_path)
            &&& actions[1] == ServerActionView::Exit(
                Err(ErrorView::Internal("failed to set socket permissions: "@ + reason)),
            )
        }),
{
}

/// The daemon serves every client that connects and goes on, also where one could not be accepted.
/// It stops when its shutdown flag is set, or when it is interrupted, and then it sets the flag
/// itself first. It stops by removing the socket and the file with its process id, and without a
/// failure.
pub proof fn law_daemon_serves_until_it_is_stopped(config: ConfigView)
    ensures
        ({
            let actions = server_actions(config, ServerEventView::Accepted);
            actions.len() == 2 && actions[0] is Serve && actions[1] is Listen
        }),
        ({
            let actions = server_actions(config, ServerEventView::AcceptFailed);
            actions.len() == 1 && actions[0] is Listen
        }),
        ({
            let actions = server_actions(config, ServerEventView::ShutdownChanged(false));
            actions.len() == 1 && actions[0] is Listen
        }),
        ({
            let actions = server_actions(config, ServerEventView::ShutdownChanged(true));
            &&& actions.len() == 3
            &&& actions[0] == ServerActionView::RemoveFile(config.socket_path)
            &&& actions[1] == ServerActionView::RemoveFile(
                with_extension_of(config.socket_path, "pid"@),
            )
            &&& actions[2] == ServerActionView::Exit(Ok(()))
        }),
        ({
            let actions = server_actions(config, ServerEventView::Interrupted);
            &&& actions.len() == 4
            &&& actions[0] is SignalShutdown
            &&& actions.skip(1) == server_actions(config, ServerEventView::ShutdownChanged(true))
        }),
{
    let actions = server_actions(config, ServerEventView::Interrupted);
    assert(actions.skip(1) =~= server_actions(config, ServerEventView::ShutdownChanged(true)));
}

} // verus!
