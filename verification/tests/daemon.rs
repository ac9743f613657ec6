use op_cache::config::Config;
use op_cache::daemon::cache::{file_ttl_seconds, released, retained, Cache};
use op_cache::daemon::server::{
    answer_file, answer_value, handle_connection, handle_request, ConnectionAction,
    ConnectionEvent, Server, ServerAction, ServerEvent, SOCKET_MODE, SOCKET_UMASK,
};
use op_cache::daemon::store::MAX_TTL_SECONDS;
use op_cache::error::Error;
use op_cache::protocol::{CacheStats, Request, Response};

fn cache() -> Cache {
    Cache::new(100, 3600)
}

fn get(key: &str) -> Request {
    Request::Get { key: key.to_string() }
}

fn put(key: &str, value: &str) -> Request {
    Request::Put { key: key.to_string(), value: value.to_string() }
}

fn served(cache: &mut Cache, key: &str) -> Option<String> {
    match handle_request(&get(key), cache) {
        Response::Hit { value } => Some(value),
        Response::Miss => None,
        other => panic!("unexpected {other:?}"),
    }
}

#[test]
fn a_value_is_served_after_it_was_written() {
    let mut cache = cache();
    assert_eq!(cache.get("k"), None);
    cache.insert("k", "v".to_string());
    assert_eq!(cache.get("k").as_deref(), Some("v"));
    assert_eq!(cache.get("other"), None);
    cache.insert("k", "w".to_string());
    assert_eq!(cache.get("k").as_deref(), Some("w"));
}

#[test]
fn a_file_is_served_after_it_was_written() {
    let mut cache = cache();
    assert_eq!(cache.get_file("k"), None);
    cache.insert_file("k", "/t/f".to_string());
    assert_eq!(cache.get_file("k"), Some(("/t/f".to_string(), 1)));
    assert_eq!(cache.get("k"), None);
}

#[test]
fn lookups_are_counted() {
    let mut cache = cache();
    cache.insert("k", "v".to_string());
    cache.insert_file("f", "/t/f".to_string());
    cache.get("k");
    cache.get("k");
    cache.get("x");
    cache.get_file("f");
    cache.get_file("x");
    let stats = cache.stats();
    assert_eq!(stats.hits, 3);
    assert_eq!(stats.misses, 2);
}

#[test]
fn references_are_not_counted_as_lookups() {
    let mut cache = cache();
    cache.insert_file("f", "/t/f".to_string());
    cache.increment_file_ref("f");
    cache.decrement_file_ref("f");
    cache.decrement_file_ref("x");
    assert_eq!(cache.stats().hits, 0);
    assert_eq!(cache.stats().misses, 0);
}

#[test]
fn a_lookup_can_be_recorded() {
    let mut cache = cache();
    cache.record_lookup(true);
    cache.record_lookup(true);
    cache.record_lookup(false);
    assert_eq!(cache.stats().hits, 2);
    assert_eq!(cache.stats().misses, 1);
}

#[test]
fn clearing_drops_the_values_and_the_counters() {
    let mut cache = cache();
    for i in 0..50 {
        cache.insert(&format!("k{i}"), "v".to_string());
    }
    cache.insert_file("f", "/t/f".to_string());
    cache.get("k0");
    cache.get("x");
    cache.clear();
    assert_eq!(cache.stats().hits, 0);
    assert_eq!(cache.stats().misses, 0);
    for i in 0..50 {
        assert_eq!(cache.get(&format!("k{i}")), None);
    }
    assert_eq!(cache.get_file("f"), Some(("/t/f".to_string(), 1)));
    cache.insert("k0", "w".to_string());
    assert_eq!(cache.get("k0").as_deref(), Some("w"));
}

#[test]
fn nothing_is_served_after_its_time_to_live() {
    let mut cache = Cache::new(100, 0);
    cache.insert("k", "v".to_string());
    assert_eq!(cache.get("k"), None);
    cache.insert_file("k", "/t/f".to_string());
    assert_eq!(cache.get_file("k"), None);
    assert_eq!(cache.increment_file_ref("k"), None);
}

#[test]
fn a_cache_without_capacity_serves_nothing() {
    let mut cache = Cache::new(0, 3600);
    cache.insert("k", "v".to_string());
    assert_eq!(cache.get("k"), None);
    cache.clear();
    assert_eq!(cache.get("k"), None);
}

#[test]
fn a_cache_may_live_for_a_thousand_years() {
    let mut cache = Cache::new(10, MAX_TTL_SECONDS / 2);
    cache.insert("k", "v".to_string());
    assert_eq!(cache.get("k").as_deref(), Some("v"));
    assert_eq!(file_ttl_seconds(MAX_TTL_SECONDS / 2), MAX_TTL_SECONDS);
}

#[test]
fn files_live_twice_as_long() {
    assert_eq!(file_ttl_seconds(86400), 172800);
}

#[test]
fn a_file_is_deleted_with_its_last_user() {
    let mut cache = cache();
    cache.insert_file("k", "/t/f".to_string());
    assert_eq!(cache.increment_file_ref("k"), Some(2));
    assert_eq!(cache.try_increment_file_ref("k"), Ok(Some(3)));
    let released = cache.decrement_file_ref("k").unwrap();
    assert_eq!((released.users, released.stale_path), (2, None));
    let released = cache.decrement_file_ref("k").unwrap();
    assert_eq!((released.users, released.stale_path), (1, None));
    assert_eq!(cache.get_file("k"), Some(("/t/f".to_string(), 1)));
    let released = cache.decrement_file_ref("k").unwrap();
    assert_eq!((released.users, released.stale_path.as_deref()), (0, Some("/t/f")));
    assert_eq!(cache.get_file("k"), None);
    assert!(cache.decrement_file_ref("k").is_none());
    assert_eq!(cache.increment_file_ref("k"), None);
    assert_eq!(cache.try_increment_file_ref("k"), Ok(None));
}

#[test]
fn references_are_counted_one_by_one() {
    let mut cache = Cache::new(10, 60);
    cache.insert_file("k", "/nonexistent/f".to_string());
    assert_eq!(cache.increment_file_ref("k"), Some(2));
    assert_eq!(cache.decrement_file_ref("k").map(|left| left.users), Some(1));
    assert_eq!(cache.get_file("k"), Some(("/nonexistent/f".to_string(), 1)));
    assert_eq!(cache.decrement_file_ref("k").map(|left| left.users), Some(0));
    assert_eq!(cache.get_file("k"), None);
    assert!(cache.decrement_file_ref("k").is_none());
}

#[test]
fn taking_a_reference_goes_by_what_was_found() {
    assert_eq!(retained(None), None);
    assert_eq!(retained(Some(("f".to_string(), 0))), Some(("f".to_string(), 1)));
    assert_eq!(
        retained(Some(("f".to_string(), u64::MAX - 1))),
        Some(("f".to_string(), u64::MAX))
    );
}

#[test]
fn giving_up_a_reference_goes_by_what_was_found() {
    assert!(released(None).is_none());
    for users in [0, 1] {
        let (left, entry) = released(Some(("f".to_string(), users))).unwrap();
        assert_eq!((left.users, left.stale_path.as_deref()), (0, Some("f")));
        assert_eq!(entry, None);
    }
    let (left, entry) = released(Some(("f".to_string(), 3))).unwrap();
    assert_eq!((left.users, left.stale_path), (2, None));
    assert_eq!(entry, Some(("f".to_string(), 2)));
}

#[test]
fn entries_are_counted() {
    let mut cache = Cache::new(10_000, 3600);
    assert_eq!(cache.stats().entries, 0);
    for i in 0..2_000 {
        cache.insert(&format!("k{i}"), "v".to_string());
    }
    let values = cache.stats().entries;
    assert!(0 < values && values <= 2_000);
    for i in 0..2_000 {
        cache.insert_file(&format!("k{i}"), "/t/f".to_string());
    }
    let all = cache.stats().entries;
    assert!(values < all && all <= 4_000);
    match handle_request(&Request::GetStats, &mut cache) {
        Response::Stats(stats) => assert_eq!(stats.entries, all),
        other => panic!("unexpected {other:?}"),
    }
    handle_request(&Request::Ping, &mut cache);
    handle_request(&Request::Shutdown, &mut cache);
    handle_connection(ConnectionEvent::EndOfStream, &mut cache);
    assert_eq!(cache.stats().entries, all);
}

#[test]
fn giving_up_a_reference_undoes_taking_it() {
    let mut cache = cache();
    cache.insert_file("k", "/t/f".to_string());
    cache.increment_file_ref("k");
    cache.decrement_file_ref("k");
    assert_eq!(cache.get_file("k"), Some(("/t/f".to_string(), 1)));
}

#[test]
fn writing_a_file_again_starts_its_users_again() {
    let mut cache = cache();
    cache.insert_file("k", "/t/f".to_string());
    cache.increment_file_ref("k");
    cache.insert_file("k", "/t/g".to_string());
    assert_eq!(cache.get_file("k"), Some(("/t/g".to_string(), 1)));
}

#[test]
fn the_hit_rate_is_a_fraction_of_the_lookups() {
    let stats = CacheStats::of(3, 4, 1, 3);
    assert_eq!(stats, CacheStats { entries: 7, hits: 1, misses: 3 });
    assert_eq!(stats.hit_ratio(), Some((1, 4)));
    assert_eq!(CacheStats::of(0, 0, 0, 0).hit_ratio(), None);
    let large = CacheStats::of(u64::MAX, 2, u64::MAX, u64::MAX);
    assert_eq!(large.entries, 1);
    assert_eq!(large.hit_ratio(), Some((u64::MAX, 36893488147419103230)));
}

#[test]
fn requests_are_answered() {
    let mut cache = cache();
    assert!(matches!(handle_request(&Request::Ping, &mut cache), Response::Pong));
    assert!(matches!(handle_request(&get("k"), &mut cache), Response::Miss));
    assert!(matches!(handle_request(&put("k", "v"), &mut cache), Response::Stored));
    assert_eq!(served(&mut cache, "k").as_deref(), Some("v"));
    let get_file = Request::GetFile { key: "k".to_string() };
    let set_file = Request::SetFile { key: "k".to_string(), path: "/t/f".to_string() };
    assert!(matches!(handle_request(&get_file, &mut cache), Response::Miss));
    assert!(matches!(handle_request(&set_file, &mut cache), Response::FileStored));
    assert!(
        matches!(handle_request(&get_file, &mut cache), Response::FileHit { path } if path == "/t/f")
    );
    match handle_request(&Request::GetStats, &mut cache) {
        Response::Stats(stats) => assert_eq!((stats.hits, stats.misses), (2, 2)),
        other => panic!("unexpected {other:?}"),
    }
    assert!(matches!(handle_request(&Request::ClearCache, &mut cache), Response::CacheCleared));
    assert_eq!(served(&mut cache, "k"), None);
    assert!(matches!(handle_request(&Request::Shutdown, &mut cache), Response::ShuttingDown));
}

#[test]
fn a_hit_gives_back_the_latest_value() {
    let mut cache = cache();
    for value in ["1", "2", "3"] {
        handle_request(&put("k", value), &mut cache);
        handle_request(&put("other", "x"), &mut cache);
    }
    assert_eq!(served(&mut cache, "k").as_deref(), Some("3"));
    assert_eq!(served(&mut cache, "other").as_deref(), Some("x"));
}

#[test]
fn lookups_are_turned_into_answers() {
    assert!(matches!(answer_value(None), Response::Miss));
    assert!(matches!(answer_value(Some("v".to_string())), Response::Hit { value } if value == "v"));
    assert!(matches!(answer_file(None), Response::Miss));
    assert!(
        matches!(answer_file(Some(("p".to_string(), 9))), Response::FileHit { path } if path == "p")
    );
}

#[test]
fn a_connection_answers_and_goes_on() {
    let mut cache = cache();
    match handle_connection(ConnectionEvent::Received(put("k", "v")), &mut cache) {
        ConnectionAction::Respond { response: Response::Stored, is_shutdown } => {
            assert!(!is_shutdown)
        }
        other => panic!("unexpected {other:?}"),
    }
    assert_eq!(served(&mut cache, "k").as_deref(), Some("v"));
    let responded = ConnectionEvent::Responded { is_shutdown: false, outcome: Ok(()) };
    assert!(matches!(handle_connection(responded, &mut cache), ConnectionAction::Wait));
}

#[test]
fn a_connection_shuts_the_daemon_down_after_the_answer() {
    let mut cache = cache();
    match handle_connection(ConnectionEvent::Received(Request::Shutdown), &mut cache) {
        ConnectionAction::Respond { response: Response::ShuttingDown, is_shutdown } => {
            assert!(is_shutdown)
        }
        other => panic!("unexpected {other:?}"),
    }
    let responded = ConnectionEvent::Responded { is_shutdown: true, outcome: Ok(()) };
    assert!(matches!(handle_connection(responded, &mut cache), ConnectionAction::SignalShutdown));
}

#[test]
fn a_connection_ends() {
    let mut cache = cache();
    assert!(matches!(
        handle_connection(ConnectionEvent::EndOfStream, &mut cache),
        ConnectionAction::Close
    ));
    assert!(matches!(
        handle_connection(ConnectionEvent::ShutdownChanged(true), &mut cache),
        ConnectionAction::Close
    ));
    assert!(matches!(
        handle_connection(ConnectionEvent::ShutdownChanged(false), &mut cache),
        ConnectionAction::Wait
    ));
    match handle_connection(ConnectionEvent::ReadFailed("bad".to_string()), &mut cache) {
        ConnectionAction::Fail(Error::Protocol(text)) => assert_eq!(text, "bad"),
        other => panic!("unexpected {other:?}"),
    }
    let responded = ConnectionEvent::Responded {
        is_shutdown: true,
        outcome: Err(Error::Io("broken pipe".to_string())),
    };
    match handle_connection(responded, &mut cache) {
        ConnectionAction::Fail(Error::Io(text)) => assert_eq!(text, "broken pipe"),
        other => panic!("unexpected {other:?}"),
    }
}

#[test]
fn the_daemon_binds_a_private_socket() {
    let server = Server::new(Config::default());
    let actions = server.run(ServerEvent::Started);
    assert_eq!(actions.len(), 2);
    assert!(matches!(&actions[0], ServerAction::RemoveFile(path) if path == "/tmp/op-cache.sock"));
    assert!(matches!(
        &actions[1],
        ServerAction::Bind { path, umask: 0o177 } if path == "/tmp/op-cache.sock"
    ));
    let actions = server.run(ServerEvent::Bound(Ok(())));
    assert_eq!(actions.len(), 1);
    assert!(matches!(
        &actions[0],
        ServerAction::SetMode { path, mode: 0o600 } if path == "/tmp/op-cache.sock"
    ));
    assert_eq!(0o777 & !SOCKET_UMASK, SOCKET_MODE);
    assert!(matches!(server.run(ServerEvent::Secured(Ok(())))[..], [ServerAction::Listen]));
}

#[test]
fn the_daemon_reports_why_it_cannot_listen() {
    let server = Server::new(Config::default());
    let actions = server.run(ServerEvent::Bound(Err("in use".to_string())));
    assert!(matches!(
        &actions[..],
        [ServerAction::Exit(Err(Error::Internal(text)))] if text == "failed to bind socket: in use"
    ));
    let actions = server.run(ServerEvent::Secured(Err("denied".to_string())));
    assert!(matches!(
        &actions[..],
        [ServerAction::RemoveFile(path), ServerAction::Exit(Err(Error::Internal(text)))]
            if path == "/tmp/op-cache.sock" && text == "failed to set socket permissions: denied"
    ));
}

#[test]
fn the_daemon_serves_clients() {
    let server = Server::new(Config::default());
    assert!(matches!(
        server.run(ServerEvent::Accepted)[..],
        [ServerAction::Serve, ServerAction::Listen]
    ));
    assert!(matches!(server.run(ServerEvent::AcceptFailed)[..], [ServerAction::Listen]));
    assert!(matches!(server.run(ServerEvent::ShutdownChanged(false))[..], [ServerAction::Listen]));
}

#[test]
fn the_daemon_removes_its_files_when_it_stops() {
    let server = Server::new(Config::default());
    let actions = server.run(ServerEvent::ShutdownChanged(true));
    assert!(matches!(
        &actions[..],
        [ServerAction::RemoveFile(socket), ServerAction::RemoveFile(pid), ServerAction::Exit(Ok(()))]
            if socket == "/tmp/op-cache.sock" && pid == "/tmp/op-cache.pid"
    ));
    let actions = server.run(ServerEvent::Interrupted);
    assert!(matches!(
        &actions[..],
        [
            ServerAction::SignalShutdown,
            ServerAction::RemoveFile(socket),
            ServerAction::RemoveFile(pid),
            ServerAction::Exit(Ok(())),
        ] if socket == "/tmp/op-cache.sock" && pid == "/tmp/op-cache.pid"
    ));
}

#[test]
fn the_daemon_keeps_its_settings() {
    let mut config = Config::default();
    config.max_entries = 5;
    let mut server = Server::new(config);
    assert_eq!(server.config.max_entries, 5);
    server.cache.insert("k", "v".to_string());
    assert_eq!(server.cache.get("k").as_deref(), Some("v"));
}
