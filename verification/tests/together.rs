use op_cache::client::{
    Client, OpOutcome, ReadEvent, ReadFileEvent, ReadFileStep, ReadStep,
};
use op_cache::config::Config;
use op_cache::daemon::cache::Cache;
use op_cache::daemon::server::handle_request;
use op_cache::error::Error;

fn fetched(secret: &str) -> OpOutcome {
    OpOutcome::Exited { success: true, stdout: secret.as_bytes().to_vec(), stderr: Vec::new() }
}

fn read(cache: &mut Cache, reference: &str, account: Option<&str>, secret: &str) -> (String, bool) {
    let client = Client::new(Config::default());
    let mut event = ReadEvent::Started;
    let mut ran = false;
    loop {
        event = match client.read(reference, account, None, event) {
            ReadStep::EnsureDaemon => ReadEvent::Daemon(Ok(())),
            ReadStep::Send(request) => ReadEvent::Reply(Ok(handle_request(&request, cache))),
            ReadStep::Execute(_) => {
                ran = true;
                ReadEvent::Fetched(fetched(secret))
            }
            ReadStep::Store { request, value } => {
                ReadEvent::Stored { value, reply: Ok(handle_request(&request, cache)) }
            }
            ReadStep::Finish(result) => return (result.unwrap(), ran),
        };
    }
}

fn read_file(cache: &mut Cache, reference: &str, path: &str) -> (String, bool) {
    let client = Client::new(Config::default());
    let mut event = ReadFileEvent::Started;
    let mut ran = false;
    loop {
        event = match client.read_file(reference, None, None, None, event) {
            ReadFileStep::EnsureDaemon => ReadFileEvent::Daemon(Ok(())),
            ReadFileStep::Send(request) => ReadFileEvent::Reply(Ok(handle_request(&request, cache))),
            ReadFileStep::Execute(_) => {
                ran = true;
                ReadFileEvent::Fetched(fetched("content"))
            }
            ReadFileStep::Save(_) => ReadFileEvent::Saved(Ok(path.to_string())),
            ReadFileStep::Store { request, path } => {
                ReadFileEvent::Stored { path, reply: Ok(handle_request(&request, cache)) }
            }
            ReadFileStep::Finish(result) => return (result.unwrap(), ran),
        };
    }
}

#[test]
fn the_second_read_gives_back_the_first() {
    let mut cache = Cache::new(100, 3600);
    assert_eq!(read(&mut cache, "op://v/i/f", None, "one\n"), ("one".to_string(), true));
    assert_eq!(read(&mut cache, "op://v/i/f", None, "two\n"), ("one".to_string(), false));
}

#[test]
fn the_second_file_read_gives_back_the_first() {
    let mut cache = Cache::new(100, 3600);
    assert_eq!(read_file(&mut cache, "op://v/i/a.pem", "/t/1"), ("/t/1".to_string(), true));
    assert_eq!(read_file(&mut cache, "op://v/i/a.pem", "/t/2"), ("/t/1".to_string(), false));
}

#[test]
fn a_later_read_gives_back_the_first() {
    let mut cache = Cache::new(100, 3600);
    read(&mut cache, "op://v/i/f", None, "one");
    read(&mut cache, "op://v/i/g", None, "other");
    read_file(&mut cache, "op://v/i/f", "/t/1");
    assert_eq!(read(&mut cache, "op://v/i/f", None, "two"), ("one".to_string(), false));
    cache.clear();
    assert_eq!(read_file(&mut cache, "op://v/i/f", "/t/2"), ("/t/1".to_string(), false));
}

#[test]
fn an_empty_explicit_account_wins() {
    assert_eq!(
        Client::cache_key("op://c", Client::effective_account(Some(""), Some("env")).as_deref()),
        Client::cache_key("op://c", Some(""))
    );
}

#[test]
fn accounts_do_not_see_each_other() {
    let mut cache = Cache::new(100, 3600);
    assert_eq!(read(&mut cache, "op://v/i/f", Some("a"), "A"), ("A".to_string(), true));
    assert_eq!(read(&mut cache, "op://v/i/f", Some("b"), "B"), ("B".to_string(), true));
    assert_eq!(read(&mut cache, "op://v/i/f", None, "N"), ("N".to_string(), true));
    assert_eq!(read(&mut cache, "op://v/i/f", Some("a"), "x"), ("A".to_string(), false));
    assert_eq!(read(&mut cache, "op://v/i/f", Some("b"), "x"), ("B".to_string(), false));
}

#[test]
fn a_cleared_cache_makes_the_command_run_again() {
    let mut cache = Cache::new(100, 3600);
    read(&mut cache, "op://v/i/f", None, "one");
    cache.clear();
    assert_eq!(read(&mut cache, "op://v/i/f", None, "two"), ("two".to_string(), true));
}

#[test]
fn a_daemon_that_cannot_be_asked_ends_the_read() {
    let client = Client::new(Config::default());
    let event = ReadEvent::Reply(Err(Error::ConnectionFailed("refused".to_string())));
    assert!(matches!(
        client.read("op://v/i/f", None, None, event),
        ReadStep::Finish(Err(Error::ConnectionFailed(_)))
    ));
}
