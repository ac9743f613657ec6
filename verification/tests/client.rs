use op_cache::client::{
    Client, CommandEvent, CommandStep, OpCommand, OpOutcome, ReadEvent, ReadFileEvent,
    ReadFileStep, ReadStep, SaveFailure,
};
use op_cache::config::Config;
use op_cache::digest::digest_text;
use op_cache::error::Error;
use op_cache::protocol::{CacheStats, Request, Response};

const REFERENCE: &str = "op://vault/item/field";

fn client() -> Client {
    let mut config = Config::default();
    config.op_path = "/usr/bin/op".to_string();
    config.op_timeout_seconds = 7;
    Client::new(config)
}

fn read(event: ReadEvent) -> ReadStep {
    client().read(REFERENCE, None, None, event)
}

fn read_file(event: ReadFileEvent) -> ReadFileStep {
    client().read_file(REFERENCE, Some("acct"), None, Some("/var/tmp"), event)
}

fn exited(success: bool, stdout: &[u8], stderr: &[u8]) -> OpOutcome {
    OpOutcome::Exited { success, stdout: stdout.to_vec(), stderr: stderr.to_vec() }
}

fn assert_command(command: &OpCommand, args: &[&str]) {
    assert_eq!(command.program, "/usr/bin/op");
    assert_eq!(command.args, args);
    assert_eq!(command.timeout_seconds, 7);
}

#[test]
fn cache_key_without_account() {
    let key = Client::cache_key("op://vault/item/field", None);
    let expected = blake3::hash(b"op://vault/item/field").to_hex().to_string();
    assert_eq!(key, expected);
}

#[test]
fn cache_key_with_account() {
    let key = Client::cache_key("op://vault/item/field", Some("my.1password.com"));
    let expected = blake3::hash(b"my.1password.com\0op://vault/item/field")
        .to_hex()
        .to_string();
    assert_eq!(key, expected);
}

#[test]
fn cache_key_different_accounts_differ() {
    let key_a = Client::cache_key("op://vault/item/field", Some("a.1password.com"));
    let key_b = Client::cache_key("op://vault/item/field", Some("b.1password.com"));
    assert_ne!(key_a, key_b);
}

#[test]
fn cache_key_account_vs_none_differ() {
    let with = Client::cache_key("op://vault/item/field", Some("my.1password.com"));
    let without = Client::cache_key("op://vault/item/field", None);
    assert_ne!(with, without);
}

#[test]
fn effective_account_explicit_wins() {
    let result =
        Client::effective_account(Some("explicit.1password.com"), Some("env.1password.com"));
    assert_eq!(result.as_deref(), Some("explicit.1password.com"));
}

#[test]
fn effective_account_falls_back_to_env() {
    let result = Client::effective_account(None, Some("env.1password.com"));
    assert_eq!(result.as_deref(), Some("env.1password.com"));
}

#[test]
fn effective_account_none_when_unset() {
    let result = Client::effective_account(None, None);
    assert_eq!(result, None);
}

#[test]
fn effective_account_ignores_empty_env() {
    let result = Client::effective_account(None, Some(""));
    assert_eq!(result, None);
}

#[test]
fn effective_account_keeps_an_empty_explicit_account() {
    assert_eq!(Client::effective_account(Some(""), Some("env")).as_deref(), Some(""));
}

#[test]
fn cache_key_of_the_empty_reference_is_the_digest_of_nothing() {
    assert_eq!(
        Client::cache_key("", None),
        "af1349b9f5f9a1a6a0404dea36dcc9499bcb25c9adc112b7cc9a93cae41f3262"
    );
}

#[test]
fn cache_key_uses_the_utf8_bytes() {
    let expected = blake3::hash("ä\0op://ö/€".as_bytes()).to_hex().to_string();
    assert_eq!(Client::cache_key("op://ö/€", Some("ä")), expected);
}

#[test]
fn cache_keys_coincide_where_a_reference_holds_nul() {
    assert_eq!(
        Client::cache_key("op://c", Some("a\0op://x")),
        Client::cache_key("op://x\0op://c", Some("a"))
    );
}

#[test]
fn digest_text_is_lowercase_hexadecimal() {
    let mut digest: [u8; 32] = [0; 32];
    digest[0] = 0xaf;
    digest[1] = 0x09;
    digest[31] = 0xf0;
    let mut expected = "af09".to_string();
    expected.push_str(&"00".repeat(29));
    expected.push_str("f0");
    assert_eq!(digest_text(digest), expected);
}

#[test]
fn op_read_command_names_the_reference() {
    assert_command(&client().op_read_command(REFERENCE, None), &["read", REFERENCE]);
}

#[test]
fn op_read_command_names_the_account() {
    assert_command(
        &client().op_read_command(REFERENCE, Some("acct")),
        &["read", REFERENCE, "--account", "acct"],
    );
}

#[test]
fn op_output_is_trimmed_at_its_end() {
    let result = client().execute_op_read(REFERENCE, exited(true, b"  s3cret \r\n\n", b"noise"));
    assert_eq!(result.unwrap(), "  s3cret");
}

#[test]
fn op_output_may_be_ill_formed() {
    let result = client().execute_op_read(REFERENCE, exited(true, b"a\xffb\n", b""));
    assert_eq!(result.unwrap(), "a\u{fffd}b");
}

#[test]
fn op_output_keeps_characters_beyond_ascii() {
    let result = client().execute_op_read(REFERENCE, exited(true, "ключ€\n".as_bytes(), b""));
    assert_eq!(result.unwrap(), "ключ€");
}

#[test]
fn op_failure_reports_trimmed_standard_error() {
    let result =
        client().execute_op_read(REFERENCE, exited(false, b"s3cret", b"\n [ERROR] no item \n"));
    assert!(matches!(result, Err(Error::OpFailed(text)) if text == "[ERROR] no item"));
}

#[test]
fn op_timeout_is_reported_with_its_limit() {
    let result = client().execute_op_read(REFERENCE, OpOutcome::TimedOut);
    let expected = "op read timed out after 7s for op://vault/item/field";
    assert!(matches!(result, Err(Error::OpFailed(text)) if text == expected));
}

#[test]
fn op_that_cannot_be_run_is_reported() {
    let result = client().execute_op_read(REFERENCE, OpOutcome::NotRun("not found".to_string()));
    let expected = "failed to execute op: not found";
    assert!(matches!(result, Err(Error::OpFailed(text)) if text == expected));
}

#[test]
fn white_space_is_what_has_the_unicode_property() {
    for code in 0..=0x10ffffu32 {
        if let Some(c) = char::from_u32(code) {
            let white = matches!(
                code,
                0x9..=0xd
                    | 0x20
                    | 0x85
                    | 0xa0
                    | 0x1680
                    | 0x2000..=0x200a
                    | 0x2028
                    | 0x2029
                    | 0x202f
                    | 0x205f
                    | 0x3000
            );
            let padded = format!("{c}x{c}");
            let value = Client::op_read_output(true, &padded).unwrap();
            let text = match Client::op_read_output(false, &padded) {
                Err(Error::OpFailed(text)) => text,
                other => panic!("unexpected {other:?}"),
            };
            if white {
                assert_eq!(value, format!("{c}x"));
                assert_eq!(text, "x");
            } else {
                assert_eq!(value, padded);
                assert_eq!(text, padded);
            }
        }
    }
}

#[test]
fn read_starts_the_daemon_first() {
    assert!(matches!(read(ReadEvent::Started), ReadStep::EnsureDaemon));
}

#[test]
fn read_asks_the_daemon_under_the_cache_key() {
    let expected = Client::cache_key(REFERENCE, None);
    match read(ReadEvent::Daemon(Ok(()))) {
        ReadStep::Send(Request::Get { key }) => assert_eq!(key, expected),
        other => panic!("unexpected {other:?}"),
    }
}

#[test]
fn read_uses_the_ambient_account() {
    let expected = Client::cache_key(REFERENCE, Some("env"));
    match client().read(REFERENCE, None, Some("env"), ReadEvent::Daemon(Ok(()))) {
        ReadStep::Send(Request::Get { key }) => assert_eq!(key, expected),
        other => panic!("unexpected {other:?}"),
    }
    match client().read(REFERENCE, None, Some("env"), ReadEvent::Reply(Ok(Response::Miss))) {
        ReadStep::Execute(command) => {
            assert_command(&command, &["read", REFERENCE, "--account", "env"])
        }
        other => panic!("unexpected {other:?}"),
    }
}

#[test]
fn read_fails_where_the_daemon_cannot_be_started() {
    match read(ReadEvent::Daemon(Err(Error::Internal("no daemon".to_string())))) {
        ReadStep::Finish(Err(Error::Internal(text))) => assert_eq!(text, "no daemon"),
        other => panic!("unexpected {other:?}"),
    }
}

#[test]
fn read_returns_a_hit() {
    match read(ReadEvent::Reply(Ok(Response::Hit { value: "s3cret".to_string() }))) {
        ReadStep::Finish(Ok(value)) => assert_eq!(value, "s3cret"),
        other => panic!("unexpected {other:?}"),
    }
}

#[test]
fn read_runs_the_command_on_a_miss() {
    match read(ReadEvent::Reply(Ok(Response::Miss))) {
        ReadStep::Execute(command) => assert_command(&command, &["read", REFERENCE]),
        other => panic!("unexpected {other:?}"),
    }
}

#[test]
fn read_refuses_an_answer_out_of_turn() {
    match read(ReadEvent::Reply(Ok(Response::Pong))) {
        ReadStep::Finish(Err(Error::Protocol(text))) => assert_eq!(text, "unexpected response"),
        other => panic!("unexpected {other:?}"),
    }
}

#[test]
fn read_passes_on_a_failed_request() {
    match read(ReadEvent::Reply(Err(Error::ConnectionFailed("refused".to_string())))) {
        ReadStep::Finish(Err(Error::ConnectionFailed(text))) => assert_eq!(text, "refused"),
        other => panic!("unexpected {other:?}"),
    }
}

#[test]
fn read_stores_what_it_fetched() {
    match read(ReadEvent::Fetched(exited(true, b"s3cret\n", b""))) {
        ReadStep::Store { request: Request::Put { key, value: stored }, value } => {
            assert_eq!(key, Client::cache_key(REFERENCE, None));
            assert_eq!(stored, "s3cret");
            assert_eq!(value, "s3cret");
        }
        other => panic!("unexpected {other:?}"),
    }
}

#[test]
fn read_fails_with_the_command() {
    match read(ReadEvent::Fetched(exited(false, b"", b"locked\n"))) {
        ReadStep::Finish(Err(Error::OpFailed(text))) => assert_eq!(text, "locked"),
        other => panic!("unexpected {other:?}"),
    }
}

#[test]
fn read_does_not_depend_on_storing() {
    for reply in [Ok(Response::Stored), Ok(Response::Pong), Err(Error::Io("gone".to_string()))] {
        match read(ReadEvent::Stored { value: "s3cret".to_string(), reply }) {
            ReadStep::Finish(Ok(value)) => assert_eq!(value, "s3cret"),
            other => panic!("unexpected {other:?}"),
        }
    }
}

#[test]
fn only_references_are_read() {
    let expected = "reference must start with 'op://': op:/x";
    for event in [ReadEvent::Started, ReadEvent::Reply(Ok(Response::Miss))] {
        match client().read("op:/x", None, None, event) {
            ReadStep::Finish(Err(Error::InvalidReference(text))) => assert_eq!(text, expected),
            other => panic!("unexpected {other:?}"),
        }
    }
    match client().read_file("op:/x", None, None, None, ReadFileEvent::Started) {
        ReadFileStep::Finish(Err(Error::InvalidReference(text))) => assert_eq!(text, expected),
        other => panic!("unexpected {other:?}"),
    }
}

#[test]
fn read_file_starts_the_daemon_and_asks_for_the_file() {
    assert!(matches!(read_file(ReadFileEvent::Started), ReadFileStep::EnsureDaemon));
    match read_file(ReadFileEvent::Daemon(Ok(()))) {
        ReadFileStep::Send(Request::GetFile { key }) => {
            assert_eq!(key, Client::cache_key(REFERENCE, Some("acct")))
        }
        other => panic!("unexpected {other:?}"),
    }
    match read_file(ReadFileEvent::Daemon(Err(Error::Internal("no daemon".to_string())))) {
        ReadFileStep::Finish(Err(Error::Internal(text))) => assert_eq!(text, "no daemon"),
        other => panic!("unexpected {other:?}"),
    }
}

#[test]
fn read_file_returns_the_path_of_a_hit() {
    match read_file(ReadFileEvent::Reply(Ok(Response::FileHit { path: "/t/f".to_string() }))) {
        ReadFileStep::Finish(Ok(path)) => assert_eq!(path, "/t/f"),
        other => panic!("unexpected {other:?}"),
    }
}

#[test]
fn read_file_takes_no_value_for_a_path() {
    match read_file(ReadFileEvent::Reply(Ok(Response::Hit { value: "/t/f".to_string() }))) {
        ReadFileStep::Finish(Err(Error::Protocol(text))) => assert_eq!(text, "unexpected response"),
        other => panic!("unexpected {other:?}"),
    }
    match read_file(ReadFileEvent::Reply(Err(Error::Io("broken".to_string())))) {
        ReadFileStep::Finish(Err(Error::Io(text))) => assert_eq!(text, "broken"),
        other => panic!("unexpected {other:?}"),
    }
}

#[test]
fn read_file_runs_the_command_on_a_miss() {
    match read_file(ReadFileEvent::Reply(Ok(Response::Miss))) {
        ReadFileStep::Execute(command) => {
            assert_command(&command, &["read", REFERENCE, "--account", "acct"])
        }
        other => panic!("unexpected {other:?}"),
    }
}

#[test]
fn read_file_saves_the_content() {
    let key = Client::cache_key(REFERENCE, Some("acct"));
    match read_file(ReadFileEvent::Fetched(exited(true, b"apiVersion: v1\n", b""))) {
        ReadFileStep::Save(file) => {
            assert_eq!(file.dir, "/var/tmp/op-cache-fs");
            assert_eq!(file.prefix, "op-cache-");
            assert_eq!(file.suffix, format!("-{}", &key[..8]));
            assert_eq!(file.content, "apiVersion: v1");
        }
        other => panic!("unexpected {other:?}"),
    }
    match read_file(ReadFileEvent::Fetched(OpOutcome::TimedOut)) {
        ReadFileStep::Finish(Err(Error::OpFailed(text))) => {
            assert_eq!(text, "op read timed out after 7s for op://vault/item/field")
        }
        other => panic!("unexpected {other:?}"),
    }
}

#[test]
fn read_file_stores_the_path() {
    match read_file(ReadFileEvent::Saved(Ok("/t/f".to_string()))) {
        ReadFileStep::Store { request: Request::SetFile { key, path: stored }, path } => {
            assert_eq!(key, Client::cache_key(REFERENCE, Some("acct")));
            assert_eq!(stored, "/t/f");
            assert_eq!(path, "/t/f");
        }
        other => panic!("unexpected {other:?}"),
    }
    let reply = Err(Error::Io("gone".to_string()));
    match read_file(ReadFileEvent::Stored { path: "/t/f".to_string(), reply }) {
        ReadFileStep::Finish(Ok(path)) => assert_eq!(path, "/t/f"),
        other => panic!("unexpected {other:?}"),
    }
}

#[test]
fn read_file_reports_why_it_could_not_save() {
    let cases = [
        (SaveFailure::NoDirectory("x".to_string()), "failed to create temp dir: x"),
        (SaveFailure::NoFile("y".to_string()), "failed to create temp file: y"),
        (SaveFailure::NotWritten("z".to_string()), "failed to write temp file: z"),
    ];
    for (failure, expected) in cases {
        match read_file(ReadFileEvent::Saved(Err(failure))) {
            ReadFileStep::Finish(Err(Error::Internal(text))) => assert_eq!(text, expected),
            other => panic!("unexpected {other:?}"),
        }
    }
}

#[test]
fn stats_are_asked_for_and_returned() {
    let client = client();
    assert!(matches!(client.stats(CommandEvent::Started), CommandStep::EnsureDaemon));
    assert!(matches!(
        client.stats(CommandEvent::Daemon(Ok(()))),
        CommandStep::Send(Request::GetStats)
    ));
    assert!(matches!(
        client.stats(CommandEvent::Daemon(Err(Error::Internal("x".to_string())))),
        CommandStep::Finish(Err(Error::Internal(_)))
    ));
    let stats = CacheStats { entries: 1, hits: 2, misses: 3 };
    match client.stats(CommandEvent::Reply(Ok(Response::Stats(stats)))) {
        CommandStep::Finish(Ok(found)) => assert_eq!(found, stats),
        other => panic!("unexpected {other:?}"),
    }
    assert!(matches!(
        client.stats(CommandEvent::Reply(Ok(Response::Pong))),
        CommandStep::Finish(Err(Error::Protocol(_)))
    ));
}

#[test]
fn clear_is_asked_for_and_confirmed() {
    let client = client();
    assert!(matches!(client.clear(CommandEvent::Started), CommandStep::EnsureDaemon));
    assert!(matches!(
        client.clear(CommandEvent::Daemon(Ok(()))),
        CommandStep::Send(Request::ClearCache)
    ));
    assert!(matches!(
        client.clear(CommandEvent::Reply(Ok(Response::CacheCleared))),
        CommandStep::Finish(Ok(()))
    ));
    assert!(matches!(
        client.clear(CommandEvent::Reply(Ok(Response::ShuttingDown))),
        CommandStep::Finish(Err(Error::Protocol(_)))
    ));
    assert!(matches!(
        client.clear(CommandEvent::Reply(Err(Error::Io("x".to_string())))),
        CommandStep::Finish(Err(Error::Io(_)))
    ));
}

#[test]
fn stop_does_not_start_the_daemon() {
    let client = client();
    assert!(matches!(client.stop(CommandEvent::Started), CommandStep::Send(Request::Shutdown)));
    assert!(matches!(
        client.stop(CommandEvent::Reply(Ok(Response::ShuttingDown))),
        CommandStep::Finish(Ok(()))
    ));
    assert!(matches!(
        client.stop(CommandEvent::Reply(Ok(Response::CacheCleared))),
        CommandStep::Finish(Err(Error::Protocol(_)))
    ));
    assert!(matches!(
        client.stop(CommandEvent::Reply(Err(Error::ConnectionFailed("x".to_string())))),
        CommandStep::Finish(Err(Error::ConnectionFailed(_)))
    ));
}
