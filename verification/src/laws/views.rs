//! What views show: everything that the value holds, as it is.

use crate::client::{args_view, result_view};
use crate::config::{Config, ConfigView};
use crate::daemon::cache::{found_file, ReleasedFile};
use crate::daemon::server::{
    actions_view, ServerAction, ServerActionView, ServerEvent, ServerEventView,
};
use crate::error::{Error, ErrorView};
use crate::protocol::{CacheStats, Request, RequestView, Response, ResponseView};
use crate::run::{env_view, outcomes_view, refs_view, secrets_of, ReadOutcome};
use crate::text::{owned_text_of, text_of};
use vstd::prelude::*;

verus! {

/// An optional text shows its characters, be they none, and differs from no text.
pub proof fn law_optional_text_shows_its_characters(borrowed: &str, owned: String)
    ensures
        text_of(Some(borrowed)) == Some(borrowed@),
        text_of(None) is None,
        owned_text_of(Some(owned)) == Some(owned@),
        owned_text_of(None) is None,
{
}

/// Settings show every field.
pub proof fn law_settings_show_every_field(config: Config)
    ensures
        config@.socket_path == config.socket_path@,
        config@.ttl_seconds == config.ttl_seconds,
        config@.max_entries == config.max_entries,
        config@.op_path == config.op_path@,
        config@.op_timeout_seconds == config.op_timeout_seconds,
{
}

/// A failure shows which one it is, and its text.
pub proof fn law_failure_shows_its_text(text: String)
    ensures
        Error::ConnectionFailed(text)@ == ErrorView::ConnectionFailed(text@),
        Error::Io(text)@ == ErrorView::Io(text@),
        Error::InvalidReference(text)@ == ErrorView::InvalidReference(text@),
        Error::OpFailed(text)@ == ErrorView::OpFailed(text@),
        Error::Protocol(text)@ == ErrorView::Protocol(text@),
        Error::Internal(text)@ == ErrorView::Internal(text@),
{
}

/// A request shows which one it is, and its key and content.
pub proof fn law_request_shows_its_parts(key: String, content: String)
    ensures
        (Request::Get { key })@ == (RequestView::Get { key: key@ }),
        (Request::Put { key, value: content })@ == (RequestView::Put { key: key@, value: content@ }),
        (Request::GetFile { key })@ == (RequestView::GetFile { key: key@ }),
        (Request::SetFile { key, path: content })@ == (RequestView::SetFile {
            key: key@,
            path: content@,
        }),
        Request::Ping@ is Ping,
        Request::ClearCache@ is ClearCache,
        Request::GetStats@ is GetStats,
        Request::Shutdown@ is Shutdown,
{
}

/// A response shows which one it is, and its content.
pub proof fn law_response_shows_its_parts(content: String, stats: CacheStats)
    ensures
        (Response::Hit { value: content })@ == (ResponseView::Hit { value: content@ }),
        Response::Miss@ is Miss,
        Response::Stored@ is Stored,
        (Response::FileHit { path: content })@ == (ResponseView::FileHit { path: content@ }),
        Response::FileStored@ is FileStored,
        Response::Pong@ is Pong,
        Response::CacheCleared@ is CacheCleared,
        Response::Stats(stats)@ == ResponseView::Stats(stats),
        Response::ShuttingDown@ is ShuttingDown,
{
}

/// The result of an operation shows its text or its failure.
pub proof fn law_result_shows_its_text_or_failure(text: String, failure: Error)
    ensures
        result_view(Ok(text)) == Ok::<Seq<char>, ErrorView>(text@),
        result_view(Err(failure)) == Err::<Seq<char>, ErrorView>(failure@),
{
}

/// What happens to the daemon shows which event it is, and the reason where there is one.
pub proof fn law_daemon_event_shows_its_parts(reason: String, stopping: bool)
    ensures
        ServerEvent::Started@ is Started,
        ServerEvent::Bound(Ok(()))@ == ServerEventView::Bound(Ok(())),
        ServerEvent::Bound(Err(reason))@ == ServerEventView::Bound(Err(reason@)),
        ServerEvent::Secured(Ok(()))@ == ServerEventView::Secured(Ok(())),
        ServerEvent::Secured(Err(reason))@ == ServerEventView::Secured(Err(reason@)),
        ServerEvent::Accepted@ is Accepted,
        ServerEvent::AcceptFailed@ is AcceptFailed,
        ServerEvent::ShutdownChanged(stopping)@ == ServerEventView::ShutdownChanged(stopping),
        ServerEvent::Interrupted@ is Interrupted,
{
}

/// What the daemon is to do shows which action it is, and every part of it, and a list of actions
/// shows each of them in its place.
pub proof fn law_daemon_action_shows_its_parts(
    path: String,
    bits: u32,
    failure: Error,
    actions: Seq<ServerAction>,
    i: int,
)
    ensures
        ServerAction::RemoveFile(path)@ == ServerActionView::RemoveFile(path@),
        (ServerAction::Bind { path, umask: bits })@ == (ServerActionView::Bind {
            path: path@,
            umask: bits,
        }),
        (ServerAction::SetMode { path, mode: bits })@ == (ServerActionView::SetMode {
            path: path@,
            mode: bits,
        }),
        ServerAction::Serve@ is Serve,
        ServerAction::Listen@ is Listen,
        ServerAction::SignalShutdown@ is SignalShutdown,
        ServerAction::Exit(Ok(()))@ == ServerActionView::Exit(Ok(())),
        ServerAction::Exit(Err(failure))@ == ServerActionView::Exit(Err(failure@)),
        actions_view(actions).len() == actions.len(),
        0 <= i < actions.len() ==> actions_view(actions)[i] == actions[i]@,
{
}

/// A looked up file shows its path and its users, and what is left of a reference its users and the
/// file to delete.
pub proof fn law_file_shows_path_and_users(path: String, users: u64)
    ensures
        found_file(Some((path, users))) == Some((path@, users)),
        found_file(None) is None,
        (ReleasedFile { users, stale_path: Some(path) }).parts() == (users, Some(path@)),
        (ReleasedFile { users, stale_path: None }).parts() == (users, None::<Seq<char>>),
{
}

/// Lists show each of their members in its place, as it is: arguments, variables, references and
/// outcomes of reading.
pub proof fn law_lists_show_each_member(
    args: Seq<String>,
    env: Seq<(String, String)>,
    refs: Seq<&str>,
    outcomes: Seq<ReadOutcome>,
    i: int,
)
    ensures
        args_view(args).len() == args.len(),
        0 <= i < args.len() ==> args_view(args)[i] == args[i]@,
        env_view(env).len() == env.len(),
        0 <= i < env.len() ==> env_view(env)[i] == (env[i].0@, env[i].1@),
        refs_view(refs).len() == refs.len(),
        0 <= i < refs.len() ==> refs_view(refs)[i] == refs[i]@,
        outcomes_view(outcomes).len() == outcomes.len(),
        0 <= i < outcomes.len() ==> outcomes_view(outcomes)[i].0 == outcomes[i].0@,
        0 <= i < outcomes.len() ==> (outcomes[i].1 matches Ok(secret) ==> outcomes_view(
            outcomes,
        )[i].1 == Ok::<Seq<char>, Seq<char>>(secret@)),
        0 <= i < outcomes.len() ==> (outcomes[i].1 matches Err(reason) ==> outcomes_view(
            outcomes,
        )[i].1 == Err::<Seq<char>, Seq<char>>(reason@)),
{
}

/// Resolved secrets show each secret under its reference, as it is, and no others.
pub proof fn law_resolved_secrets_show_each_secret(
    resolved: Map<Seq<char>, String>,
    reference: Seq<char>,
)
    ensures
        secrets_of(resolved).contains_key(reference) <==> resolved.contains_key(reference),
        resolved.contains_key(reference) ==> secrets_of(resolved)[reference]
            == resolved[reference]@,
{
}

} // verus!
