//! What the daemon does: how it answers a request, serves a connection, and starts and stops.
//!
//! The functions here decide; sockets, files and signals are the caller's. A caller reports each
//! event and carries out the actions that it gets back.

use crate::config::{Config, ConfigView};
use crate::daemon::cache::{Cache, CacheView};
use crate::daemon::store::MAX_TTL_SECONDS;
use crate::error::{Error, ErrorView};
use crate::path::with_extension_of;
use crate::protocol::{Request, RequestView, Response, ResponseView};
use crate::text::concat;
use vstd::prelude::*;

verus! {

/// The permissions that a new socket is created without.
pub const SOCKET_UMASK: u32 = 0o177;

/// The permissions of the socket: its owner may read and write, nobody else.
pub const SOCKET_MODE: u32 = 0o600;

/// Answering `request` with `response` takes the cache from `pre` to `post`.
pub open spec fn answered(
    pre: CacheView,
    request: RequestView,
    response: ResponseView,
    post: CacheView,
) -> bool {
    match request {
        RequestView::Get { key } => match response {
            ResponseView::Hit { value } => pre.value_read(key, Some(value), post),
            ResponseView::Miss => pre.value_read(key, None, post),
            _ => false,
        },
        RequestView::Put { key, value } => {
            &&& response is Stored
            &&& post == pre.value_written(key, value).with_value_count_of(post)
        },
        RequestView::GetFile { key } => match response {
            ResponseView::FileHit { path } => pre.file_read(
                key,
                Some((path, pre.files[key].1)),
                post,
            ),
            ResponseView::Miss => pre.file_read(key, None, post),
            _ => false,
        },
        RequestView::SetFile { key, path } => {
            &&& response is FileStored
            &&& post == pre.file_written(key, path, 1).with_file_count_of(post)
        },
        RequestView::Ping => response is Pong && post == pre,
        RequestView::ClearCache => {
            &&& response is CacheCleared
            &&& post == pre.cleared().with_value_count_of(post)
        },
        RequestView::GetStats => {
            &&& response matches ResponseView::Stats(stats)
            &&& stats.entries == pre.entry_count()
            &&& stats.hits == pre.hits
            &&& stats.misses == pre.misses
            &&& post == pre
        },
        RequestView::Shutdown => response is ShuttingDown && post == pre,
    }
}

/// The answer to a lookup of a value that gave `found`.
pub fn answer_value(found: Option<String>) -> (response: Response)
    ensures
        response@ == match found {
            Some(value) => ResponseView::Hit { value: value@ },
            None => ResponseView::Miss,
        },
{
    match found {
        Some(value) => Response::Hit { value },
        None => Response::Miss,
    }
}

/// The answer to a lookup of a file that gave `found`.
pub fn answer_file(found: Option<(String, u64)>) -> (response: Response)
    ensures
        response@ == match found {
            Some(file) => ResponseView::FileHit { path: file.0@ },
            None => ResponseView::Miss,
        },
{
    match found {
        Some((path, _)) => Response::FileHit { path },
        None => Response::Miss,
    }
}

/// Answers a request out of the cache.
pub fn handle_request(request: &Request, cache: &mut Cache) -> (response: Response)
    ensures
        answered(old(cache)@, request@, response@, final(cache)@),
{
    match request {
        Request::Get { key } => {
            let found = cache.get(key.as_str());
            answer_value(found)
        },
        Request::Put { key, value } => {
            cache.insert(key.as_str(), value.clone());
            Response::Stored
        },
        Request::GetFile { key } => {
            let found = cache.get_file(key.as_str());
            answer_file(found)
        },
        Request::SetFile { key, path } => {
            cache.insert_file(key.as_str(), path.clone());
            Response::FileStored
        },
        Request::Ping => Response::Pong,
        Request::ClearCache => {
            cache.clear();
            Response::CacheCleared
        },
        Request::GetStats => Response::Stats(cache.stats()),
        Request::Shutdown => Response::ShuttingDown,
    }
}

/// What happens to a connection.
#[derive(Debug)]
pub enum ConnectionEvent {
    /// The client sent a request.
    Received(Request),
    /// The client closed the connection.
    EndOfStream,
    /// The client's message could not be read, for the reason given.
    ReadFailed(String),
    /// A response was written, or could not be. `is_shutdown` is as it was in the action.
    Responded { is_shutdown: bool, outcome: Result<(), Error> },
    /// The daemon's shutdown flag was set to this value.
    ShutdownChanged(bool),
}

/// What to do for a connection.
#[derive(Debug)]
pub enum ConnectionAction {
    /// Wait for the next event.
    Wait,
    /// Write this response. `is_shutdown` tells whether it answers a request to shut down.
    Respond { response: Response, is_shutdown: bool },
    /// Set the daemon's shutdown flag and close the connection.
    SignalShutdown,
    /// Close the connection.
    Close,
    /// Close the connection because of this failure.
    Fail(Error),
}

/// `action` is what `event` calls for, and it takes the cache from `pre` to `post`.
pub open spec fn connection_handled(
    pre: CacheView,
    event: ConnectionEvent,
    action: ConnectionAction,
    post: CacheView,
) -> bool {
    match event {
        ConnectionEvent::Received(request) => {
            &&& action matches ConnectionAction::Respond { response, is_shutdown }
            &&& is_shutdown == (request is Shutdown)
            &&& answered(pre, request@, response@, post)
        },
        ConnectionEvent::EndOfStream => action is Close && post == pre,
        ConnectionEvent::ReadFailed(reason) => {
            &&& action matches ConnectionAction::Fail(e)
            &&& e@ == ErrorView::Protocol(reason@)
            &&& post == pre
        },
        ConnectionEvent::Responded { is_shutdown, outcome } => {
            &&& post == pre
            &&& match outcome {
                Err(e) => action == ConnectionAction::Fail(e),
                Ok(()) => if is_shutdown {
                    action is SignalShutdown
                } else {
                    action is Wait
                },
            }
        },
        ConnectionEvent::ShutdownChanged(stopping) => {
            &&& post == pre
            &&& if stopping {
                action is Close
            } else {
                action is Wait
            }
        },
    }
}

/// The action that an event on a connection calls for.
pub fn handle_connection(event: ConnectionEvent, cache: &mut Cache) -> (action: ConnectionAction)
    ensures
        connection_handled(old(cache)@, event, action, final(cache)@),
{
    match event {
        ConnectionEvent::Received(request) => {
            let response = handle_request(&request, cache);
            let is_shutdown = matches!(request, Request::Shutdown);
            ConnectionAction::Respond { response, is_shutdown }
        },
        ConnectionEvent::EndOfStream => ConnectionAction::Close,
        ConnectionEvent::ReadFailed(reason) => ConnectionAction::Fail(Error::Protocol(reason)),
        ConnectionEvent::Responded { is_shutdown, outcome } => match outcome {
            Err(e) => ConnectionAction::Fail(e),
            Ok(()) => if is_shutdown {
                ConnectionAction::SignalShutdown
            } else {
                ConnectionAction::Wait
            },
        },
        ConnectionEvent::ShutdownChanged(stopping) => if stopping {
            ConnectionAction::Close
        } else {
            ConnectionAction::Wait
        },
    }
}

/// What happens to the daemon.
#[derive(Debug)]
pub enum ServerEvent {
    /// The daemon was started.
    Started,
    /// The socket was bound, or could not be, for the reason given.
    Bound(Result<(), String>),
    /// The permissions of the socket were set, or could not be, for the reason given.
    Secured(Result<(), String>),
    /// A client connected.
    Accepted,
    /// A client could not be accepted.
    AcceptFailed,
    /// The shutdown flag was set to this value.
    ShutdownChanged(bool),
    /// The user interrupted the daemon.
    Interrupted,
}

/// What the daemon is to do.
#[derive(Debug)]
pub enum ServerAction {
    /// Remove this file. It does not matter whether that succeeds.
    RemoveFile(String),
    /// Bind the socket while the process creates files without the permissions in `umask`.
    Bind { path: String, umask: u32 },
    /// Set the permissions of this file.
    SetMode { path: String, mode: u32 },
    /// Serve the client that connected, next to the others.
    Serve,
    /// Wait for the next event.
    Listen,
    /// Set the shutdown flag, which ends the connections.
    SignalShutdown,
    /// End with this outcome.
    Exit(Result<(), Error>),
}

/// What a `ServerEvent` says.
pub enum ServerEventView {
    Started,
    Bound(Result<(), Seq<char>>),
    Secured(Result<(), Seq<char>>),
    Accepted,
    AcceptFailed,
    ShutdownChanged(bool),
    Interrupted,
}

impl View for ServerEvent {
    type V = ServerEventView;

    open spec fn view(&self) -> ServerEventView {
        match self {
            ServerEvent::Started => ServerEventView::Started,
            ServerEvent::Bound(Ok(())) => ServerEventView::Bound(Ok(())),
            ServerEvent::Bound(Err(reason)) => ServerEventView::Bound(Err(reason@)),
            ServerEvent::Secured(Ok(())) => ServerEventView::Secured(Ok(())),
            ServerEvent::Secured(Err(reason)) => ServerEventView::Secured(Err(reason@)),
            ServerEvent::Accepted => ServerEventView::Accepted,
            ServerEvent::AcceptFailed => ServerEventView::AcceptFailed,
            ServerEvent::ShutdownChanged(stopping) => ServerEventView::ShutdownChanged(*stopping),
            ServerEvent::Interrupted => ServerEventView::Interrupted,
        }
    }
}

/// What a `ServerAction` says.
pub enum ServerActionView {
    RemoveFile(Seq<char>),
    Bind { path: Seq<char>, umask: u32 },
    SetMode { path: Seq<char>, mode: u32 },
    Serve,
    Listen,
    SignalShutdown,
    Exit(Result<(), ErrorView>),
}

impl View for ServerAction {
    type V = ServerActionView;

    open spec fn view(&self) -> ServerActionView {
        match self {
            ServerAction::RemoveFile(path) => ServerActionView::RemoveFile(path@),
            ServerAction::Bind { path, umask } => ServerActionView::Bind {
                path: path@,
                umask: *umask,
            },
            ServerAction::SetMode { path, mode } => ServerActionView::SetMode {
                path: path@,
                mode: *mode,
            },
            ServerAction::Serve => ServerActionView::Serve,
            ServerAction::Listen => ServerActionView::Listen,
            ServerAction::SignalShutdown => ServerActionView::SignalShutdown,
            ServerAction::Exit(Ok(())) => ServerActionView::Exit(Ok(())),
            ServerAction::Exit(Err(e)) => ServerActionView::Exit(Err(e@)),
        }
    }
}

/// What a list of actions says.
pub open spec fn actions_view(actions: Seq<ServerAction>) -> Seq<ServerActionView> {
    actions.map_values(|action: ServerAction| action@)
}

/// The end of every orderly stop: the socket and the file with the process id are removed.
pub open spec fn stop_actions(config: ConfigView) -> Seq<ServerActionView> {
    seq![
        ServerActionView::RemoveFile(config.socket_path),
        ServerActionView::RemoveFile(with_extension_of(config.socket_path, "pid"@)),
        ServerActionView::Exit(Ok(())),
    ]
}

/// The actions that `event` calls for.
pub open spec fn server_actions(config: ConfigView, event: ServerEventView) -> Seq<
    ServerActionView,
> {
    match event {
        ServerEventView::Started => seq![
            ServerActionView::RemoveFile(config.socket_path),
            ServerActionView::Bind { path: config.socket_path, umask: SOCKET_UMASK },
        ],
        ServerEventView::Bound(Ok(())) => seq![
            ServerActionView::SetMode { path: config.socket_path, mode: SOCKET_MODE },
        ],
        ServerEventView::Bound(Err(reason)) => seq![
            ServerActionView::Exit(
                Err(ErrorView::Internal("failed to bind socket: "@ + reason)),
            ),
        ],
        ServerEventView::Secured(Ok(())) => seq![ServerActionView::Listen],
        ServerEventView::Secured(Err(reason)) => seq![
            ServerActionView::RemoveFile(config.socket_path),
            ServerActionView::Exit(
                Err(ErrorView::Internal("failed to set socket permissions: "@ + reason)),
            ),
        ],
        ServerEventView::Accepted => seq![ServerActionView::Serve, ServerActionView::Listen],
        ServerEventView::AcceptFailed => seq![ServerActionView::Listen],
        ServerEventView::ShutdownChanged(stopping) => if stopping {
            stop_actions(config)
        } else {
            seq![ServerActionView::Listen]
        },
        ServerEventView::Interrupted => seq![ServerActionView::SignalShutdown] + stop_actions(
            config,
        ),
    }
}

/// The daemon: its settings and its cache.
pub struct Server {
    pub config: Config,
    pub cache: Cache,
}

impl Server {
    /// A daemon with these settings and an empty cache. Twice the time to live may not exceed
    /// 1000 years.
    pub fn new(config: Config) -> (server: Server)
        requires
            2 * config@.ttl_seconds <= MAX_TTL_SECONDS,
        ensures
            server.config == config,
            server.cache@ == CacheView::empty(config@.max_entries, config@.ttl_seconds),
            server.cache@.value_limits == (config@.max_entries, config@.ttl_seconds),
            server.cache@.file_limits.0 == config@.max_entries,
            server.cache@.file_limits.1 == 2 * config@.ttl_seconds,
    {
        let cache = Cache::new(config.max_entries, config.ttl_seconds);
        Server { config, cache }
    }

    /// Appends the end of every orderly stop to `actions`.
    fn push_stop(&self, actions: &mut Vec<ServerAction>)
        ensures
            actions_view(final(actions)@) == actions_view(old(actions)@) + stop_actions(
                self.config@,
            ),
    {
        let ghost before = actions@;
        actions.push(ServerAction::RemoveFile(self.config.socket_path.clone()));
        actions.push(ServerAction::RemoveFile(self.config.pid_path()));
        actions.push(ServerAction::Exit(Ok(())));
        assert(actions_view(actions@) =~= actions_view(before) + stop_actions(self.config@));
    }

    /// The actions that an event calls for, in the order in which they are to be carried out.
    pub fn run(&self, event: ServerEvent) -> (actions: Vec<ServerAction>)
        ensures
            actions_view(actions@) == server_actions(self.config@, event@),
    {
        let mut actions: Vec<ServerAction> = Vec::new();
        match event {
            ServerEvent::Started => {
                actions.push(ServerAction::RemoveFile(self.config.socket_path.clone()));
                actions.push(
                    ServerAction::Bind {
                        path: self.config.socket_path.clone(),
                        umask: SOCKET_UMASK,
                    },
                );
            },
            ServerEvent::Bound(Ok(())) => {
                actions.push(
                    ServerAction::SetMode {
                        path: self.config.socket_path.clone(),
                        mode: SOCKET_MODE,
                    },
                );
            },
            ServerEvent::Bound(Err(reason)) => {
                let text = concat("failed to bind socket: ", reason.as_str());
                actions.push(ServerAction::Exit(Err(Error::Internal(text))));
            },
            ServerEvent::Secured(Ok(())) => {
                actions.push(ServerAction::Listen);
            },
            ServerEvent::Secured(Err(reason)) => {
                let text = concat("failed to set socket permissions: ", reason.as_str());
                actions.push(ServerAction::RemoveFile(self.config.socket_path.clone()));
                actions.push(ServerAction::Exit(Err(Error::Internal(text))));
            },
            ServerEvent::Accepted => {
                actions.push(ServerAction::Serve);
                actions.push(ServerAction::Listen);
            },
            ServerEvent::AcceptFailed => {
                actions.push(ServerAction::Listen);
            },
            ServerEvent::ShutdownChanged(stopping) => {
                if stopping {
                    self.push_stop(&mut actions);
                } else {
                    actions.push(ServerAction::Listen);
                }
            },
            ServerEvent::Interrupted => {
                actions.push(ServerAction::SignalShutdown);
                self.push_stop(&mut actions);
            },
        }
        assert(actions_view(actions@) =~= server_actions(self.config@, event@));
        actions
    }
}

} // verus!
