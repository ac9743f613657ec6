//! What a client does: how it reads a secret through the daemon, and how it commands the daemon.
//!
//! The functions here decide; the connection to the daemon, the command that reads secrets and
//! the files are the caller's. A caller reports each event and carries out the step that it gets
//! back, until the step finishes the operation.

use crate::config::{fetched_file_dir, Config, ConfigView};
use crate::digest::{blake3_digest, digest, digest_text, hex_text};
use crate::error::{Error, ErrorView};
use crate::protocol::{CacheStats, Request, RequestView, Response};
use crate::text::{
    borrowed, concat, decimal, decimal_text, lossy, lossy_text, owned_text_of, starts_with, text_of,
    trim, trim_end, trimmed_end, trimmed_start,
};
use vstd::prelude::*;
use vstd::string::*;
use vstd::utf8::encode_utf8;

verus! {

/// Whether `s` refers to a secret.
pub open spec fn is_op_reference(s: Seq<char>) -> bool {
    "op://"@.is_prefix_of(s)
}

/// The account that holds: the one given explicitly, or else the ambient one, if it is not empty.
pub open spec fn effective(explicit: Option<Seq<char>>, ambient: Option<Seq<char>>) -> Option<
    Seq<char>,
> {
    match explicit {
        Some(account) => Some(account),
        None => match ambient {
            Some(account) => if account.len() > 0 {
                Some(account)
            } else {
                None
            },
            None => None,
        },
    }
}

/// The text that identifies a reference on an account.
pub open spec fn key_input(reference: Seq<char>, account: Option<Seq<char>>) -> Seq<char> {
    match account {
        Some(account) => account + seq!['\0'] + reference,
        None => reference,
    }
}

/// The key under which a reference on an account is cached: the hexadecimal BLAKE3 digest of the
/// text that identifies it.
pub open spec fn key_of(reference: Seq<char>, account: Option<Seq<char>>) -> Seq<char> {
    hex_text(blake3_digest(encode_utf8(key_input(reference, account))))
}

/// A command that reads a secret.
#[derive(Debug)]
pub struct OpCommand {
    /// The program.
    pub program: String,
    /// Its arguments.
    pub args: Vec<String>,
    /// How long it may run.
    pub timeout_seconds: u64,
}

/// What became of a command.
#[derive(Debug)]
pub enum OpOutcome {
    /// It did not end in time.
    TimedOut,
    /// It could not be run, for the reason given.
    NotRun(String),
    /// It ended.
    Exited { success: bool, stdout: Vec<u8>, stderr: Vec<u8> },
}

/// What a list of arguments says.
pub open spec fn args_view(args: Seq<String>) -> Seq<Seq<char>> {
    args.map_values(|arg: String| arg@)
}

/// The arguments of the command that reads `reference` on an account.
pub open spec fn op_args(reference: Seq<char>, account: Option<Seq<char>>) -> Seq<Seq<char>> {
    match account {
        Some(account) => seq!["read"@, reference, "--account"@, account],
        None => seq!["read"@, reference],
    }
}

/// Whether `command` reads `reference` on an account, under these settings.
pub open spec fn reads(
    command: OpCommand,
    config: ConfigView,
    reference: Seq<char>,
    account: Option<Seq<char>>,
) -> bool {
    &&& command.program@ == config.op_path
    &&& args_view(command.args@) == op_args(reference, account)
    &&& command.timeout_seconds == config.op_timeout_seconds
}

/// The secret that a command for `reference` gave, or why it gave none.
pub open spec fn op_result(
    config: ConfigView,
    reference: Seq<char>,
    outcome: OpOutcome,
) -> Result<Seq<char>, ErrorView> {
    match outcome {
        OpOutcome::TimedOut => Err(
            ErrorView::OpFailed(
                "op read timed out after "@ + decimal_text(config.op_timeout_seconds as nat)
                    + "s for "@ + reference,
            ),
        ),
        OpOutcome::NotRun(reason) => Err(
            ErrorView::OpFailed("failed to execute op: "@ + reason@),
        ),
        OpOutcome::Exited { success, stdout, stderr } => if success {
            Ok(trimmed_end(lossy_text(stdout@)))
        } else {
            Err(ErrorView::OpFailed(trimmed_start(trimmed_end(lossy_text(stderr@)))))
        },
    }
}

/// What a result of an operation says.
pub open spec fn result_view(result: Result<String, Error>) -> Result<Seq<char>, ErrorView> {
    match result {
        Ok(text) => Ok(text@),
        Err(e) => Err(e@),
    }
}

/// The failure of an operation on something that is no reference.
pub open spec fn not_a_reference(reference: Seq<char>) -> ErrorView {
    ErrorView::InvalidReference("reference must start with 'op://': "@ + reference)
}

/// The failure of an operation that the daemon answered out of turn.
pub open spec fn out_of_turn() -> ErrorView {
    ErrorView::Protocol("unexpected response"@)
}

/// What happens while a secret is read.
#[derive(Debug)]
pub enum ReadEvent {
    /// The secret was asked for.
    Started,
    /// The daemon runs, or could not be started.
    Daemon(Result<(), Error>),
    /// The daemon answered the lookup, or could not be asked.
    Reply(Result<Response, Error>),
    /// The command that reads the secret came to an end.
    Fetched(OpOutcome),
    /// The daemon was asked to cache `value`; `reply` is what it answered.
    Stored { value: String, reply: Result<Response, Error> },
}

/// What to do next to read a secret.
#[derive(Debug)]
pub enum ReadStep {
    /// Make sure that the daemon runs.
    EnsureDaemon,
    /// Send this request.
    Send(Request),
    /// Run this command.
    Execute(OpCommand),
    /// Send this request and keep the value until it is answered.
    Store { request: Request, value: String },
    /// The secret, or why there is none.
    Finish(Result<String, Error>),
}

/// `step` is what `event` calls for while `reference` is read on an account.
pub open spec fn read_handled(
    config: ConfigView,
    reference: Seq<char>,
    account: Option<Seq<char>>,
    event: ReadEvent,
    step: ReadStep,
) -> bool {
    let key = key_of(reference, account);
    if !is_op_reference(reference) {
        step matches ReadStep::Finish(Err(e)) && e@ == not_a_reference(reference)
    } else {
        match event {
            ReadEvent::Started => step is EnsureDaemon,
            ReadEvent::Daemon(Ok(())) => {
                step matches ReadStep::Send(request) && request@ == (RequestView::Get { key })
            },
            ReadEvent::Daemon(Err(e)) => step == ReadStep::Finish(Err(e)),
            ReadEvent::Reply(Ok(Response::Hit { value })) => step == ReadStep::Finish(Ok(value)),
            ReadEvent::Reply(Ok(Response::Miss)) => {
                step matches ReadStep::Execute(command) && reads(
                    command,
                    config,
                    reference,
                    account,
                )
            },
            ReadEvent::Reply(Ok(_)) => {
                step matches ReadStep::Finish(Err(e)) && e@ == out_of_turn()
            },
            ReadEvent::Reply(Err(e)) => step == ReadStep::Finish(Err(e)),
            ReadEvent::Fetched(outcome) => match op_result(config, reference, outcome) {
                Ok(secret) => {
                    &&& step matches ReadStep::Store { request, value }
                    &&& value@ == secret
                    &&& request@ == (RequestView::Put { key, value: secret })
                },
                Err(failure) => step matches ReadStep::Finish(Err(e)) && e@ == failure,
            },
            ReadEvent::Stored { value, reply } => step == ReadStep::Finish(Ok(value)),
        }
    }
}

/// A file to be created.
#[derive(Debug)]
pub struct FetchedFile {
    /// The directory, which is to be created too.
    pub dir: String,
    /// How the name of the file starts. A part that makes the name unique follows.
    pub prefix: String,
    /// How the name of the file ends.
    pub suffix: String,
    /// What the file holds.
    pub content: String,
}

/// Why a file could not be created, with the reason that was given.
#[derive(Debug)]
pub enum SaveFailure {
    /// The directory could not be created.
    NoDirectory(String),
    /// The file could not be created.
    NoFile(String),
    /// The content could not be written.
    NotWritten(String),
}

/// What happens while a file is read.
#[derive(Debug)]
pub enum ReadFileEvent {
    /// The file was asked for.
    Started,
    /// The daemon runs, or could not be started.
    Daemon(Result<(), Error>),
    /// The daemon answered the lookup, or could not be asked.
    Reply(Result<Response, Error>),
    /// The command that reads the content came to an end.
    Fetched(OpOutcome),
    /// The file was created at this path, or could not be.
    Saved(Result<String, SaveFailure>),
    /// The daemon was asked to cache `path`; `reply` is what it answered.
    Stored { path: String, reply: Result<Response, Error> },
}

/// What to do next to read a file.
#[derive(Debug)]
pub enum ReadFileStep {
    /// Make sure that the daemon runs.
    EnsureDaemon,
    /// Send this request.
    Send(Request),
    /// Run this command.
    Execute(OpCommand),
    /// Create this file.
    Save(FetchedFile),
    /// Send this request and keep the path until it is answered.
    Store { request: Request, path: String },
    /// The path of the file, or why there is none.
    Finish(Result<String, Error>),
}

/// Whether `file` is the one to create for `content` under `key`.
pub open spec fn holds(
    file: FetchedFile,
    tmpdir: Option<Seq<char>>,
    key: Seq<char>,
    content: Seq<char>,
) -> bool {
    &&& file.dir@ == fetched_file_dir(tmpdir)
    &&& file.prefix@ == "op-cache-"@
    &&& file.suffix@ == "-"@ + key.take(8)
    &&& file.content@ == content
}

/// The failure that `failure` leads to.
pub open spec fn save_error(failure: SaveFailure) -> ErrorView {
    match failure {
        SaveFailure::NoDirectory(reason) => ErrorView::Internal(
            "failed to create temp dir: "@ + reason@,
        ),
        SaveFailure::NoFile(reason) => ErrorView::Internal(
            "failed to create temp file: "@ + reason@,
        ),
        SaveFailure::NotWritten(reason) => ErrorView::Internal(
            "failed to write temp file: "@ + reason@,
        ),
    }
}

/// `step` is what `event` calls for while the file `reference` is read on an account.
pub open spec fn read_file_handled(
    config: ConfigView,
    reference: Seq<char>,
    account: Option<Seq<char>>,
    tmpdir: Option<Seq<char>>,
    event: ReadFileEvent,
    step: ReadFileStep,
) -> bool {
    let key = key_of(reference, account);
    if !is_op_reference(reference) {
        step matches ReadFileStep::Finish(Err(e)) && e@ == not_a_reference(reference)
    } else {
        match event {
            ReadFileEvent::Started => step is EnsureDaemon,
            ReadFileEvent::Daemon(Ok(())) => {
                step matches ReadFileStep::Send(request) && request@ == (RequestView::GetFile {
                    key,
                })
            },
            ReadFileEvent::Daemon(Err(e)) => step == ReadFileStep::Finish(Err(e)),
            ReadFileEvent::Reply(Ok(Response::FileHit { path })) => step == ReadFileStep::Finish(
                Ok(path),
            ),
            ReadFileEvent::Reply(Ok(Response::Miss)) => {
                step matches ReadFileStep::Execute(command) && reads(
                    command,
                    config,
                    reference,
                    account,
                )
            },
            ReadFileEvent::Reply(Ok(_)) => {
                step matches ReadFileStep::Finish(Err(e)) && e@ == out_of_turn()
            },
            ReadFileEvent::Reply(Err(e)) => step == ReadFileStep::Finish(Err(e)),
            ReadFileEvent::Fetched(outcome) => match op_result(config, reference, outcome) {
                Ok(content) => {
                    step matches ReadFileStep::Save(file) && holds(file, tmpdir, key, content)
                },
                Err(failure) => step matches ReadFileStep::Finish(Err(e)) && e@ == failure,
            },
            ReadFileEvent::Saved(Ok(saved)) => {
                &&& step matches ReadFileStep::Store { request, path }
                &&& path == saved
                &&& request@ == (RequestView::SetFile { key, path: saved@ })
            },
            ReadFileEvent::Saved(Err(failure)) => {
                step matches ReadFileStep::Finish(Err(e)) && e@ == save_error(failure)
            },
            ReadFileEvent::Stored { path, reply } => step == ReadFileStep::Finish(Ok(path)),
        }
    }
}

/// What happens while the daemon is commanded.
#[derive(Debug)]
pub enum CommandEvent {
    /// The command was given.
    Started,
    /// The daemon runs, or could not be started.
    Daemon(Result<(), Error>),
    /// The daemon answered, or could not be asked.
    Reply(Result<Response, Error>),
}

/// What to do next to command the daemon.
#[derive(Debug)]
pub enum CommandStep<T> {
    /// Make sure that the daemon runs.
    EnsureDaemon,
    /// Send this request.
    Send(Request),
    /// What the command gave, or why it failed.
    Finish(Result<T, Error>),
}

/// `step` is what `event` calls for while asking the daemon for its counters.
pub open spec fn stats_handled(event: CommandEvent, step: CommandStep<CacheStats>) -> bool {
    match event {
        CommandEvent::Started => step is EnsureDaemon,
        CommandEvent::Daemon(Ok(())) => step == CommandStep::<CacheStats>::Send(
            Request::GetStats,
        ),
        CommandEvent::Daemon(Err(e)) => step == CommandStep::<CacheStats>::Finish(Err(e)),
        CommandEvent::Reply(Ok(Response::Stats(stats))) => step == CommandStep::Finish(
            Ok(stats),
        ),
        CommandEvent::Reply(Ok(_)) => {
            step matches CommandStep::Finish(Err(e)) && e@ == out_of_turn()
        },
        CommandEvent::Reply(Err(e)) => step == CommandStep::<CacheStats>::Finish(Err(e)),
    }
}

/// `step` is what `event` calls for while having the daemon drop its values.
pub open spec fn clear_handled(event: CommandEvent, step: CommandStep<()>) -> bool {
    match event {
        CommandEvent::Started => step is EnsureDaemon,
        CommandEvent::Daemon(Ok(())) => step == CommandStep::<()>::Send(
            Request::ClearCache,
        ),
        CommandEvent::Daemon(Err(e)) => step == CommandStep::<()>::Finish(Err(e)),
        CommandEvent::Reply(Ok(Response::CacheCleared)) => step == CommandStep::Finish(
            Ok(()),
        ),
        CommandEvent::Reply(Ok(_)) => {
            step matches CommandStep::Finish(Err(e)) && e@ == out_of_turn()
        },
        CommandEvent::Reply(Err(e)) => step == CommandStep::<()>::Finish(Err(e)),
    }
}

/// `step` is what `event` calls for while stopping the daemon.
pub open spec fn stop_handled(event: CommandEvent, step: CommandStep<()>) -> bool {
    match event {
        CommandEvent::Started | CommandEvent::Daemon(_) => step == CommandStep::<()>::Send(
            Request::Shutdown,
        ),
        CommandEvent::Reply(Ok(Response::ShuttingDown)) => step == CommandStep::Finish(
            Ok(()),
        ),
        CommandEvent::Reply(Ok(_)) => {
            step matches CommandStep::Finish(Err(e)) && e@ == out_of_turn()
        },
        CommandEvent::Reply(Err(e)) => step == CommandStep::<()>::Finish(Err(e)),
    }
}

/// A client of the daemon.
#[derive(Debug)]
pub struct Client {
    config: Config,
}

impl Client {
    /// The settings of this client.
    pub closed spec fn settings(self) -> ConfigView {
        self.config@
    }

    /// A client with these settings.
    pub fn new(config: Config) -> (client: Client)
        ensures
            client.settings() == config@,
    {
        Client { config }
    }

    /// The account that holds, given the one named explicitly and the value of `OP_ACCOUNT`.
    pub fn effective_account(explicit: Option<&str>, ambient: Option<&str>) -> (account: Option<
        String,
    >)
        ensures
            owned_text_of(account) == effective(text_of(explicit), text_of(ambient)),
    {
        match explicit {
            Some(account) => Some(account.to_owned()),
            None => match ambient {
                Some(account) => if account.is_empty() {
                    None
                } else {
                    Some(account.to_owned())
                },
                None => None,
            },
        }
    }

    /// The key under which a reference on an account is cached.
    pub fn cache_key(reference: &str, account: Option<&str>) -> (key: String)
        ensures
            key@ == key_of(reference@, text_of(account)),
            key@.len() == 64,
    {
        let input = match account {
            Some(account) => {
                proof {
                    reveal_strlit("\0");
                }
                let mut input = concat(account, "\0");
                input.append(reference);
                assert(input@ =~= key_input(reference@, Some(account@)));
                input
            },
            None => reference.to_owned(),
        };
        digest_text(digest(input.as_str().as_bytes()))
    }

    /// The command that reads `reference` on an account.
    pub fn op_read_command(&self, reference: &str, account: Option<&str>) -> (command: OpCommand)
        ensures
            reads(command, self.settings(), reference@, text_of(account)),
    {
        let mut args: Vec<String> = Vec::new();
        args.push("read".to_owned());
        args.push(reference.to_owned());
        if let Some(account) = account {
            args.push("--account".to_owned());
            args.push(account.to_owned());
        }
        assert(args_view(args@) =~= op_args(reference@, text_of(account)));
        OpCommand {
            program: self.config.op_path.clone(),
            args,
            timeout_seconds: self.config.op_timeout_seconds,
        }
    }

    /// The secret or the failure that a finished command reports in `output`, its standard output
    /// if it succeeded and its standard error if not.
    pub fn op_read_output(success: bool, output: &str) -> (result: Result<String, Error>)
        ensures
            result_view(result) == if success {
                Ok(trimmed_end(output@))
            } else {
                Err(ErrorView::OpFailed(trimmed_start(trimmed_end(output@))))
            },
    {
        if success {
            Ok(trim_end(output).to_owned())
        } else {
            Err(Error::OpFailed(trim(output).to_owned()))
        }
    }

    /// The secret that a command for `reference` gave, or why it gave none.
    pub fn execute_op_read(&self, reference: &str, outcome: OpOutcome) -> (result: Result<
        String,
        Error,
    >)
        ensures
            result_view(result) == op_result(self.settings(), reference@, outcome),
    {
        match outcome {
            OpOutcome::TimedOut => {
                let seconds = decimal(self.config.op_timeout_seconds);
                let mut text = concat("op read timed out after ", seconds.as_str());
                text.append("s for ");
                text.append(reference);
                Err(Error::OpFailed(text))
            },
            OpOutcome::NotRun(reason) => Err(
                Error::OpFailed(concat("failed to execute op: ", reason.as_str())),
            ),
            OpOutcome::Exited { success, stdout, stderr } => {
                let output = if success {
                    lossy(stdout.as_slice())
                } else {
                    lossy(stderr.as_slice())
                };
                Client::op_read_output(success, output.as_str())
            },
        }
    }

    /// The failure of an operation on something that is no reference.
    fn not_a_reference_error(reference: &str) -> (e: Error)
        ensures
            e@ == not_a_reference(reference@),
    {
        Error::InvalidReference(concat("reference must start with 'op://': ", reference))
    }

    /// The failure of an operation that the daemon answered out of turn.
    fn out_of_turn_error() -> (e: Error)
        ensures
            e@ == out_of_turn(),
    {
        Error::Protocol("unexpected response".to_owned())
    }

    /// The next step of reading a secret, out of the cache if it is there. `explicit` is the
    /// account named by the caller, `ambient` the value of `OP_ACCOUNT`.
    pub fn read(
        &self,
        reference: &str,
        explicit: Option<&str>,
        ambient: Option<&str>,
        event: ReadEvent,
    ) -> (step: ReadStep)
        ensures
            read_handled(
                self.settings(),
                reference@,
                effective(text_of(explicit), text_of(ambient)),
                event,
                step,
            ),
    {
        if !starts_with(reference, "op://") {
            return ReadStep::Finish(Err(Client::not_a_reference_error(reference)));
        }
        let account = Client::effective_account(explicit, ambient);
        match event {
            ReadEvent::Started => ReadStep::EnsureDaemon,
            ReadEvent::Daemon(Ok(())) => ReadStep::Send(
                Request::Get { key: Client::cache_key(reference, borrowed(&account)) },
            ),
            ReadEvent::Daemon(Err(e)) => ReadStep::Finish(Err(e)),
            ReadEvent::Reply(Ok(Response::Hit { value })) => ReadStep::Finish(Ok(value)),
            ReadEvent::Reply(Ok(Response::Miss)) => ReadStep::Execute(
                self.op_read_command(reference, borrowed(&account)),
            ),
            ReadEvent::Reply(Ok(_)) => ReadStep::Finish(Err(Client::out_of_turn_error())),
            ReadEvent::Reply(Err(e)) => ReadStep::Finish(Err(e)),
            ReadEvent::Fetched(outcome) => match self.execute_op_read(reference, outcome) {
                Ok(value) => {
                    let key = Client::cache_key(reference, borrowed(&account));
                    ReadStep::Store { request: Request::Put { key, value: value.clone() }, value }
                },
                Err(e) => ReadStep::Finish(Err(e)),
            },
            ReadEvent::Stored { value, reply: _ } => ReadStep::Finish(Ok(value)),
        }
    }

    /// The next step of reading a file: its content is stored in a temporary file, whose path is
    /// cached. `explicit` and `ambient` are as for `read`; `tmpdir` is the value of `TMPDIR`.
    pub fn read_file(
        &self,
        reference: &str,
        explicit: Option<&str>,
        ambient: Option<&str>,
        tmpdir: Option<&str>,
        event: ReadFileEvent,
    ) -> (step: ReadFileStep)
        ensures
            read_file_handled(
                self.settings(),
                reference@,
                effective(text_of(explicit), text_of(ambient)),
                text_of(tmpdir),
                event,
                step,
            ),
    {
        if !starts_with(reference, "op://") {
            return ReadFileStep::Finish(Err(Client::not_a_reference_error(reference)));
        }
        let account = Client::effective_account(explicit, ambient);
        let key = Client::cache_key(reference, borrowed(&account));
        match event {
            ReadFileEvent::Started => ReadFileStep::EnsureDaemon,
            ReadFileEvent::Daemon(Ok(())) => ReadFileStep::Send(Request::GetFile { key }),
            ReadFileEvent::Daemon(Err(e)) => ReadFileStep::Finish(Err(e)),
            ReadFileEvent::Reply(Ok(Response::FileHit { path })) => ReadFileStep::Finish(Ok(path)),
            ReadFileEvent::Reply(Ok(Response::Miss)) => ReadFileStep::Execute(
                self.op_read_command(reference, borrowed(&account)),
            ),
            ReadFileEvent::Reply(Ok(_)) => ReadFileStep::Finish(Err(Client::out_of_turn_error())),
            ReadFileEvent::Reply(Err(e)) => ReadFileStep::Finish(Err(e)),
            ReadFileEvent::Fetched(outcome) => match self.execute_op_read(reference, outcome) {
                Ok(content) => ReadFileStep::Save(
                    FetchedFile {
                        dir: self.config.temp_file_dir(tmpdir),
                        prefix: "op-cache-".to_owned(),
                        suffix: concat("-", key.as_str().substring_char(0, 8)),
                        content,
                    },
                ),
                Err(e) => ReadFileStep::Finish(Err(e)),
            },
            ReadFileEvent::Saved(Ok(path)) => ReadFileStep::Store {
                request: Request::SetFile { key, path: path.clone() },
                path,
            },
            ReadFileEvent::Saved(Err(failure)) => {
                let text = match failure {
                    SaveFailure::NoDirectory(reason) => concat(
                        "failed to create temp dir: ",
                        reason.as_str(),
                    ),
                    SaveFailure::NoFile(reason) => concat(
                        "failed to create temp file: ",
                        reason.as_str(),
                    ),
                    SaveFailure::NotWritten(reason) => concat(
                        "failed to write temp file: ",
                        reason.as_str(),
                    ),
                };
                ReadFileStep::Finish(Err(Error::Internal(text)))
            },
            ReadFileEvent::Stored { path, reply: _ } => ReadFileStep::Finish(Ok(path)),
        }
    }

    /// The next step of asking the daemon for its counters. The daemon is started if need be.
    pub fn stats(&self, event: CommandEvent) -> (step: CommandStep<CacheStats>)
        ensures
            match event {
                CommandEvent::Started => step is EnsureDaemon,
                CommandEvent::Daemon(Ok(())) => step == CommandStep::<CacheStats>::Send(
                    Request::GetStats,
                ),
                CommandEvent::Daemon(Err(e)) => step == CommandStep::<CacheStats>::Finish(Err(e)),
                CommandEvent::Reply(Ok(Response::Stats(stats))) => step == CommandStep::Finish(
                    Ok(stats),
                ),
                CommandEvent::Reply(Ok(_)) => {
                    step matches CommandStep::Finish(Err(e)) && e@ == out_of_turn()
                },
                CommandEvent::Reply(Err(e)) => step == CommandStep::<CacheStats>::Finish(Err(e)),
            },
            stats_handled(event, step),
    {
        match event {
            CommandEvent::Started => CommandStep::EnsureDaemon,
            CommandEvent::Daemon(Ok(())) => CommandStep::Send(Request::GetStats),
            CommandEvent::Daemon(Err(e)) => CommandStep::Finish(Err(e)),
            CommandEvent::Reply(Ok(Response::Stats(stats))) => CommandStep::Finish(Ok(stats)),
            CommandEvent::Reply(Ok(_)) => CommandStep::Finish(Err(Client::out_of_turn_error())),
            CommandEvent::Reply(Err(e)) => CommandStep::Finish(Err(e)),
        }
    }

    /// The next step of having the daemon drop its values. The daemon is started if need be.
    pub fn clear(&self, event: CommandEvent) -> (step: CommandStep<()>)
        ensures
            match event {
                CommandEvent::Started => step is EnsureDaemon,
                CommandEvent::Daemon(Ok(())) => step == CommandStep::<()>::Send(
                    Request::ClearCache,
                ),
                CommandEvent::Daemon(Err(e)) => step == CommandStep::<()>::Finish(Err(e)),
                CommandEvent::Reply(Ok(Response::CacheCleared)) => step == CommandStep::Finish(
                    Ok(()),
                ),
                CommandEvent::Reply(Ok(_)) => {
                    step matches CommandStep::Finish(Err(e)) && e@ == out_of_turn()
                },
                CommandEvent::Reply(Err(e)) => step == CommandStep::<()>::Finish(Err(e)),
            },
            clear_handled(event, step),
    {
        match event {
            CommandEvent::Started => CommandStep::EnsureDaemon,
            CommandEvent::Daemon(Ok(())) => CommandStep::Send(Request::ClearCache),
            CommandEvent::Daemon(Err(e)) => CommandStep::Finish(Err(e)),
            CommandEvent::Reply(Ok(Response::CacheCleared)) => CommandStep::Finish(Ok(())),
            CommandEvent::Reply(Ok(_)) => CommandStep::Finish(Err(Client::out_of_turn_error())),
            CommandEvent::Reply(Err(e)) => CommandStep::Finish(Err(e)),
        }
    }

    /// The next step of stopping the daemon. A daemon that does not run is not started for it:
    /// the request is sent whatever is known of it.
    pub fn stop(&self, event: CommandEvent) -> (step: CommandStep<()>)
        ensures
            match event {
                CommandEvent::Started | CommandEvent::Daemon(_) => step == CommandStep::<()>::Send(
                    Request::Shutdown,
                ),
                CommandEvent::Reply(Ok(Response::ShuttingDown)) => step == CommandStep::Finish(
                    Ok(()),
                ),
                CommandEvent::Reply(Ok(_)) => {
                    step matches CommandStep::Finish(Err(e)) && e@ == out_of_turn()
                },
                CommandEvent::Reply(Err(e)) => step == CommandStep::<()>::Finish(Err(e)),
            },
            stop_handled(event, step),
    {
        match event {
            CommandEvent::Started | CommandEvent::Daemon(_) => CommandStep::Send(Request::Shutdown),
            CommandEvent::Reply(Ok(Response::ShuttingDown)) => CommandStep::Finish(Ok(())),
            CommandEvent::Reply(Ok(_)) => CommandStep::Finish(Err(Client::out_of_turn_error())),
            CommandEvent::Reply(Err(e)) => CommandStep::Finish(Err(e)),
        }
    }
}

} // verus!
