//! What a client and the daemon achieve together.

use crate::client::{
    clear_handled, is_op_reference, key_of, not_a_reference, op_result, read_file_handled,
    read_handled, stats_handled, stop_handled, CommandEvent, CommandStep, ReadEvent, ReadFileEvent,
    ReadFileStep, ReadStep,
};
use crate::config::ConfigView;
use crate::daemon::cache::CacheView;
use crate::daemon::server::answered;
use crate::error::ErrorView;
use crate::laws::serving::{
    history, latest_file, latest_value, lemma_latest_file_is_kept, lemma_latest_value_is_kept,
};
use crate::protocol::{CacheStats, Request, RequestView, Response, ResponseView};
use vstd::prelude::*;

verus! {

/// Only what starts with `op://` is read: anything else is refused at every step, with the same
/// failure, and nothing is sent or run for it. What does start so is never refused for its form.
pub proof fn law_only_references_are_read(
    config: ConfigView,
    reference: Seq<char>,
    account: Option<Seq<char>>,
    tmpdir: Option<Seq<char>>,
    event: ReadEvent,
    step: ReadStep,
    file_event: ReadFileEvent,
    file_step: ReadFileStep,
)
    requires
        read_handled(config, reference, account, event, step),
        read_file_handled(config, reference, account, tmpdir, file_event, file_step),
    ensures
        !is_op_reference(reference) ==> {
            &&& step matches ReadStep::Finish(Err(e))
            &&& e@ == not_a_reference(reference)
            &&& file_step matches ReadFileStep::Finish(Err(f))
            &&& f@ == not_a_reference(reference)
        },
        is_op_reference(reference) ==> step is EnsureDaemon == (event is Started) && file_step
            is EnsureDaemon == (file_event is Started),
{
}

/// The cache comes first: the command that reads a secret is run exactly when the daemon answered
/// the lookup with a miss.
pub proof fn law_command_runs_only_on_a_miss(
    config: ConfigView,
    reference: Seq<char>,
    account: Option<Seq<char>>,
    tmpdir: Option<Seq<char>>,
    event: ReadEvent,
    step: ReadStep,
    file_event: ReadFileEvent,
    file_step: ReadFileStep,
)
    requires
        is_op_reference(reference),
        read_handled(config, reference, account, event, step),
        read_file_handled(config, reference, account, tmpdir, file_event, file_step),
    ensures
        step is Execute <==> event == ReadEvent::Reply(Ok(Response::Miss)),
        file_step is Execute <==> file_event == ReadFileEvent::Reply(Ok(Response::Miss)),
{
}

/// A failure to cache does not fail the read: once a secret or a file is there, it is returned
/// whatever becomes of storing it.
pub proof fn law_storing_does_not_matter(
    config: ConfigView,
    reference: Seq<char>,
    account: Option<Seq<char>>,
    tmpdir: Option<Seq<char>>,
    event: ReadEvent,
    step: ReadStep,
    file_event: ReadFileEvent,
    file_step: ReadFileStep,
)
    requires
        is_op_reference(reference),
        read_handled(config, reference, account, event, step),
        read_file_handled(config, reference, account, tmpdir, file_event, file_step),
    ensures
        event matches ReadEvent::Stored { value, reply } ==> step == ReadStep::Finish(Ok(value)),
        file_event matches ReadFileEvent::Stored { path, reply } ==> file_step
            == ReadFileStep::Finish(Ok(path)),
{
}

/// A command is sent to the daemon, which is started for it unless it is to stop, and succeeds
/// exactly when the daemon confirms it: with the counters as the daemon gave them, or with nothing.
/// A failure to start or to ask the daemon is passed on as it is.
pub proof fn law_command_succeeds_when_the_daemon_confirms(
    event: CommandEvent,
    stats: CommandStep<CacheStats>,
    clear: CommandStep<()>,
    stop: CommandStep<()>,
)
    requires
        stats_handled(event, stats),
        clear_handled(event, clear),
        stop_handled(event, stop),
    ensures
        event is Started ==> stats is EnsureDaemon && clear is EnsureDaemon && stop
            == CommandStep::<()>::Send(Request::Shutdown),
        event matches CommandEvent::Daemon(Ok(())) ==> stats == CommandStep::<CacheStats>::Send(
            Request::GetStats,
        ) && clear == CommandStep::<()>::Send(Request::ClearCache) && stop == CommandStep::<
            (),
        >::Send(Request::Shutdown),
        event matches CommandEvent::Daemon(Err(e)) ==> stats == CommandStep::<CacheStats>::Finish(
            Err(e),
        ) && clear == CommandStep::<()>::Finish(Err(e)) && stop == CommandStep::<()>::Send(
            Request::Shutdown,
        ),
        event matches CommandEvent::Reply(Err(e)) ==> stats == CommandStep::<CacheStats>::Finish(
            Err(e),
        ) && clear == CommandStep::<()>::Finish(Err(e)) && stop == CommandStep::<()>::Finish(Err(e)),
        event matches CommandEvent::Reply(Ok(response)) ==> {
            &&& response matches Response::Stats(given) ==> stats == CommandStep::Finish(Ok(given))
            &&& !(response is Stats) ==> {
                &&& stats matches CommandStep::Finish(Err(e))
                &&& e@ == ErrorView::Protocol("unexpected response"@)
            }
            &&& response is CacheCleared ==> clear == CommandStep::Finish(Ok(()))
            &&& !(response is CacheCleared) ==> {
                &&& clear matches CommandStep::Finish(Err(e))
                &&& e@ == ErrorView::Protocol("unexpected response"@)
            }
            &&& response is ShuttingDown ==> stop == CommandStep::Finish(Ok(()))
            &&& !(response is ShuttingDown) ==> {
                &&& stop matches CommandStep::Finish(Err(e))
                &&& e@ == ErrorView::Protocol("unexpected response"@)
            }
        },
{
}

/// A later read gives back what an earlier read fetched: the first client stores the secret that
/// the command gave, as request `j` of a history. A second client looks the same reference on the
/// same account up, as request `n`, with no other write of that key and no clearing in between. It
/// then returns that secret without running the command, or it runs it, the lookup being a miss.
pub proof fn law_later_read_gives_back_the_first(
    config1: ConfigView,
    config2: ConfigView,
    reference: Seq<char>,
    account: Option<Seq<char>>,
    fetched: ReadEvent,
    store: ReadStep,
    states: Seq<CacheView>,
    log: Seq<(RequestView, ResponseView)>,
    j: int,
    n: int,
    lookup: ReadStep,
    reply: Response,
    last: ReadStep,
)
    requires
        is_op_reference(reference),
        fetched is Fetched,
        store is Store,
        read_handled(config1, reference, account, fetched, store),
        history(states, log),
        0 <= n < log.len(),
        latest_value(log, n, key_of(reference, account), store->value@, j),
        read_handled(config2, reference, account, ReadEvent::Daemon(Ok(())), lookup),
        log[n] == (lookup->Send_0@, reply@),
        read_handled(config2, reference, account, ReadEvent::Reply(Ok(reply)), last),
    ensures
        op_result(config1, reference, fetched->Fetched_0) == Ok::<Seq<char>, ErrorView>(
            store->value@,
        ),
        log[j].0 == store->request@,
        last is Execute || (last matches ReadStep::Finish(Ok(secret)) && secret@ == store->value@),
        last is Execute <==> reply is Miss,
{
    let key = key_of(reference, account);
    lemma_latest_value_is_kept(states, log, n, key, store->value@, j);
    assert(answered(states[n], log[n].0, log[n].1, states[n + 1]));
}

/// A later read of a file gives back the path that an earlier read saved, in the same way. No
/// clearing matters here, since it leaves the files.
pub proof fn law_later_file_read_gives_back_the_first(
    config1: ConfigView,
    config2: ConfigView,
    reference: Seq<char>,
    account: Option<Seq<char>>,
    tmpdir1: Option<Seq<char>>,
    tmpdir2: Option<Seq<char>>,
    path: String,
    store: ReadFileStep,
    states: Seq<CacheView>,
    log: Seq<(RequestView, ResponseView)>,
    j: int,
    n: int,
    lookup: ReadFileStep,
    reply: Response,
    last: ReadFileStep,
)
    requires
        is_op_reference(reference),
        read_file_handled(config1, reference, account, tmpdir1, ReadFileEvent::Saved(Ok(path)), store),
        history(states, log),
        0 <= n < log.len(),
        latest_file(log, n, key_of(reference, account), path@, j),
        read_file_handled(config2, reference, account, tmpdir2, ReadFileEvent::Daemon(Ok(())), lookup),
        log[n] == (lookup->Send_0@, reply@),
        read_file_handled(config2, reference, account, tmpdir2, ReadFileEvent::Reply(Ok(reply)), last),
    ensures
        log[j].0 == store->request@,
        last is Execute || (last matches ReadFileStep::Finish(Ok(found)) && found@ == path@),
        last is Execute <==> reply is Miss,
{
    let key = key_of(reference, account);
    lemma_latest_file_is_kept(states, log, n, key, path@, j);
    assert(answered(states[n], log[n].0, log[n].1, states[n + 1]));
}

} // verus!
