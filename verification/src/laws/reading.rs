//! What reading a secret or a file asks for, returns and keeps.

use crate::client::{
    effective, holds, is_op_reference, key_input, key_of, not_a_reference, op_result, out_of_turn,
    read_file_handled, read_handled, reads, FetchedFile, OpCommand, OpOutcome, ReadEvent,
    ReadFileEvent, ReadFileStep, ReadStep, SaveFailure,
};
use crate::config::{fetched_file_dir, ConfigView};
use crate::digest::blake3_digest;
use crate::error::{Error, ErrorView};
use crate::laws::text::{
    hex_value, law_hexadecimal_text_stands_for_its_bytes, law_numeral_stands_for_its_number,
    law_trimming_the_end_drops_only_white_space, law_trimming_the_start_drops_only_white_space,
    numeral_value,
};
use crate::path::extension_of;
use crate::protocol::{RequestView, Response};
use crate::run::{is_planned, refers_to_file, PlannedRead};
use crate::text::{decimal_text, is_white_space, lossy_text, trimmed_end, trimmed_start};
use vstd::prelude::*;
use vstd::utf8::encode_utf8;

verus! {

/// A reference is any text that begins with the five characters `op://`, whatever follows them.
pub proof fn law_reference_is_what_begins_with_op(s: Seq<char>)
    ensures
        is_op_reference(s) <==> s.len() >= 5 && s[0] == 'o' && s[1] == 'p' && s[2] == ':' && s[3]
            == '/' && s[4] == '/',
{
    reveal_strlit("op://");
    let prefix = "op://"@;
    if is_op_reference(s) {
        assert(prefix[0] == s.subrange(0, 5)[0] && prefix[1] == s.subrange(0, 5)[1]);
        assert(prefix[2] == s.subrange(0, 5)[2] && prefix[3] == s.subrange(0, 5)[3]);
        assert(prefix[4] == s.subrange(0, 5)[4]);
    }
    if s.len() >= 5 && s[0] == 'o' && s[1] == 'p' && s[2] == ':' && s[3] == '/' && s[4] == '/' {
        assert(prefix =~= s.subrange(0, 5));
    }
}

/// Whatever is put behind `op://` makes a reference, and putting anything behind a reference leaves
/// it one.
pub proof fn law_anything_may_follow_op(s: Seq<char>, tail: Seq<char>)
    ensures
        is_op_reference(seq!['o', 'p', ':', '/', '/'] + tail),
        is_op_reference(s) ==> is_op_reference(s + tail),
{
    law_reference_is_what_begins_with_op(seq!['o', 'p', ':', '/', '/'] + tail);
    law_reference_is_what_begins_with_op(s);
    law_reference_is_what_begins_with_op(s + tail);
}

/// What has an extension stands for a file exactly when the extension is one of eleven.
pub proof fn law_extension_makes_a_file(reference: Seq<char>, extension: Seq<char>)
    requires
        extension_of(reference) == Some(extension),
    ensures
        refers_to_file(reference) <==> (extension == "conf"@ || extension == "cfg"@ || extension
            == "ini"@ || extension == "toml"@ || extension == "yaml"@ || extension == "yml"@
            || extension == "json"@ || extension == "pem"@ || extension == "crt"@ || extension
            == "key"@ || extension == "cert"@),
{
}

proof fn lemma_suffix_after_slash(dir: Seq<char>, name: Seq<char>, suffix: Seq<char>)
    requires
        !name.contains('/'),
        suffix.len() > 0,
        suffix[0] == '/',
        !suffix.skip(1).contains('/'),
    ensures
        suffix.is_suffix_of(dir + seq!['/'] + name) <==> name == suffix.skip(1),
{
    let whole = dir + seq!['/'] + name;
    if suffix.is_suffix_of(whole) {
        let at = whole.len() - suffix.len();
        let tail = whole.subrange(at, whole.len() as int);
        assert(tail =~= suffix);
        assert(whole[at] == tail[0]);
        if at > dir.len() {
            assert(name[at - dir.len() - 1] == '/');
        }
        if at < dir.len() {
            assert(whole[dir.len() as int] == '/');
            assert(suffix.skip(1)[dir.len() - at - 1] == tail[dir.len() - at]);
        }
        assert(name =~= suffix.skip(1));
    }
    if name == suffix.skip(1) {
        assert(suffix =~= whole.subrange(dir.len() as int, whole.len() as int));
    }
}

/// What has no extension stands for a file exactly when its last component, the text after its
/// last slash, is `config`, `kubeconfig` or `credentials`, and never where it has no slash.
pub proof fn law_last_component_makes_a_file(dir: Seq<char>, name: Seq<char>)
    requires
        !name.contains('/'),
    ensures
        extension_of(dir + seq!['/'] + name) is None ==> (refers_to_file(dir + seq!['/'] + name)
            <==> (name == "config"@ || name == "kubeconfig"@ || name == "credentials"@)),
        extension_of(name) is None ==> !refers_to_file(name),
{
    reveal_strlit("/config");
    reveal_strlit("/kubeconfig");
    reveal_strlit("/credentials");
    reveal_strlit("config");
    reveal_strlit("kubeconfig");
    reveal_strlit("credentials");
    assert("/config"@.skip(1) =~= "config"@);
    assert("/kubeconfig"@.skip(1) =~= "kubeconfig"@);
    assert("/credentials"@.skip(1) =~= "credentials"@);
    lemma_suffix_after_slash(dir, name, "/config"@);
    lemma_suffix_after_slash(dir, name, "/kubeconfig"@);
    lemma_suffix_after_slash(dir, name, "/credentials"@);
    lemma_no_suffix_without_slash(name, "/config"@);
    lemma_no_suffix_without_slash(name, "/kubeconfig"@);
    lemma_no_suffix_without_slash(name, "/credentials"@);
}

proof fn lemma_no_suffix_without_slash(name: Seq<char>, suffix: Seq<char>)
    requires
        !name.contains('/'),
        suffix.len() > 0,
        suffix[0] == '/',
    ensures
        !suffix.is_suffix_of(name),
{
    if suffix.is_suffix_of(name) {
        let at = name.len() - suffix.len();
        assert(name[at] == name.subrange(at, name.len() as int)[0]);
        assert(name.contains('/'));
    }
}

/// A reference is planned as it stands, and to be read as a file exactly when it stands for one:
/// by its extension, or else by its last component.
pub proof fn law_plan_reads_files_as_files(
    planned: PlannedRead,
    dir: Seq<char>,
    name: Seq<char>,
    extension: Seq<char>,
)
    requires
        is_planned(planned, dir + seq!['/'] + name),
        !name.contains('/'),
    ensures
        planned.reference@ == dir + seq!['/'] + name,
        extension_of(dir + seq!['/'] + name) is None ==> (planned.as_file <==> (name == "config"@
            || name == "kubeconfig"@ || name == "credentials"@)),
        extension_of(dir + seq!['/'] + name) == Some(extension) ==> (planned.as_file <==> (extension
            == "conf"@ || extension == "cfg"@ || extension == "ini"@ || extension == "toml"@
            || extension == "yaml"@ || extension == "yml"@ || extension == "json"@ || extension
            == "pem"@ || extension == "crt"@ || extension == "key"@ || extension == "cert"@)),
{
    law_last_component_makes_a_file(dir, name);
    if extension_of(dir + seq!['/'] + name) == Some(extension) {
        law_extension_makes_a_file(dir + seq!['/'] + name, extension);
    }
}

/// An account that is named is the one that holds, whatever the ambient one. Where none is named
/// the ambient one holds as it is, unless it is empty.
pub proof fn law_account_that_holds(explicit: Seq<char>, ambient: Seq<char>)
    ensures
        effective(Some(explicit), Some(ambient)) == Some(explicit),
        effective(Some(explicit), None) == Some(explicit),
        ambient.len() > 0 ==> effective(None, Some(ambient)) == Some(ambient),
        ambient.len() == 0 ==> effective(None, Some(ambient)) is None,
        effective(None, None) is None,
{
}

/// A key spells, in hexadecimal, the digest of the account, a NUL and the reference, or of the
/// reference alone where there is no account: nothing of either is left out or changed.
pub proof fn law_key_spells_the_digest(reference: Seq<char>, account: Seq<char>, i: int)
    ensures
        key_input(reference, Some(account)) == account + seq!['\0'] + reference,
        key_input(reference, None) == reference,
        ({
            let key = key_of(reference, Some(account));
            let digest = blake3_digest(encode_utf8(account + seq!['\0'] + reference));
            &&& key.len() == 2 * digest.len()
            &&& 0 <= i < digest.len() ==> 16 * hex_value(key[2 * i]) + hex_value(key[2 * i + 1])
                == digest[i]
        }),
        ({
            let key = key_of(reference, None);
            let digest = blake3_digest(encode_utf8(reference));
            &&& key.len() == 2 * digest.len()
            &&& 0 <= i < digest.len() ==> 16 * hex_value(key[2 * i]) + hex_value(key[2 * i + 1])
                == digest[i]
        }),
{
    let with = blake3_digest(encode_utf8(account + seq!['\0'] + reference));
    let without = blake3_digest(encode_utf8(reference));
    if 0 <= i < with.len() {
        law_hexadecimal_text_stands_for_its_bytes(with, i);
    }
    if 0 <= i < without.len() {
        law_hexadecimal_text_stands_for_its_bytes(without, i);
    }
}

/// The command that is run is the configured program, it is told to read the reference as it
/// stands, on the account if there is one, and it has the configured time.
pub proof fn law_command_reads_the_reference(
    command: OpCommand,
    config: ConfigView,
    reference: Seq<char>,
    account: Option<Seq<char>>,
)
    requires
        reads(command, config, reference, account),
    ensures
        command.program@ == config.op_path,
        command.timeout_seconds == config.op_timeout_seconds,
        command.args@.len() == if account is Some {
            4int
        } else {
            2int
        },
        command.args@[0]@ == "read"@,
        command.args@[1]@ == reference,
        account matches Some(name) ==> command.args@[2]@ == "--account"@ && command.args@[3]@ == name,
{
    let args = crate::client::args_view(command.args@);
    assert(args.len() == command.args@.len());
    assert(args[0] == command.args@[0]@);
    assert(args[1] == command.args@[1]@);
    if account is Some {
        assert(args[2] == command.args@[2]@);
        assert(args[3] == command.args@[3]@);
    }
}

/// A command that succeeds gives the whole of its standard output but for the white space at the
/// end: every character up to there, and no more than white space is left out.
pub proof fn law_secret_is_the_whole_output(
    config: ConfigView,
    reference: Seq<char>,
    stdout: Vec<u8>,
    stderr: Vec<u8>,
)
    ensures
        op_result(config, reference, OpOutcome::Exited { success: true, stdout, stderr }) matches Ok(
            secret,
        ) && {
            let output = lossy_text(stdout@);
            &&& secret.len() <= output.len()
            &&& secret == output.take(secret.len() as int)
            &&& forall|i: int|
                secret.len() <= i < output.len() ==> is_white_space(#[trigger] output[i])
            &&& secret.len() > 0 ==> !is_white_space(secret.last())
        },
{
    law_trimming_the_end_drops_only_white_space(lossy_text(stdout@));
}

/// A command that fails gives the whole of its standard error but for the white space at the two
/// ends, as the reason, and no secret, whatever its standard output.
pub proof fn law_failure_is_the_whole_error_output(
    config: ConfigView,
    reference: Seq<char>,
    stdout: Vec<u8>,
    stderr: Vec<u8>,
)
    ensures
        exists|from: int, reason: Seq<char>| #[trigger]
            is_all_but_white_space(lossy_text(stderr@), from, reason) && op_result(
                config,
                reference,
                OpOutcome::Exited { success: false, stdout, stderr },
            ) == Err::<Seq<char>, ErrorView>(ErrorView::OpFailed(reason)),
{
    let output = lossy_text(stderr@);
    let front = trimmed_end(output);
    let reason = trimmed_start(front);
    law_trimming_the_end_drops_only_white_space(output);
    law_trimming_the_start_drops_only_white_space(front);
    let from = front.len() - reason.len();
    assert(reason =~= output.subrange(from, from + reason.len()));
    assert forall|i: int| 0 <= i < from implies is_white_space(#[trigger] output[i]) by {
        assert(is_white_space(front[i]));
    }
    if reason.len() > 0 {
        assert(reason.last() == front.last());
    }
    assert(is_all_but_white_space(output, from, reason));
}

/// Whether `part` stands in `whole` from `from` on, with nothing but white space before and after
/// it, and has none at its own ends.
pub open spec fn is_all_but_white_space(whole: Seq<char>, from: int, part: Seq<char>) -> bool {
    &&& 0 <= from <= from + part.len() <= whole.len()
    &&& part == whole.subrange(from, from + part.len())
    &&& forall|i: int| 0 <= i < from ==> is_white_space(#[trigger] whole[i])
    &&& forall|i: int| from + part.len() <= i < whole.len() ==> is_white_space(#[trigger] whole[i])
    &&& part.len() > 0 ==> !is_white_space(part[0]) && !is_white_space(part.last())
}

/// A command that takes too long or cannot be run gives no secret; the reason names the time limit
/// in seconds and the reference, or is what the system says.
pub proof fn law_command_that_does_not_end_gives_no_secret(
    config: ConfigView,
    reference: Seq<char>,
    reason: String,
)
    ensures
        op_result(config, reference, OpOutcome::TimedOut) matches Err(ErrorView::OpFailed(text))
            && exists|numeral: Seq<char>| #[trigger]
            numeral_value(numeral) == config.op_timeout_seconds && text
                == "op read timed out after "@ + numeral + "s for "@ + reference,
        op_result(config, reference, OpOutcome::NotRun(reason)) == Err::<Seq<char>, ErrorView>(
            ErrorView::OpFailed("failed to execute op: "@ + reason@),
        ),
{
    let numeral = decimal_text(config.op_timeout_seconds as nat);
    law_numeral_stands_for_its_number(config.op_timeout_seconds as nat);
    assert(numeral_value(numeral) == config.op_timeout_seconds);
}

/// What is no reference is refused in these words, with the text itself, and an answer out of turn
/// in these.
pub proof fn law_refusals_say_why(reference: Seq<char>)
    ensures
        not_a_reference(reference) == ErrorView::InvalidReference(
            "reference must start with 'op://': "@ + reference,
        ),
        out_of_turn() == ErrorView::Protocol("unexpected response"@),
{
}

/// A read that finds the secret cached: it starts the daemon, asks for the key of the reference on
/// the account, and returns exactly what the daemon has.
pub proof fn law_cached_secret_is_returned(
    config: ConfigView,
    reference: Seq<char>,
    account: Option<Seq<char>>,
    first: ReadStep,
    lookup: ReadStep,
    value: String,
    last: ReadStep,
)
    requires
        is_op_reference(reference),
        read_handled(config, reference, account, ReadEvent::Started, first),
        read_handled(config, reference, account, ReadEvent::Daemon(Ok(())), lookup),
        read_handled(
            config,
            reference,
            account,
            ReadEvent::Reply(Ok(Response::Hit { value })),
            last,
        ),
    ensures
        first is EnsureDaemon,
        lookup matches ReadStep::Send(request) && request@ == (RequestView::Get {
            key: key_of(reference, account),
        }),
        last == ReadStep::Finish(Ok(value)),
{
}

/// A read that misses: it runs the command for the reference on the account. What the command puts
/// out, but for the white space at its end, is what is cached, under the key that was looked up,
/// and what is returned, whatever becomes of caching it.
pub proof fn law_missed_secret_is_fetched_cached_and_returned(
    config: ConfigView,
    reference: Seq<char>,
    account: Option<Seq<char>>,
    lookup: ReadStep,
    run: ReadStep,
    stdout: Vec<u8>,
    stderr: Vec<u8>,
    store: ReadStep,
    reply: Result<Response, Error>,
    last: ReadStep,
)
    requires
        is_op_reference(reference),
        read_handled(config, reference, account, ReadEvent::Daemon(Ok(())), lookup),
        read_handled(config, reference, account, ReadEvent::Reply(Ok(Response::Miss)), run),
        read_handled(
            config,
            reference,
            account,
            ReadEvent::Fetched(OpOutcome::Exited { success: true, stdout, stderr }),
            store,
        ),
        read_handled(
            config,
            reference,
            account,
            ReadEvent::Stored { value: store->value, reply },
            last,
        ),
    ensures
        run matches ReadStep::Execute(command) && {
            &&& command.program@ == config.op_path
            &&& command.timeout_seconds == config.op_timeout_seconds
            &&& command.args@.len() == if account is Some {
                4int
            } else {
                2int
            }
            &&& command.args@[0]@ == "read"@
            &&& command.args@[1]@ == reference
            &&& account matches Some(name) ==> command.args@[2]@ == "--account"@
                && command.args@[3]@ == name
        },
        store matches ReadStep::Store { request, value } && {
            let output = lossy_text(stdout@);
            &&& value@.len() <= output.len()
            &&& value@ == output.take(value@.len() as int)
            &&& forall|i: int|
                value@.len() <= i < output.len() ==> is_white_space(#[trigger] output[i])
            &&& value@.len() > 0 ==> !is_white_space(value@.last())
            &&& lookup matches ReadStep::Send(asked)
            &&& asked@ matches RequestView::Get { key: asked_key }
            &&& request@ == (RequestView::Put { key: asked_key, value: value@ })
            &&& last == ReadStep::Finish(Ok(value))
        },
{
    law_command_reads_the_reference(run->Execute_0, config, reference, account);
    law_secret_is_the_whole_output(config, reference, stdout, stderr);
}

/// A read ends with the failure that it meets: one to start the daemon or to ask it is passed on as
/// it is, one of the command is the command's, and an answer that is neither a hit nor a miss is
/// out of turn.
pub proof fn law_read_ends_with_the_failure_it_meets(
    config: ConfigView,
    reference: Seq<char>,
    account: Option<Seq<char>>,
    event: ReadEvent,
    step: ReadStep,
)
    requires
        is_op_reference(reference),
        read_handled(config, reference, account, event, step),
    ensures
        event matches ReadEvent::Daemon(Err(e)) ==> step == ReadStep::Finish(Err(e)),
        event matches ReadEvent::Reply(Err(e)) ==> step == ReadStep::Finish(Err(e)),
        event matches ReadEvent::Reply(Ok(response)) ==> !(response is Hit) && !(response is Miss)
            ==> {
            &&& step matches ReadStep::Finish(Err(e))
            &&& e@ == ErrorView::Protocol("unexpected response"@)
        },
        event matches ReadEvent::Fetched(outcome) ==> (step is Finish <==> op_result(
            config,
            reference,
            outcome,
        ) is Err),
        event matches ReadEvent::Fetched(outcome) ==> step is Finish ==> {
            &&& step matches ReadStep::Finish(Err(e))
            &&& op_result(config, reference, outcome) == Err::<Seq<char>, ErrorView>(e@)
        },
{
}

/// A read of a file that finds it cached: it starts the daemon, asks for the file under the key of
/// the reference on the account, and returns exactly the path that the daemon has.
pub proof fn law_cached_file_is_returned(
    config: ConfigView,
    reference: Seq<char>,
    account: Option<Seq<char>>,
    tmpdir: Option<Seq<char>>,
    first: ReadFileStep,
    lookup: ReadFileStep,
    path: String,
    last: ReadFileStep,
)
    requires
        is_op_reference(reference),
        read_file_handled(config, reference, account, tmpdir, ReadFileEvent::Started, first),
        read_file_handled(config, reference, account, tmpdir, ReadFileEvent::Daemon(Ok(())), lookup),
        read_file_handled(
            config,
            reference,
            account,
            tmpdir,
            ReadFileEvent::Reply(Ok(Response::FileHit { path })),
            last,
        ),
    ensures
        first is EnsureDaemon,
        lookup matches ReadFileStep::Send(request) && request@ == (RequestView::GetFile {
            key: key_of(reference, account),
        }),
        last == ReadFileStep::Finish(Ok(path)),
{
}

/// A read of a file that misses: it runs the command for the reference on the account, and saves
/// what the command puts out, but for the white space at its end. The path at which the file was
/// created is what is cached, under the key that was looked up, and what is returned, whatever
/// becomes of caching it.
pub proof fn law_missed_file_is_fetched_saved_cached_and_returned(
    config: ConfigView,
    reference: Seq<char>,
    account: Option<Seq<char>>,
    tmpdir: Option<Seq<char>>,
    lookup: ReadFileStep,
    run: ReadFileStep,
    stdout: Vec<u8>,
    stderr: Vec<u8>,
    save: ReadFileStep,
    path: String,
    store: ReadFileStep,
    reply: Result<Response, Error>,
    last: ReadFileStep,
)
    requires
        is_op_reference(reference),
        read_file_handled(config, reference, account, tmpdir, ReadFileEvent::Daemon(Ok(())), lookup),
        read_file_handled(
            config,
            reference,
            account,
            tmpdir,
            ReadFileEvent::Reply(Ok(Response::Miss)),
            run,
        ),
        read_file_handled(
            config,
            reference,
            account,
            tmpdir,
            ReadFileEvent::Fetched(OpOutcome::Exited { success: true, stdout, stderr }),
            save,
        ),
        read_file_handled(config, reference, account, tmpdir, ReadFileEvent::Saved(Ok(path)), store),
        read_file_handled(
            config,
            reference,
            account,
            tmpdir,
            ReadFileEvent::Stored { path: store->path, reply },
            last,
        ),
    ensures
        run matches ReadFileStep::Execute(command) && {
            &&& command.program@ == config.op_path
            &&& command.timeout_seconds == config.op_timeout_seconds
            &&& command.args@.len() == if account is Some {
                4int
            } else {
                2int
            }
            &&& command.args@[0]@ == "read"@
            &&& command.args@[1]@ == reference
            &&& account matches Some(name) ==> command.args@[2]@ == "--account"@
                && command.args@[3]@ == name
        },
        save matches ReadFileStep::Save(file) && {
            let output = lossy_text(stdout@);
            let content = file.content@;
            &&& file.dir@ == fetched_file_dir(tmpdir)
            &&& file.prefix@ == "op-cache-"@
            &&& file.suffix@ == "-"@ + key_of(reference, account).take(8)
            &&& content.len() <= output.len()
            &&& content == output.take(content.len() as int)
            &&& forall|i: int|
                content.len() <= i < output.len() ==> is_white_space(#[trigger] output[i])
            &&& content.len() > 0 ==> !is_white_space(content.last())
        },
        store matches ReadFileStep::Store { request, path: kept } && {
            &&& kept@ == path@
            &&& lookup matches ReadFileStep::Send(asked)
            &&& asked@ matches RequestView::GetFile { key: asked_key }
            &&& request@ == (RequestView::SetFile { key: asked_key, path: path@ })
        },
        last matches ReadFileStep::Finish(Ok(found)) && found@ == path@,
{
    law_command_reads_the_reference(run->Execute_0, config, reference, account);
    law_secret_is_the_whole_output(config, reference, stdout, stderr);
}

/// A read of a file ends with the failure that it meets, as a read of a secret does, and a file
/// that cannot be saved ends it with the reason.
pub proof fn law_read_of_a_file_ends_with_the_failure_it_meets(
    config: ConfigView,
    reference: Seq<char>,
    account: Option<Seq<char>>,
    tmpdir: Option<Seq<char>>,
    event: ReadFileEvent,
    step: ReadFileStep,
)
    requires
        is_op_reference(reference),
        read_file_handled(config, reference, account, tmpdir, event, step),
    ensures
        event matches ReadFileEvent::Daemon(Err(e)) ==> step == ReadFileStep::Finish(Err(e)),
        event matches ReadFileEvent::Reply(Err(e)) ==> step == ReadFileStep::Finish(Err(e)),
        event matches ReadFileEvent::Reply(Ok(response)) ==> !(response is FileHit) && !(response
            is Miss) ==> {
            &&& step matches ReadFileStep::Finish(Err(e))
            &&& e@ == ErrorView::Protocol("unexpected response"@)
        },
        event matches ReadFileEvent::Fetched(outcome) ==> (step is Finish <==> op_result(
            config,
            reference,
            outcome,
        ) is Err),
        event matches ReadFileEvent::Fetched(outcome) ==> step is Finish ==> {
            &&& step matches ReadFileStep::Finish(Err(e))
            &&& op_result(config, reference, outcome) == Err::<Seq<char>, ErrorView>(e@)
        },
        event matches ReadFileEvent::Saved(Err(failure)) ==> {
            &&& step matches ReadFileStep::Finish(Err(e))
            &&& e@ == ErrorView::Internal(
                match failure {
                    SaveFailure::NoDirectory(reason) => "failed to create temp dir: "@ + reason@,
                    SaveFailure::NoFile(reason) => "failed to create temp file: "@ + reason@,
                    SaveFailure::NotWritten(reason) => "failed to write temp file: "@ + reason@,
                },
            )
        },
{
}

/// A fetched file holds the content as it is, in the directory for fetched files, under a name
/// that starts with `op-cache-` and ends with a hyphen and the first eight characters of the key.
pub proof fn law_fetched_file_is_named_after_its_key(
    file: FetchedFile,
    tmpdir: Option<Seq<char>>,
    key: Seq<char>,
    content: Seq<char>,
    i: int,
)
    requires
        holds(file, tmpdir, key, content),
        key.len() >= 8,
    ensures
        file.content@ == content,
        file.dir@ == fetched_file_dir(tmpdir),
        file.prefix@ == "op-cache-"@,
        file.suffix@.len() == 9,
        file.suffix@[0] == '-',
        1 <= i < 9 ==> file.suffix@[i] == key[i - 1],
{
    reveal_strlit("-");
}

} // verus!
