//! Running a command with the secrets that its environment refers to.

use crate::client::is_op_reference;
use crate::path::{extension, extension_of};
use crate::text::{concat, decimal, decimal_text, ends_with, joined, same, starts_with};
use vstd::hash_set::StringHashSet;
use vstd::prelude::*;
use vstd::string::*;

pub use vstd::hash_map::StringHashMap;

verus! {

/// How many references are read at the same time.
pub const MAX_CONCURRENT_READS: usize = 8;

/// What the variables of an environment say: their names and values, in order.
pub open spec fn env_view(env: Seq<(String, String)>) -> Seq<(Seq<char>, Seq<char>)> {
    env.map_values(|var: (String, String)| (var.0@, var.1@))
}

/// What a list of references says.
pub open spec fn refs_view(refs: Seq<&str>) -> Seq<Seq<char>> {
    refs.map_values(|reference: &str| reference@)
}

/// The references among the values of `env`: each once, in the order in which they first occur.
pub open spec fn op_refs(env: Seq<(Seq<char>, Seq<char>)>) -> Seq<Seq<char>>
    decreases env.len(),
{
    if env.len() == 0 {
        Seq::empty()
    } else {
        let before = op_refs(env.drop_last());
        let value = env.last().1;
        if is_op_reference(value) && !before.contains(value) {
            before.push(value)
        } else {
            before
        }
    }
}

/// Whether a file with this extension is one that programs read from disk.
pub open spec fn is_file_extension(extension: Seq<char>) -> bool {
    ||| extension == "conf"@
    ||| extension == "cfg"@
    ||| extension == "ini"@
    ||| extension == "toml"@
    ||| extension == "yaml"@
    ||| extension == "yml"@
    ||| extension == "json"@
    ||| extension == "pem"@
    ||| extension == "crt"@
    ||| extension == "key"@
    ||| extension == "cert"@
}

/// Whether a reference stands for a file: it has the extension of one, or it has none and is
/// named like one.
pub open spec fn refers_to_file(reference: Seq<char>) -> bool {
    match extension_of(reference) {
        Some(extension) => is_file_extension(extension),
        None => {
            ||| "/config"@.is_suffix_of(reference)
            ||| "/kubeconfig"@.is_suffix_of(reference)
            ||| "/credentials"@.is_suffix_of(reference)
        },
    }
}

/// What a map from references to secrets says.
pub open spec fn secrets_of(resolved: Map<Seq<char>, String>) -> Map<Seq<char>, Seq<char>> {
    resolved.map_values(|secret: String| secret@)
}

/// `env` with each value that `secrets` resolves replaced by what it resolves to.
pub open spec fn substituted(
    env: Seq<(Seq<char>, Seq<char>)>,
    secrets: Map<Seq<char>, Seq<char>>,
) -> Seq<(Seq<char>, Seq<char>)> {
    env.map_values(
        |var: (Seq<char>, Seq<char>)|
            if secrets.contains_key(var.1) {
                (var.0, secrets[var.1])
            } else {
                var
            },
    )
}

/// The references found in the values of an environment, each once.
pub fn collect_op_refs<'a>(env: &'a [(String, String)]) -> (refs: Vec<&'a str>)
    ensures
        refs_view(refs@) == op_refs(env_view(env@)),
{
    let mut seen = StringHashSet::new();
    let mut refs: Vec<&'a str> = Vec::new();
    let mut i: usize = 0;
    assert(env_view(env@).take(0) =~= Seq::empty());
    while i < env.len()
        invariant
            i <= env.len(),
            refs_view(refs@) == op_refs(env_view(env@).take(i as int)),
            forall|v: Seq<char>| #[trigger]
                seen@.contains(v) <==> refs_view(refs@).contains(v),
        decreases env.len() - i,
    {
        let value = env[i].1.as_str();
        let ghost before = refs_view(refs@);
        let ghost part = env_view(env@).take(i + 1);
        assert(part.drop_last() =~= env_view(env@).take(i as int));
        assert(part.last().1 == value@);
        if starts_with(value, "op://") && seen.insert(value.to_owned()) {
            refs.push(value);
            assert(refs_view(refs@) =~= before.push(value@));
            assert forall|v: Seq<char>| #[trigger]
                seen@.contains(v) <==> refs_view(refs@).contains(v) by {
                if before.contains(v) {
                    let k = choose|k: int| 0 <= k < before.len() && before[k] == v;
                    assert(before.push(value@)[k] == v);
                }
                if v == value@ {
                    assert(before.push(value@)[before.len() as int] == v);
                }
            }
        }
        i += 1;
    }
    assert(env_view(env@).take(i as int) =~= env_view(env@));
    refs
}

/// Whether a reference stands for a file rather than for a value.
pub fn is_file_reference(reference: &str) -> (r: bool)
    ensures
        r == refers_to_file(reference@),
{
    match extension(reference) {
        Some(extension) => {
            let ext = extension.as_str();
            same(ext, "conf") || same(ext, "cfg") || same(ext, "ini") || same(ext, "toml") || same(
                ext,
                "yaml",
            ) || same(ext, "yml") || same(ext, "json") || same(ext, "pem") || same(ext, "crt")
                || same(ext, "key") || same(ext, "cert")
        },
        None => {
            ends_with(reference, "/config") || ends_with(reference, "/kubeconfig") || ends_with(
                reference,
                "/credentials",
            )
        },
    }
}

/// A reference to be read.
#[derive(Debug)]
pub struct PlannedRead {
    /// The reference.
    pub reference: String,
    /// Whether it is to be read as a file, which gives a path, or as a value.
    pub as_file: bool,
}

/// Whether `planned` is how `reference` is to be read.
pub open spec fn is_planned(planned: PlannedRead, reference: Seq<char>) -> bool {
    planned.reference@ == reference && planned.as_file == refers_to_file(reference)
}

/// How each of `refs` is to be read, in order.
pub fn plan_reads(refs: &[&str]) -> (plan: Vec<PlannedRead>)
    ensures
        plan@.len() == refs@.len(),
        forall|i: int|
            0 <= i < refs@.len() ==> (#[trigger] plan@[i]).reference@ == refs@[i]@
                && plan@[i].as_file == refers_to_file(refs@[i]@),
        forall|i: int| 0 <= i < refs@.len() ==> is_planned(#[trigger] plan@[i], refs@[i]@),
{
    let mut plan: Vec<PlannedRead> = Vec::new();
    let mut i: usize = 0;
    while i < refs.len()
        invariant
            i <= refs.len(),
            plan@.len() == i,
            forall|j: int|
                0 <= j < i ==> (#[trigger] plan@[j]).reference@ == refs@[j]@ && plan@[j].as_file
                    == refers_to_file(refs@[j]@),
        decreases refs.len() - i,
    {
        plan.push(
            PlannedRead { reference: refs[i].to_owned(), as_file: is_file_reference(refs[i]) },
        );
        i += 1;
    }
    plan
}

/// What became of reading a reference: what it resolves to, or why it could not be read.
pub type ReadOutcome = (String, Result<String, String>);

/// What the outcomes of reading say: each reference with what it resolves to or why it does not.
pub open spec fn outcomes_view(outcomes: Seq<ReadOutcome>) -> Seq<
    (Seq<char>, Result<Seq<char>, Seq<char>>),
> {
    outcomes.map_values(
        |outcome: ReadOutcome|
            (
                outcome.0@,
                match outcome.1 {
                    Ok(secret) => Ok(secret@),
                    Err(reason) => Err(reason@),
                },
            ),
    )
}

/// What the references that could be read resolve to.
pub open spec fn resolved_secrets(
    outcomes: Seq<(Seq<char>, Result<Seq<char>, Seq<char>>)>,
) -> Map<Seq<char>, Seq<char>>
    decreases outcomes.len(),
{
    if outcomes.len() == 0 {
        Map::empty()
    } else {
        let before = resolved_secrets(outcomes.drop_last());
        match outcomes.last().1 {
            Ok(secret) => before.insert(outcomes.last().0, secret),
            Err(_) => before,
        }
    }
}

/// One line for each reference that could not be read.
pub open spec fn failure_lines(
    outcomes: Seq<(Seq<char>, Result<Seq<char>, Seq<char>>)>,
) -> Seq<Seq<char>>
    decreases outcomes.len(),
{
    if outcomes.len() == 0 {
        Seq::empty()
    } else {
        let before = failure_lines(outcomes.drop_last());
        match outcomes.last().1 {
            Ok(_) => before,
            Err(reason) => before.push(outcomes.last().0 + ": "@ + reason),
        }
    }
}

/// The report on references that could not be read.
pub open spec fn failure_report(lines: Seq<Seq<char>>) -> Seq<char> {
    "failed to resolve "@ + decimal_text(lines.len()) + " secret(s):\n  "@ + joined(
        lines,
        "\n  "@,
    )
}

/// What all references resolve to, or a report on those that could not be read.
pub open spec fn resolution(
    outcomes: Seq<(Seq<char>, Result<Seq<char>, Seq<char>>)>,
) -> Result<Map<Seq<char>, Seq<char>>, Seq<char>> {
    if failure_lines(outcomes).len() == 0 {
        Ok(resolved_secrets(outcomes))
    } else {
        Err(failure_report(failure_lines(outcomes)))
    }
}

/// What all references resolve to, or a report on those that could not be read.
pub fn resolve_refs(outcomes: Vec<ReadOutcome>) -> (resolved: Result<
    StringHashMap<String>,
    String,
>)
    ensures
        ({
            let lines = failure_lines(outcomes_view(outcomes@));
            match resolved {
                Ok(secrets) => lines.len() == 0 && secrets_of(secrets@) == resolved_secrets(
                    outcomes_view(outcomes@),
                ),
                Err(report) => lines.len() > 0 && report@ == failure_report(lines),
            }
        }),
        resolution(outcomes_view(outcomes@)) == match resolved {
            Ok(secrets) => Ok(secrets_of(secrets@)),
            Err(report) => Err(report@),
        },
{
    let mut secrets: StringHashMap<String> = StringHashMap::new();
    let mut failures: usize = 0;
    let mut details = String::new();
    let ghost all = outcomes_view(outcomes@);
    assert(all.take(0) =~= Seq::empty());
    assert(secrets_of(secrets@) =~= Map::empty());
    let mut i: usize = 0;
    while i < outcomes.len()
        invariant
            i <= outcomes.len(),
            failures <= i,
            all == outcomes_view(outcomes@),
            secrets_of(secrets@) == resolved_secrets(all.take(i as int)),
            failures == failure_lines(all.take(i as int)).len(),
            details@ == joined(failure_lines(all.take(i as int)), "\n  "@),
        decreases outcomes.len() - i,
    {
        let ghost part = all.take(i + 1);
        let ghost before = failure_lines(all.take(i as int));
        assert(part.drop_last() =~= all.take(i as int));
        let outcome = &outcomes[i];
        assert(part.last().0 == outcome.0@);
        match &outcome.1 {
            Ok(secret) => {
                let ghost known = secrets@;
                secrets.insert(outcome.0.clone(), secret.clone());
                assert(secrets_of(secrets@) =~= secrets_of(known).insert(outcome.0@, secret@));
            },
            Err(reason) => {
                let mut line = concat(outcome.0.as_str(), ": ");
                line.append(reason.as_str());
                let ghost lines = before.push(line@);
                assert(failure_lines(part) == lines);
                if failures > 0 {
                    assert(lines.drop_last() =~= before);
                    details.append("\n  ");
                }
                details.append(line.as_str());
                assert(details@ =~= joined(lines, "\n  "@));
                failures += 1;
            },
        }
        i += 1;
    }
    assert(all.take(i as int) =~= all);
    if failures > 0 {
        let mut report = concat("failed to resolve ", decimal(failures as u64).as_str());
        report.append(" secret(s):\n  ");
        report.append(details.as_str());
        Err(report)
    } else {
        Ok(secrets)
    }
}

/// The environment with the resolved values in place of the references.
pub fn build_env(env: &[(String, String)], resolved: &StringHashMap<String>) -> (result: Vec<
    (String, String),
>)
    ensures
        env_view(result@) == substituted(env_view(env@), secrets_of(resolved@)),
{
    let mut result: Vec<(String, String)> = Vec::new();
    let mut i: usize = 0;
    while i < env.len()
        invariant
            i <= env.len(),
            env_view(result@) == substituted(env_view(env@), secrets_of(resolved@)).take(i as int),
        decreases env.len() - i,
    {
        let ghost before = result@;
        let name = env[i].0.clone();
        let value = match resolved.get(env[i].1.as_str()) {
            Some(secret) => secret.clone(),
            None => env[i].1.clone(),
        };
        result.push((name, value));
        assert(env_view(result@) =~= env_view(before).push((name@, value@)));
        assert(substituted(env_view(env@), secrets_of(resolved@)).take(i + 1) =~= substituted(
            env_view(env@),
            secrets_of(resolved@),
        ).take(i as int).push((name@, value@)));
        i += 1;
    }
    assert(substituted(env_view(env@), secrets_of(resolved@)).take(i as int) =~= substituted(
        env_view(env@),
        secrets_of(resolved@),
    ));
    result
}

} // verus!
