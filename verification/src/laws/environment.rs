//! What becomes of an environment whose values refer to secrets.

use crate::client::is_op_reference;
use crate::laws::text::{
    law_joined_lines_keep_every_line, law_numeral_stands_for_its_number, line_start, numeral_value,
};
use crate::run::{
    failure_lines, failure_report, op_refs, resolution, resolved_secrets, substituted,
};
use crate::text::{decimal_text, joined};
use vstd::prelude::*;

verus! {

/// Whether `value` is the value of a variable of `env`.
pub open spec fn is_value_of(env: Seq<(Seq<char>, Seq<char>)>, value: Seq<char>) -> bool {
    exists|i: int| 0 <= i < env.len() && (#[trigger] env[i]).1 == value
}

/// Whether variable `i` of `env` is the first with its value.
pub open spec fn is_first(env: Seq<(Seq<char>, Seq<char>)>, i: int) -> bool {
    &&& 0 <= i < env.len()
    &&& forall|j: int| 0 <= j < i ==> (#[trigger] env[j]).1 != env[i].1
}

/// Exactly the references are collected: a text is collected if and only if it is the value of a
/// variable and starts with `op://`.
pub proof fn law_exactly_the_references_are_collected(
    env: Seq<(Seq<char>, Seq<char>)>,
    value: Seq<char>,
)
    ensures
        op_refs(env).contains(value) <==> is_op_reference(value) && is_value_of(env, value),
    decreases env.len(),
{
    if env.len() > 0 {
        let front = env.drop_last();
        let last = env.last().1;
        law_exactly_the_references_are_collected(front, value);
        let before = op_refs(front);
        assert(is_value_of(env, value) <==> is_value_of(front, value) || last == value) by {
            if is_value_of(env, value) {
                let i = choose|i: int| 0 <= i < env.len() && (#[trigger] env[i]).1 == value;
                if i < front.len() {
                    assert(front[i].1 == value);
                }
            }
            if is_value_of(front, value) {
                let i = choose|i: int| 0 <= i < front.len() && (#[trigger] front[i]).1 == value;
                assert(env[i].1 == value);
            }
            if last == value {
                assert(env[env.len() - 1].1 == value);
            }
        }
        if before.contains(value) {
            let k = choose|k: int| 0 <= k < before.len() && before[k] == value;
            assert(before.push(last)[k] == value);
        }
        if last == value {
            assert(before.push(last)[before.len() as int] == value);
        }
    }
}

/// Each reference is collected once.
pub proof fn law_each_reference_is_collected_once(env: Seq<(Seq<char>, Seq<char>)>)
    ensures
        op_refs(env).no_duplicates(),
    decreases env.len(),
{
    if env.len() > 0 {
        law_each_reference_is_collected_once(env.drop_last());
    }
}

/// References are collected in the order of the variables: of two variables that are each the
/// first with their reference, the earlier one's is collected earlier.
pub proof fn law_references_are_collected_in_order(
    env: Seq<(Seq<char>, Seq<char>)>,
    i: int,
    j: int,
)
    requires
        is_first(env, i),
        is_first(env, j),
        i < j,
        is_op_reference(env[i].1),
        is_op_reference(env[j].1),
    ensures
        exists|a: int, b: int|
            0 <= a < b < op_refs(env).len() && #[trigger] op_refs(env)[a] == env[i].1
                && #[trigger] op_refs(env)[b] == env[j].1,
    decreases env.len(),
{
    let front = env.drop_last();
    let before = op_refs(front);
    if j < front.len() {
        assert(is_first(front, i)) by {
            assert forall|k: int| 0 <= k < i implies (#[trigger] front[k]).1 != front[i].1 by {
                assert(env[k].1 != env[i].1);
            }
        }
        assert(is_first(front, j)) by {
            assert forall|k: int| 0 <= k < j implies (#[trigger] front[k]).1 != front[j].1 by {
                assert(env[k].1 != env[j].1);
            }
        }
        law_references_are_collected_in_order(front, i, j);
        let (a, b) = choose|a: int, b: int|
            0 <= a < b < before.len() && #[trigger] before[a] == env[i].1 && #[trigger] before[b]
                == env[j].1;
        assert(op_refs(env)[a] == env[i].1 && op_refs(env)[b] == env[j].1);
    } else {
        let value = env[j].1;
        law_exactly_the_references_are_collected(front, value);
        assert(!is_value_of(front, value)) by {
            assert forall|k: int| 0 <= k < front.len() implies (#[trigger] front[k]).1 != value by {
                assert(env[k].1 != env[j].1);
            }
        }
        law_exactly_the_references_are_collected(front, env[i].1);
        assert(front[i].1 == env[i].1);
        let a = choose|a: int| 0 <= a < before.len() && before[a] == env[i].1;
        assert(op_refs(env)[a] == env[i].1);
        assert(op_refs(env)[before.len() as int] == value);
    }
}

/// Substitution keeps the variables, their names and their order.
pub proof fn law_names_and_order_are_kept(
    env: Seq<(Seq<char>, Seq<char>)>,
    secrets: Map<Seq<char>, Seq<char>>,
    i: int,
)
    requires
        0 <= i < env.len(),
    ensures
        substituted(env, secrets).len() == env.len(),
        substituted(env, secrets)[i].0 == env[i].0,
{
}

/// Each variable gets what its value resolves to, and keeps its value where that does not resolve.
pub proof fn law_value_becomes_what_it_resolves_to(
    env: Seq<(Seq<char>, Seq<char>)>,
    secrets: Map<Seq<char>, Seq<char>>,
    i: int,
)
    requires
        0 <= i < env.len(),
    ensures
        secrets.contains_key(env[i].1) ==> substituted(env, secrets)[i] == (
            env[i].0,
            secrets[env[i].1],
        ),
        !secrets.contains_key(env[i].1) ==> substituted(env, secrets)[i] == env[i],
{
}

/// Whether outcome `i` is the last read of `reference` that succeeded, and gave `secret`.
pub open spec fn is_last_read(
    outcomes: Seq<(Seq<char>, Result<Seq<char>, Seq<char>>)>,
    reference: Seq<char>,
    secret: Seq<char>,
    i: int,
) -> bool {
    &&& 0 <= i < outcomes.len()
    &&& outcomes[i] == (reference, Ok::<Seq<char>, Seq<char>>(secret))
    &&& forall|k: int|
        i < k < outcomes.len() ==> (#[trigger] outcomes[k]).0 != reference || outcomes[k].1 is Err
}

/// A reference resolves to what the last read of it that succeeded gave, and to nothing where no
/// read of it succeeded.
pub proof fn law_reference_resolves_to_what_was_read(
    outcomes: Seq<(Seq<char>, Result<Seq<char>, Seq<char>>)>,
    reference: Seq<char>,
)
    ensures
        resolved_secrets(outcomes).contains_key(reference) ==> exists|i: int| #[trigger]
            is_last_read(outcomes, reference, resolved_secrets(outcomes)[reference], i),
        !resolved_secrets(outcomes).contains_key(reference) ==> forall|i: int|
            0 <= i < outcomes.len() ==> (#[trigger] outcomes[i]).0 != reference || outcomes[i].1
                is Err,
    decreases outcomes.len(),
{
    if outcomes.len() > 0 {
        let front = outcomes.drop_last();
        let n = outcomes.len() - 1;
        let before = resolved_secrets(front);
        law_reference_resolves_to_what_was_read(front, reference);
        assert(outcomes[n] == outcomes.last());
        if outcomes[n].0 == reference && outcomes[n].1 is Ok {
            assert(is_last_read(outcomes, reference, resolved_secrets(outcomes)[reference], n));
        } else if before.contains_key(reference) {
            let i = choose|i: int| #[trigger]
                is_last_read(front, reference, before[reference], i);
            assert(outcomes[i] == front[i]);
            assert forall|k: int| i < k < outcomes.len() implies (#[trigger] outcomes[k]).0
                != reference || outcomes[k].1 is Err by {
                if k < n {
                    assert(front[k] == outcomes[k]);
                }
            }
            assert(is_last_read(outcomes, reference, before[reference], i));
        } else {
            assert forall|i: int| 0 <= i < outcomes.len() implies (#[trigger] outcomes[i]).0
                != reference || outcomes[i].1 is Err by {
                if i < n {
                    assert(front[i] == outcomes[i]);
                }
            }
        }
    }
}

/// When every read succeeds, exactly the references that were read are resolved.
pub proof fn law_success_resolves_every_reference(
    outcomes: Seq<(Seq<char>, Result<Seq<char>, Seq<char>>)>,
    reference: Seq<char>,
)
    requires
        failure_lines(outcomes).len() == 0,
    ensures
        resolved_secrets(outcomes).contains_key(reference) <==> exists|i: int|
            0 <= i < outcomes.len() && (#[trigger] outcomes[i]).0 == reference,
        resolved_secrets(outcomes).contains_key(reference) ==> exists|i: int|
            0 <= i < outcomes.len() && (#[trigger] outcomes[i]).0 == reference && outcomes[i].1
                == Ok::<Seq<char>, Seq<char>>(resolved_secrets(outcomes)[reference]),
    decreases outcomes.len(),
{
    if outcomes.len() > 0 {
        let front = outcomes.drop_last();
        let n = outcomes.len() - 1;
        law_success_resolves_every_reference(front, reference);
        assert(outcomes[n] == outcomes.last());
        if resolved_secrets(front).contains_key(reference) && outcomes[n].0 != reference {
            let i = choose|i: int|
                0 <= i < front.len() && (#[trigger] front[i]).0 == reference && front[i].1 == Ok::<
                    Seq<char>,
                    Seq<char>,
                >(resolved_secrets(front)[reference]);
            assert(outcomes[i] == front[i]);
        }
        if exists|i: int| 0 <= i < outcomes.len() && (#[trigger] outcomes[i]).0 == reference {
            let i = choose|i: int|
                0 <= i < outcomes.len() && (#[trigger] outcomes[i]).0 == reference;
            if i < n {
                assert(front[i].0 == reference);
            }
        }
    }
}

/// A report comes exactly when some read failed, and it has one line for each of them.
pub proof fn law_every_failure_is_reported(
    outcomes: Seq<(Seq<char>, Result<Seq<char>, Seq<char>>)>,
)
    ensures
        failure_lines(outcomes).len() == outcomes.filter(
            |outcome: (Seq<char>, Result<Seq<char>, Seq<char>>)| outcome.1 is Err,
        ).len(),
        failure_lines(outcomes).len() > 0 <==> exists|i: int|
            0 <= i < outcomes.len() && (#[trigger] outcomes[i]).1 is Err,
    decreases outcomes.len(),
{
    let failed = |outcome: (Seq<char>, Result<Seq<char>, Seq<char>>)| outcome.1 is Err;
    reveal(Seq::filter);
    if outcomes.len() > 0 {
        let front = outcomes.drop_last();
        let n = outcomes.len() - 1;
        law_every_failure_is_reported(front);
        assert(outcomes[n] == outcomes.last());
        if exists|i: int| 0 <= i < front.len() && (#[trigger] front[i]).1 is Err {
            let i = choose|i: int| 0 <= i < front.len() && (#[trigger] front[i]).1 is Err;
            assert(outcomes[i].1 is Err);
        }
        if exists|i: int| 0 <= i < outcomes.len() && (#[trigger] outcomes[i]).1 is Err {
            let i = choose|i: int| 0 <= i < outcomes.len() && (#[trigger] outcomes[i]).1 is Err;
            if i < n {
                assert(front[i].1 is Err);
            }
        }
    }
}

/// The reads that failed, in order.
pub open spec fn failed_reads(
    outcomes: Seq<(Seq<char>, Result<Seq<char>, Seq<char>>)>,
) -> Seq<(Seq<char>, Result<Seq<char>, Seq<char>>)> {
    outcomes.filter(|outcome: (Seq<char>, Result<Seq<char>, Seq<char>>)| outcome.1 is Err)
}

/// There is a line for each read that failed and for no other, in order: the reference, a colon, a
/// space and the reason.
pub proof fn law_line_names_reference_and_reason(
    outcomes: Seq<(Seq<char>, Result<Seq<char>, Seq<char>>)>,
    k: int,
)
    ensures
        failure_lines(outcomes).len() == failed_reads(outcomes).len(),
        0 <= k < failed_reads(outcomes).len() ==> failure_lines(outcomes)[k] == failed_reads(
            outcomes,
        )[k].0 + ": "@ + failed_reads(outcomes)[k].1->Err_0,
    decreases outcomes.len(),
{
    reveal(Seq::filter);
    if outcomes.len() > 0 {
        law_line_names_reference_and_reason(outcomes.drop_last(), k);
    }
}

/// A report says how many references failed and lists their lines, each whole, on a line of its
/// own that is indented by two spaces, in order, and says nothing else.
pub proof fn law_report_counts_and_lists_the_failures(lines: Seq<Seq<char>>, k: int)
    requires
        0 <= k < lines.len(),
    ensures
        exists|numeral: Seq<char>, body: Seq<char>|
            #![trigger numeral_value(numeral), body.len()]
            {
                let start = line_start(lines, 3, k);
                let last = lines.len() - 1;
                &&& numeral_value(numeral) == lines.len()
                &&& failure_report(lines) == "failed to resolve "@ + numeral
                    + " secret(s):\n  "@ + body
                &&& body.len() == line_start(lines, 3, last) + lines[last].len()
                &&& body.subrange(start, start + lines[k].len()) == lines[k]
                &&& k > 0 ==> body.subrange(start - 3, start) == seq!['\n', ' ', ' ']
            },
{
    reveal_strlit("\n  ");
    assert("\n  "@ =~= seq!['\n', ' ', ' ']);
    let numeral = decimal_text(lines.len());
    let body = joined(lines, "\n  "@);
    law_numeral_stands_for_its_number(lines.len());
    law_joined_lines_keep_every_line(lines, "\n  "@, k);
    assert(numeral_value(numeral) == lines.len());
    assert(body.len() >= 0);
}

/// References resolve all together or not at all: where every read succeeded, each reference that
/// was read resolves to what a read of it gave, and no other does; where one failed, none resolves
/// and there is a report.
pub proof fn law_references_resolve_together(
    outcomes: Seq<(Seq<char>, Result<Seq<char>, Seq<char>>)>,
    i: int,
    reference: Seq<char>,
)
    ensures
        0 <= i < outcomes.len() && outcomes[i].1 is Err ==> resolution(outcomes) is Err,
        resolution(outcomes) is Err ==> exists|k: int|
            0 <= k < outcomes.len() && (#[trigger] outcomes[k]).1 is Err,
        resolution(outcomes) matches Ok(secrets) ==> {
            &&& 0 <= i < outcomes.len() ==> secrets.contains_key(outcomes[i].0)
            &&& secrets.contains_key(reference) ==> exists|k: int| #[trigger]
                is_last_read(outcomes, reference, secrets[reference], k)
        },
{
    law_every_failure_is_reported(outcomes);
    law_reference_resolves_to_what_was_read(outcomes, reference);
    if 0 <= i < outcomes.len() {
        law_reference_resolves_to_what_was_read(outcomes, outcomes[i].0);
    }
}

/// Every reference is substituted and nothing else is: when exactly the collected references were
/// read and every read succeeded, each variable whose value is a reference gets what a read of
/// that reference gave, and every other variable stays as it is.
pub proof fn law_exactly_the_references_are_substituted(
    env: Seq<(Seq<char>, Seq<char>)>,
    outcomes: Seq<(Seq<char>, Result<Seq<char>, Seq<char>>)>,
    i: int,
)
    requires
        0 <= i < env.len(),
        failure_lines(outcomes).len() == 0,
        forall|reference: Seq<char>| #[trigger]
            op_refs(env).contains(reference) <==> exists|k: int|
                0 <= k < outcomes.len() && (#[trigger] outcomes[k]).0 == reference,
    ensures
        is_op_reference(env[i].1) ==> exists|k: int|
            0 <= k < outcomes.len() && (#[trigger] outcomes[k]).0 == env[i].1 && outcomes[k].1
                == Ok::<Seq<char>, Seq<char>>(
                substituted(env, resolved_secrets(outcomes))[i].1,
            ),
        !is_op_reference(env[i].1) ==> substituted(env, resolved_secrets(outcomes))[i] == env[i],
{
    let value = env[i].1;
    assert(is_value_of(env, value));
    law_exactly_the_references_are_collected(env, value);
    law_success_resolves_every_reference(outcomes, value);
    assert(op_refs(env).contains(value) <==> is_op_reference(value));
}

} // verus!
