//! One batch of fetch workers: which results it delivers and how the
//! workers' outcomes combine into the batch's own outcome.
//!
//! A batch serves one [`Command`]: one worker per distinct URL, racing
//! independently. A worker's fetch can fail without consequence — that is
//! data, not an error — so the only way a worker faults is a [`Fault`]. The
//! batch succeeds exactly when every worker did; otherwise the first fault
//! is the batch's outcome.

use vstd::prelude::*;

use crate::messages::{Command, CommandResult};
use crate::output::{output_spec, fetch_result, FetchOutcome};

verus! {

/// An internal error of the pipeline, as opposed to an ordinary fetch
/// failure.
#[derive(Clone, Copy, PartialEq, Eq, Structural, Debug)]
pub enum Fault {
    /// Delivering a result failed because the result sink was closed.
    SinkClosed,
    /// A spawned worker ended without reporting an outcome.
    WorkerLost,
    /// The drain queue was closed while commands were still being admitted.
    DrainClosed,
}

/// Whether every outcome in the sequence is free of fault.
pub open spec fn all_ok(outcomes: Seq<Result<(), Fault>>) -> bool {
    forall|i: int| 0 <= i < outcomes.len() ==> outcomes[i] is Ok
}

/// The fail-fast verdict over a sequence of outcomes: `Ok` when every one
/// succeeded, otherwise the first fault in order. It combines the workers'
/// outcomes into their batch's outcome, and again the batches' outcomes
/// into the outcome of a whole run.
pub open spec fn first_fault(outcomes: Seq<Result<(), Fault>>) -> Result<(), Fault>
    decreases outcomes.len(),
{
    if outcomes.len() == 0 {
        Ok(())
    } else if outcomes[0] is Err {
        outcomes[0]
    } else {
        first_fault(outcomes.drop_first())
    }
}

/// The fail-fast verdict is `Ok` exactly when every single outcome is.
pub proof fn lemma_first_fault_ok(outcomes: Seq<Result<(), Fault>>)
    ensures
        first_fault(outcomes) is Ok <==> all_ok(outcomes),
    decreases outcomes.len(),
{
    if outcomes.len() == 0 {
    } else if outcomes[0] is Err {
        assert(!all_ok(outcomes));
    } else {
        let rest = outcomes.drop_first();
        lemma_first_fault_ok(rest);
        if all_ok(rest) {
            assert forall|i: int| 0 <= i < outcomes.len() implies outcomes[i] is Ok by {
                if i > 0 {
                    assert(rest[i - 1] is Ok);
                }
            }
        }
        if all_ok(outcomes) {
            assert forall|i: int| 0 <= i < rest.len() implies rest[i] is Ok by {
                assert(outcomes[i + 1] is Ok);
            }
        }
    }
}

/// When the first faulted outcome stands at `i`, the verdict is exactly
/// that fault: earlier successes do not mask it and later outcomes do not
/// override it.
pub proof fn lemma_first_fault_located(outcomes: Seq<Result<(), Fault>>, i: int)
    requires
        0 <= i < outcomes.len(),
        outcomes[i] is Err,
        forall|j: int| 0 <= j < i ==> outcomes[j] is Ok,
    ensures
        first_fault(outcomes) == outcomes[i],
    decreases i,
{
    if i > 0 {
        lemma_first_fault_located(outcomes.drop_first(), i - 1);
    }
}

/// The position of the first faulted outcome; the sequence's length when
/// there is none.
pub open spec fn first_fault_at(outcomes: Seq<Result<(), Fault>>) -> int
    decreases outcomes.len(),
{
    if outcomes.len() == 0 {
        0
    } else if outcomes[0] is Err {
        0
    } else {
        1 + first_fault_at(outcomes.drop_first())
    }
}

/// Where the sequence holds a fault at all, `first_fault_at` points at a
/// fault that no fault precedes, and the verdict is that fault.
pub proof fn lemma_first_fault_at(outcomes: Seq<Result<(), Fault>>)
    requires
        !all_ok(outcomes),
    ensures
        0 <= first_fault_at(outcomes) < outcomes.len(),
        outcomes[first_fault_at(outcomes)] is Err,
        forall|j: int| 0 <= j < first_fault_at(outcomes) ==> outcomes[j] is Ok,
        first_fault(outcomes) == outcomes[first_fault_at(outcomes)],
    decreases outcomes.len(),
{
    if outcomes.len() == 0 {
        assert(all_ok(outcomes));
    } else if outcomes[0] is Err {
    } else {
        let rest = outcomes.drop_first();
        assert(!all_ok(rest)) by {
            lemma_first_fault_ok(outcomes);
            lemma_first_fault_ok(rest);
        }
        lemma_first_fault_at(rest);
        assert forall|j: int| 0 <= j < first_fault_at(outcomes) implies outcomes[j] is Ok by {
            if j > 0 {
                assert(rest[j - 1] is Ok);
            }
        }
    }
}

/// Combines the workers' outcomes into the batch's outcome: `Ok` only if
/// every worker succeeded, else the first fault.
pub fn combine_outcomes(outcomes: &Vec<Result<(), Fault>>) -> (combined: Result<(), Fault>)
    ensures
        combined == first_fault(outcomes@),
        combined is Ok <==> all_ok(outcomes@),
{
    let mut k: usize = 0;
    while k < outcomes.len()
        invariant
            k <= outcomes@.len(),
            forall|j: int| 0 <= j < k ==> outcomes@[j] is Ok,
        decreases outcomes@.len() - k,
    {
        if let Err(fault) = outcomes[k] {
            proof {
                lemma_first_fault_located(outcomes@, k as int);
            }
            return Err(fault);
        }
        k = k + 1;
    }
    proof {
        assert(all_ok(outcomes@));
        lemma_first_fault_ok(outcomes@);
        match first_fault(outcomes@) {
            Ok(u) => assert(first_fault(outcomes@) == Ok::<(), Fault>(u)),
            Err(_) => assert(false),
        }
    }
    Ok(())
}

/// The results a batch delivers, given what the transport reported for each
/// of its URLs: one result per URL, each pairing a URL with the summary of
/// its own outcome — never of a sibling's.
pub fn batch_results(urls: &Vec<String>, outcomes: &Vec<FetchOutcome>) -> (results: Vec<
    CommandResult,
>)
    requires
        urls@.len() == outcomes@.len(),
    ensures
        results@.len() == urls@.len(),
        forall|i: int|
            0 <= i < results@.len() ==> results@[i].url@ == urls@[i]@ && results@[i].output@
                == output_spec(outcomes@[i]),
{
    let mut results: Vec<CommandResult> = Vec::new();
    let mut k: usize = 0;
    while k < urls.len()
        invariant
            k <= urls@.len(),
            urls@.len() == outcomes@.len(),
            results@.len() == k,
            forall|i: int|
                0 <= i < k ==> results@[i].url@ == urls@[i]@ && results@[i].output@ == output_spec(
                    outcomes@[i],
                ),
        decreases urls@.len() - k,
    {
        let result = fetch_result(urls[k].clone(), &outcomes[k]);
        results.push(result);
        k = k + 1;
    }
    results
}

/// A faultless batch serves its command exactly: for a command of N
/// distinct URLs, exactly N results are delivered, and the set of URLs
/// they answer for is the set that was submitted.
pub proof fn lemma_batch_serves_command(cmd: Command, results: Seq<CommandResult>)
    requires
        cmd.wf(),
        results.len() == cmd.urls@.len(),
        forall|i: int| 0 <= i < results.len() ==> results[i].url@ == cmd.urls@[i]@,
    ensures
        results.map_values(|r: CommandResult| r.url@).to_set() == cmd.url_set(),
        results.len() == cmd.url_set().len(),
{
    let url_views = cmd.urls@.map_values(|u: String| u@);
    assert(results.map_values(|r: CommandResult| r.url@) =~= url_views);
    assert(url_views.no_duplicates());
    url_views.unique_seq_to_set();
}

/// A command with no URLs costs nothing: its batch spawns no worker,
/// delivers no result, and completes without fault.
pub proof fn lemma_empty_command(cmd: Command, results: Seq<CommandResult>, outcomes: Seq<
    Result<(), Fault>,
>)
    requires
        cmd.urls@.len() == 0,
        results.len() == cmd.urls@.len(),
        outcomes.len() == cmd.urls@.len(),
    ensures
        results =~= Seq::<CommandResult>::empty(),
        first_fault(outcomes) is Ok,
{
}

} // verus!
