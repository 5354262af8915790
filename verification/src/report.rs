//! What the operator sees: one line for each target and one for the batch.

use vstd::prelude::*;
use vstd::string::*;
use crate::batch::{BatchOperation, BatchOperationView};
use crate::dispatcher::{count_failures, lemma_count_failures, BatchResult};
use crate::model::{ExecutionError, Failure, FailureView, Outcome, OutcomeView};
use crate::text::{decimal, push_decimal, push_signed, signed_decimal};

verus! {

/// The line for a target that succeeded.
pub open spec fn success_text(op: BatchOperationView, id: int) -> Seq<char> {
    match op {
        BatchOperationView::Clone { source, .. } => "VMID "@ + signed_decimal(id) + " cloned from "@
            + signed_decimal(source),
        BatchOperationView::Destroy => signed_decimal(id) + " destroyed"@,
        BatchOperationView::Start => signed_decimal(id) + " started"@,
        BatchOperationView::Stop => signed_decimal(id) + " stopped"@,
    }
}

/// Why a target failed, in words.
pub open spec fn failure_text(failure: FailureView) -> Seq<char> {
    match failure {
        FailureView::Resolution => "the probe did not tell the kind of the target"@,
        FailureView::Execution(ExecutionError::Rejected(status)) =>
            "the request was rejected with status "@ + decimal(status as nat),
        FailureView::Execution(ExecutionError::Malformed) => "the answer held no job handle"@,
        FailureView::Poll(detail) => "the job ended with status "@ + detail,
        FailureView::Transport(detail) => "no answer: "@ + detail,
    }
}

/// The line for the target `id`, whatever it came to.
pub open spec fn progress_text(op: BatchOperationView, id: int, outcome: OutcomeView) -> Seq<char> {
    match outcome {
        OutcomeView::Succeeded => success_text(op, id),
        OutcomeView::Failed(failure) => "VMID "@ + signed_decimal(id) + " failed: "@ + failure_text(
            failure,
        ),
        OutcomeView::Skipped(reason) => "VMID "@ + signed_decimal(id) + " skipped: "@ + reason,
    }
}

/// The line for a batch of `total` targets of which `failed` did not succeed.
pub open spec fn summary_text(total: nat, failed: nat) -> Seq<char> {
    decimal((total - failed) as nat) + " of "@ + decimal(total) + " targets succeeded"@
}

/// Appends to `line` why a target failed.
fn push_failure(line: &mut String, failure: &Failure)
    ensures
        final(line)@ == old(line)@ + failure_text(failure@),
{
    let mut reason = String::new();
    match failure {
        Failure::Resolution => reason.append("the probe did not tell the kind of the target"),
        Failure::Execution(ExecutionError::Rejected(status)) => {
            reason.append("the request was rejected with status ");
            push_decimal(&mut reason, *status as u64);
        },
        Failure::Execution(ExecutionError::Malformed) => reason.append("the answer held no job handle"),
        Failure::Poll(detail) => {
            reason.append("the job ended with status ");
            reason.append(detail.as_str());
        },
        Failure::Transport(detail) => {
            reason.append("no answer: ");
            reason.append(detail.as_str());
        },
    }
    line.append(reason.as_str());
}

/// The line that tells the operator what the target `id` came to.
pub fn progress_line(op: &BatchOperation, id: i32, outcome: &Outcome) -> (line: String)
    ensures
        line@ == progress_text(op@, id as int, outcome@),
{
    let mut line = String::new();
    match outcome {
        Outcome::Succeeded => match op {
            BatchOperation::Clone { source, .. } => {
                line.append("VMID ");
                push_signed(&mut line, id as i64);
                line.append(" cloned from ");
                push_signed(&mut line, *source as i64);
            },
            BatchOperation::Destroy => {
                push_signed(&mut line, id as i64);
                line.append(" destroyed");
            },
            BatchOperation::Start => {
                push_signed(&mut line, id as i64);
                line.append(" started");
            },
            BatchOperation::Stop => {
                push_signed(&mut line, id as i64);
                line.append(" stopped");
            },
        },
        Outcome::Failed(failure) => {
            line.append("VMID ");
            push_signed(&mut line, id as i64);
            line.append(" failed: ");
            push_failure(&mut line, failure);
        },
        Outcome::Skipped(reason) => {
            line.append("VMID ");
            push_signed(&mut line, id as i64);
            line.append(" skipped: ");
            line.append(reason.as_str());
        },
    }
    line
}

/// The line that sums the batch up: how many of its targets succeeded.
pub fn summary_line(result: &BatchResult) -> (line: String)
    ensures
        line@ == summary_text(result.in_order().len(), count_failures(result.in_order())),
{
    let total: usize = result.len();
    let failed: usize = result.failures();
    proof {
        lemma_count_failures(result.in_order());
    }
    let mut line = String::new();
    push_decimal(&mut line, (total - failed) as u64);
    line.append(" of ");
    push_decimal(&mut line, total as u64);
    line.append(" targets succeeded");
    line
}

} // verus!
