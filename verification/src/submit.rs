use vstd::prelude::*;

use crate::error::Error;
use crate::responses::{GetTransactionStatusResponse, SendTransactionResponse,
    TransactionStatusResult};
use crate::strutil::str_eq;

verus! {

/// Polling stops with a timeout error once the elapsed whole seconds exceed
/// this ceiling while the transaction is still pending.
pub const DEFAULT_TIMEOUT_SECS: u64 = 10;

/// The suspension between two consecutive status polls, in seconds.
pub const DEFAULT_POLL_INTERVAL_SECS: u64 = 1;

/// The classification of a status string reported by the node. Everything
/// outside the three known words is `Other`, a distinct client-observable
/// condition.
pub enum StatusClass {
    Success,
    Error,
    Pending,
    Other,
}

/// How a status string is classified: the three known words, or `Other`.
pub open spec fn classify_spec(s: Seq<char>) -> StatusClass {
    if s == "success"@ {
        StatusClass::Success
    } else if s == "error"@ {
        StatusClass::Error
    } else if s == "pending"@ {
        StatusClass::Pending
    } else {
        StatusClass::Other
    }
}

/// Classifies one status string from the node.
pub fn classify_status(s: &str) -> (c: StatusClass)
    ensures
        c == classify_spec(s@),
{
    if str_eq(s, "success") {
        StatusClass::Success
    } else if str_eq(s, "error") {
        StatusClass::Error
    } else if str_eq(s, "pending") {
        StatusClass::Pending
    } else {
        StatusClass::Other
    }
}

/// What the state machine decides after observing one status response and
/// the elapsed time, before any effect is performed.
pub enum StepDecision {
    /// Surface the response's result entries; the run is over.
    Finish,
    /// The node reported `error`: fail the submission.
    FailSubmission,
    /// The status is outside the known set: fail with the literal value.
    FailUnexpected,
    /// Still pending past the ceiling: fail with a timeout.
    FailTimeout,
    /// Still pending within the ceiling: sleep, then poll again.
    Continue,
}

/// The decision taken for one observation: branch on the status class and,
/// only on `pending`, compare the elapsed seconds against the ceiling.
pub open spec fn step_decision(status: Seq<char>, elapsed_secs: u64, timeout_secs: u64)
    -> StepDecision {
    match classify_spec(status) {
        StatusClass::Success => StepDecision::Finish,
        StatusClass::Error => StepDecision::FailSubmission,
        StatusClass::Other => StepDecision::FailUnexpected,
        StatusClass::Pending => if elapsed_secs > timeout_secs {
            StepDecision::FailTimeout
        } else {
            StepDecision::Continue
        },
    }
}

/// What one iteration of the polling loop does with a status response.
pub enum PollStep {
    /// Terminal success: the response's result entries.
    Finished(Vec<TransactionStatusResult>),
    /// Terminal failure, with the reason.
    Failed(Error),
    /// Not terminal: suspend for the poll interval, then poll again.
    ContinuePolling,
}

/// One iteration of the polling loop: maps a status response and the elapsed
/// whole seconds since polling began onto the action the loop takes next.
/// The elapsed-time ceiling is consulted only after a `pending` observation.
pub fn poll_step(resp: GetTransactionStatusResponse, elapsed_secs: u64, timeout_secs: u64)
    -> (d: PollStep)
    ensures
        match step_decision(resp.status@, elapsed_secs, timeout_secs) {
            StepDecision::Finish => (d matches PollStep::Finished(r) && r@ == resp.results@),
            StepDecision::FailSubmission => d == PollStep::Failed(
                Error::TransactionSubmissionFailed,
            ),
            StepDecision::FailUnexpected => (d matches PollStep::Failed(e) && e matches
                Error::UnexpectedTransactionStatus(s) && s@ == resp.status@),
            StepDecision::FailTimeout => d == PollStep::Failed(
                Error::TransactionSubmissionTimeout,
            ),
            StepDecision::Continue => d == PollStep::ContinuePolling,
        },
{
    match classify_status(resp.status.as_str()) {
        StatusClass::Success => PollStep::Finished(resp.results),
        StatusClass::Error => PollStep::Failed(Error::TransactionSubmissionFailed),
        StatusClass::Other => PollStep::Failed(
            Error::UnexpectedTransactionStatus(resp.status),
        ),
        StatusClass::Pending => {
            if elapsed_secs > timeout_secs {
                PollStep::Failed(Error::TransactionSubmissionTimeout)
            } else {
                PollStep::ContinuePolling
            }
        },
    }
}

/// The terminal condition of one whole polling run, in the model: how the
/// iterated `step_decision` ends over a given sequence of observations.
pub enum RunOutcome {
    Succeeded,
    SubmissionFailed,
    UnexpectedStatus(Seq<char>),
    TimedOut,
    /// The observation sequence ran out before a terminal decision.
    Exhausted,
}

/// The whole polling loop over a sequence of observations: `statuses[i]` is
/// the status string of the i-th poll and `elapsed[i]` the elapsed whole
/// seconds when it was observed. Returns how many polls are issued and how
/// the run ends.
pub open spec fn run(statuses: Seq<Seq<char>>, elapsed: Seq<u64>, timeout_secs: u64)
    -> (nat, RunOutcome)
    decreases statuses.len(),
{
    if statuses.len() == 0 {
        (0 as nat, RunOutcome::Exhausted)
    } else {
        match step_decision(statuses[0], elapsed[0], timeout_secs) {
            StepDecision::Finish => (1 as nat, RunOutcome::Succeeded),
            StepDecision::FailSubmission => (1 as nat, RunOutcome::SubmissionFailed),
            StepDecision::FailUnexpected => (
                1 as nat,
                RunOutcome::UnexpectedStatus(statuses[0]),
            ),
            StepDecision::FailTimeout => (1 as nat, RunOutcome::TimedOut),
            StepDecision::Continue => {
                let rest = run(statuses.drop_first(), elapsed.drop_first(), timeout_secs);
                ((rest.0 + 1) as nat, rest.1)
            },
        }
    }
}

/// A run over `pending` observations within the ceiling only defers the
/// outcome: the first `k` observations each cost one poll and decide
/// nothing.
proof fn lemma_pending_prefix(
    statuses: Seq<Seq<char>>,
    elapsed: Seq<u64>,
    timeout_secs: u64,
    k: int,
)
    requires
        0 <= k <= statuses.len(),
        elapsed.len() == statuses.len(),
        forall|i: int| 0 <= i < k ==> classify_spec(#[trigger] statuses[i]) is Pending,
        forall|i: int| 0 <= i < k ==> #[trigger] elapsed[i] <= timeout_secs,
    ensures
        run(statuses, elapsed, timeout_secs).0 == run(
            statuses.skip(k),
            elapsed.skip(k),
            timeout_secs,
        ).0 + k,
        run(statuses, elapsed, timeout_secs).1 == run(
            statuses.skip(k),
            elapsed.skip(k),
            timeout_secs,
        ).1,
    decreases k,
{
    if k == 0 {
        assert(statuses.skip(0) =~= statuses);
        assert(elapsed.skip(0) =~= elapsed);
    } else {
        assert(classify_spec(statuses[0]) is Pending);
        assert(elapsed[0] <= timeout_secs);
        assert(forall|i: int|
            0 <= i < k - 1 ==> classify_spec(#[trigger] statuses.drop_first()[i]) is Pending);
        assert(forall|i: int| 0 <= i < k - 1 ==> #[trigger] elapsed.drop_first()[i]
            <= timeout_secs);
        lemma_pending_prefix(statuses.drop_first(), elapsed.drop_first(), timeout_secs, k - 1);
        assert(statuses.drop_first().skip(k - 1) =~= statuses.skip(k));
        assert(elapsed.drop_first().skip(k - 1) =~= elapsed.skip(k));
    }
}

/// For a status sequence of N `pending` observations followed by one
/// `success`, all observed within the ceiling, the machine polls exactly
/// N+1 times and ends the run successfully: the loop body is never entered
/// beyond the N+1st iteration.
pub proof fn lemma_pending_then_success(
    statuses: Seq<Seq<char>>,
    elapsed: Seq<u64>,
    timeout_secs: u64,
    n: int,
)
    requires
        0 <= n,
        statuses.len() == n + 1,
        elapsed.len() == statuses.len(),
        forall|i: int| 0 <= i < n ==> classify_spec(#[trigger] statuses[i]) is Pending,
        classify_spec(statuses[n]) is Success,
        forall|i: int| 0 <= i < n ==> #[trigger] elapsed[i] <= timeout_secs,
    ensures
        run(statuses, elapsed, timeout_secs) == ((n + 1) as nat, RunOutcome::Succeeded),
{
    lemma_pending_prefix(statuses, elapsed, timeout_secs, n);
    assert(statuses.skip(n)[0] == statuses[n]);
    assert(statuses.skip(n).len() == 1);
}

/// For a status sequence whose first non-`pending` observation is `error`
/// at position k (the prefix observed within the ceiling), the machine
/// polls exactly k+1 times and fails the submission.
pub proof fn lemma_error_at(
    statuses: Seq<Seq<char>>,
    elapsed: Seq<u64>,
    timeout_secs: u64,
    k: int,
)
    requires
        0 <= k < statuses.len(),
        elapsed.len() == statuses.len(),
        forall|i: int| 0 <= i < k ==> classify_spec(#[trigger] statuses[i]) is Pending,
        classify_spec(statuses[k]) is Error,
        forall|i: int| 0 <= i < k ==> #[trigger] elapsed[i] <= timeout_secs,
    ensures
        run(statuses, elapsed, timeout_secs) == ((k + 1) as nat, RunOutcome::SubmissionFailed),
{
    lemma_pending_prefix(statuses, elapsed, timeout_secs, k);
    assert(statuses.skip(k)[0] == statuses[k]);
}

/// A status outside the known set at position k (after `pending`
/// observations within the ceiling) terminates the run at once with an
/// unexpected-status outcome carrying that literal string.
pub proof fn lemma_unexpected_at(
    statuses: Seq<Seq<char>>,
    elapsed: Seq<u64>,
    timeout_secs: u64,
    k: int,
)
    requires
        0 <= k < statuses.len(),
        elapsed.len() == statuses.len(),
        forall|i: int| 0 <= i < k ==> classify_spec(#[trigger] statuses[i]) is Pending,
        classify_spec(statuses[k]) is Other,
        forall|i: int| 0 <= i < k ==> #[trigger] elapsed[i] <= timeout_secs,
    ensures
        run(statuses, elapsed, timeout_secs) == (
            (k + 1) as nat,
            RunOutcome::UnexpectedStatus(statuses[k]),
        ),
{
    lemma_pending_prefix(statuses, elapsed, timeout_secs, k);
    assert(statuses.skip(k)[0] == statuses[k]);
}

/// If the elapsed time first exceeds the ceiling at the j-th observation
/// while every status so far is `pending`, the machine fails with a timeout
/// after exactly j+1 polls and issues no further polls.
pub proof fn lemma_timeout_at(
    statuses: Seq<Seq<char>>,
    elapsed: Seq<u64>,
    timeout_secs: u64,
    j: int,
)
    requires
        0 <= j < statuses.len(),
        elapsed.len() == statuses.len(),
        forall|i: int| 0 <= i <= j ==> classify_spec(#[trigger] statuses[i]) is Pending,
        forall|i: int| 0 <= i < j ==> #[trigger] elapsed[i] <= timeout_secs,
        elapsed[j] > timeout_secs,
    ensures
        run(statuses, elapsed, timeout_secs) == ((j + 1) as nat, RunOutcome::TimedOut),
{
    lemma_pending_prefix(statuses, elapsed, timeout_secs, j);
    assert(statuses.skip(j)[0] == statuses[j]);
    assert(elapsed.skip(j)[0] == elapsed[j]);
}

/// The submission acknowledgment is consulted only to short-circuit on an
/// `error` status; any other acknowledgment (including `success`) still
/// leads into the polling loop, which is the authoritative source of the
/// result entries.
pub fn check_acknowledgment(ack: &SendTransactionResponse) -> (r: Result<(), Error>)
    ensures
        r is Err <==> ack.status@ == "error"@,
        r is Err ==> r == Result::<(), Error>::Err(Error::TransactionSubmissionFailed),
{
    if str_eq(ack.status.as_str(), "error") {
        Err(Error::TransactionSubmissionFailed)
    } else {
        Ok(())
    }
}

} // verus!
