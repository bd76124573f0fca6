use vstd::prelude::*;
use vstd::string::StringExecFns;
use crate::errors::BundleRejectionError;
use crate::events::{BundleResultEvent, RejectionReason, rejection_error, spec_rejection_error};

verus! {

/// What one iteration's bounded await of the result stream yielded. The
/// caller owns the stream and the clock; it reports here what they gave.
#[derive(Debug, Clone)]
pub enum StreamPoll {
    /// An event arrived; `elapsed_ms` is the wall-clock time the whole
    /// iteration took, charged against the remaining budget.
    Delivered { event: BundleResultEvent, elapsed_ms: u64 },
    /// The bounded wait expired before an event arrived.
    TimedOut,
    /// The stream closed.
    Closed,
    /// The stream yielded an error item.
    Faulted,
}

/// The coordinator's decision after one iteration of the wait loop.
#[derive(Debug, Clone)]
pub enum LoopDecision {
    /// Keep waiting, with the budget that remains.
    Continue(u64),
    /// A rejection event resolves the bundle immediately with its typed
    /// error; the remaining budget and the fallback path are skipped.
    Reject(BundleRejectionError),
    /// The window is exhausted or the stream is inconclusive: leave the
    /// loop and poll per-transaction statuses.
    Fallback,
}

/// How the wait loop ended.
#[derive(Debug, Clone, PartialEq, Eq)]
pub enum WaitOutcome {
    /// The engine rejected the bundle while waiting.
    Rejected(BundleRejectionError),
    /// The stream was inconclusive within the window.
    Inconclusive,
}

/// Per-transaction ledger confirmation state at the queried commitment
/// level: the query reported success, a still-pending transaction, or a
/// failure — the transaction failed, no status was found, or the query
/// itself errored or timed out.
#[derive(Debug, Clone, Copy, PartialEq, Eq, Structural)]
pub enum TransactionStatus {
    Succeeded,
    Pending,
    FailedOrUnknown,
}

/// The coordinator's terminal result.
#[derive(Debug, Clone, PartialEq, Eq)]
pub enum ConfirmationOutcome {
    /// Every transaction of the bundle landed; carries the transactions'
    /// identities, in bundle order, for diagnostics.
    Landed(Vec<String>),
    /// The engine rejected the bundle.
    Rejected(BundleRejectionError),
    /// The stream was inconclusive and the fallback could not confirm every
    /// transaction in time.
    NotConfirmed(String),
}

/// The remaining budget after charging one iteration's elapsed time, never
/// below zero.
pub open spec fn spec_decrement(remaining_ms: u64, elapsed_ms: u64) -> u64 {
    if elapsed_ms <= remaining_ms {
        (remaining_ms - elapsed_ms) as u64
    } else {
        0u64
    }
}

/// Charges one iteration's elapsed wall-clock time against the remaining
/// window.
pub fn decrement_budget(remaining_ms: u64, elapsed_ms: u64) -> (r: u64)
    ensures
        r == spec_decrement(remaining_ms, elapsed_ms),
{
    if elapsed_ms <= remaining_ms {
        remaining_ms - elapsed_ms
    } else {
        0
    }
}

/// The rejection reason a poll carries, if any.
pub open spec fn spec_rejection_of(poll: StreamPoll) -> Option<RejectionReason> {
    match poll {
        StreamPoll::Delivered {
            event: BundleResultEvent::Rejected { reason: Option::Some(r) },
            ..
        } => Option::Some(r),
        _ => Option::None,
    }
}

/// One iteration of the wait loop. With no budget left the loop exits to
/// the fallback. A rejection event with a recognized reason resolves
/// immediately. Any other delivered event — an acceptance, a rejection with
/// an empty reason, an unrecognized payload — is ignored and only costs its
/// elapsed time. A timeout, a closed stream or a stream error exits to the
/// fallback.
pub open spec fn spec_step(remaining_ms: u64, poll: StreamPoll) -> LoopDecision {
    if remaining_ms == 0 {
        LoopDecision::Fallback
    } else {
        match poll {
            StreamPoll::Delivered { event, elapsed_ms } => match spec_rejection_of(poll) {
                Option::Some(reason) => LoopDecision::Reject(spec_rejection_error(reason)),
                Option::None => LoopDecision::Continue(spec_decrement(remaining_ms, elapsed_ms)),
            },
            _ => LoopDecision::Fallback,
        }
    }
}

/// Decides one iteration of the wait loop. The budget never rises, and a
/// spent budget never admits another iteration.
pub fn step(remaining_ms: u64, poll: StreamPoll) -> (d: LoopDecision)
    ensures
        d == spec_step(remaining_ms, poll),
        remaining_ms == 0 ==> d == LoopDecision::Fallback,
        d matches LoopDecision::Continue(n) ==> remaining_ms > 0 && n <= remaining_ms,
{
    if remaining_ms == 0 {
        return LoopDecision::Fallback;
    }
    match poll {
        StreamPoll::Delivered { event, elapsed_ms } => match event {
            BundleResultEvent::Rejected { reason: Option::Some(reason) } => LoopDecision::Reject(
                rejection_error(reason),
            ),
            _ => LoopDecision::Continue(decrement_budget(remaining_ms, elapsed_ms)),
        },
        _ => LoopDecision::Fallback,
    }
}

/// The wait loop over a sequence of polls: iterations continue until a
/// rejection resolves the bundle or the loop exits for the fallback; polls
/// past that point are never consumed.
pub open spec fn spec_run_wait(remaining_ms: u64, polls: Seq<StreamPoll>) -> WaitOutcome
    decreases polls.len(),
{
    if polls.len() == 0 {
        WaitOutcome::Inconclusive
    } else {
        match spec_step(remaining_ms, polls[0]) {
            LoopDecision::Continue(n) => spec_run_wait(n, polls.drop_first()),
            LoopDecision::Reject(e) => WaitOutcome::Rejected(e),
            LoopDecision::Fallback => WaitOutcome::Inconclusive,
        }
    }
}

/// Runs the wait loop over the polls a stream yielded, in arrival order.
#[verifier::loop_isolation(false)]
pub fn run_wait_loop(window_ms: u64, polls: Vec<StreamPoll>) -> (r: WaitOutcome)
    ensures
        r == spec_run_wait(window_ms, polls@),
{
    let ghost all = polls@;
    let mut rest = polls;
    let mut remaining: u64 = window_ms;
    loop
        invariant
            spec_run_wait(window_ms, all) == spec_run_wait(remaining, rest@),
        decreases rest@.len(),
    {
        if rest.len() == 0 {
            return WaitOutcome::Inconclusive;
        }
        let ghost before = rest@;
        let p = rest.remove(0);
        proof {
            assert(rest@ =~= before.drop_first());
        }
        match step(remaining, p) {
            LoopDecision::Continue(n) => {
                remaining = n;
            },
            LoopDecision::Reject(e) => {
                return WaitOutcome::Rejected(e);
            },
            LoopDecision::Fallback => {
                return WaitOutcome::Inconclusive;
            },
        }
    }
}

/// All-or-nothing: the fallback confirms the bundle only when every
/// transaction's status query reports success.
pub open spec fn spec_all_succeeded(statuses: Seq<TransactionStatus>) -> bool {
    forall|i: int| 0 <= i < statuses.len() ==> statuses[i] == TransactionStatus::Succeeded
}

pub open spec fn spec_not_confirmed_message() -> Seq<char> {
    "bundle not confirmed in time"@
}

/// The cause an inconclusive confirmation reports. The distinction between
/// a timed-out stream, a transaction that did not land and a status query
/// that errored is deliberately collapsed into this one message.
pub fn not_confirmed_message() -> (r: String)
    ensures
        r@ == spec_not_confirmed_message(),
{
    String::from_str("bundle not confirmed in time")
}

/// Resolves the fallback path. `signatures` are the bundle's transaction
/// identities and `statuses` their polled confirmation states, index for
/// index: exactly the submitted transactions, in bundle order. The bundle
/// lands only if every status reports success — partial landing is total
/// failure — and an empty bundle lands vacuously.
pub fn resolve_fallback(signatures: Vec<String>, statuses: &Vec<TransactionStatus>) -> (r:
    ConfirmationOutcome)
    requires
        signatures@.len() == statuses@.len(),
    ensures
        spec_all_succeeded(statuses@) ==> r == ConfirmationOutcome::Landed(signatures),
        !spec_all_succeeded(statuses@) ==> (r matches ConfirmationOutcome::NotConfirmed(m)
            && m@ == spec_not_confirmed_message()),
{
    let mut i: usize = 0;
    while i < statuses.len()
        invariant
            i <= statuses@.len(),
            forall|j: int| 0 <= j < i ==> statuses@[j] == TransactionStatus::Succeeded,
        decreases statuses@.len() - i,
    {
        let st = statuses[i];
        if !(st == TransactionStatus::Succeeded) {
            return ConfirmationOutcome::NotConfirmed(not_confirmed_message());
        }
        i = i + 1;
    }
    ConfirmationOutcome::Landed(signatures)
}

/// The coordinator's resolution for one submission, over what the stream
/// and the status source yielded: a rejection delivered while budget
/// remained wins outright; otherwise the fallback decides, all-or-nothing.
/// A driver that resolves by rejection never issues the status queries.
pub fn confirm_outcome(
    signatures: Vec<String>,
    window_ms: u64,
    polls: Vec<StreamPoll>,
    statuses: &Vec<TransactionStatus>,
) -> (r: ConfirmationOutcome)
    requires
        signatures@.len() == statuses@.len(),
    ensures
        spec_run_wait(window_ms, polls@) matches WaitOutcome::Rejected(e) ==> r
            == ConfirmationOutcome::Rejected(e),
        spec_run_wait(window_ms, polls@) == WaitOutcome::Inconclusive && spec_all_succeeded(
            statuses@,
        ) ==> r == ConfirmationOutcome::Landed(signatures),
        spec_run_wait(window_ms, polls@) == WaitOutcome::Inconclusive && !spec_all_succeeded(
            statuses@,
        ) ==> (r matches ConfirmationOutcome::NotConfirmed(m) && m@
            == spec_not_confirmed_message()),
{
    match run_wait_loop(window_ms, polls) {
        WaitOutcome::Rejected(e) => ConfirmationOutcome::Rejected(e),
        WaitOutcome::Inconclusive => resolve_fallback(signatures, statuses),
    }
}

/// The budget left when the wait loop exits, under the same charging as
/// `spec_run_wait`.
pub open spec fn spec_remaining_after(remaining_ms: u64, polls: Seq<StreamPoll>) -> u64
    decreases polls.len(),
{
    if polls.len() == 0 {
        remaining_ms
    } else {
        match spec_step(remaining_ms, polls[0]) {
            LoopDecision::Continue(n) => spec_remaining_after(n, polls.drop_first()),
            _ => remaining_ms,
        }
    }
}

/// Law (budget monotonicity, bounded waiting): however the stream behaves,
/// the budget never rises, so the total wall-clock time the loop charges —
/// the window minus the final budget — never exceeds the window it started
/// with, and it never goes negative. With each await bounded by the budget
/// in hand, the coordinator resolves within the window plus per-iteration
/// overhead.
pub proof fn lemma_wait_budget_bounded(window_ms: u64, polls: Seq<StreamPoll>)
    ensures
        spec_remaining_after(window_ms, polls) <= window_ms,
    decreases polls.len(),
{
    if polls.len() > 0 {
        match spec_step(window_ms, polls[0]) {
            LoopDecision::Continue(n) => {
                lemma_wait_budget_bounded(n, polls.drop_first());
            },
            _ => {},
        }
    }
}

/// Law (only rejections resolve the wait): a stream that never delivers a
/// recognized rejection reason leaves the wait inconclusive, whatever else it
/// yields — acceptances and ignored payloads never terminate waiting, so
/// such a run always reaches the fallback.
pub proof fn lemma_no_rejection_is_inconclusive(window_ms: u64, polls: Seq<StreamPoll>)
    requires
        forall|j: int| 0 <= j < polls.len() ==> spec_rejection_of(#[trigger] polls[j]) is None,
    ensures
        spec_run_wait(window_ms, polls) == WaitOutcome::Inconclusive,
    decreases polls.len(),
{
    if polls.len() > 0 {
        match spec_step(window_ms, polls[0]) {
            LoopDecision::Continue(n) => {
                let tail = polls.drop_first();
                assert forall|j: int| 0 <= j < tail.len() implies spec_rejection_of(
                    #[trigger] tail[j],
                ) is None by {
                    assert(tail[j] == polls[j + 1]);
                }
                lemma_no_rejection_is_inconclusive(n, tail);
            },
            LoopDecision::Reject(_) => {
                assert(spec_rejection_of(polls[0]) is None);
                assert(false);
            },
            LoopDecision::Fallback => {},
        }
    }
}

/// The budget in hand when the loop reaches poll `k`, assuming every
/// earlier iteration continued.
pub open spec fn spec_prefix_remaining(window_ms: u64, polls: Seq<StreamPoll>, k: int) -> u64
    decreases k,
{
    if k <= 0 {
        window_ms
    } else {
        match spec_step(spec_prefix_remaining(window_ms, polls, k - 1), polls[k - 1]) {
            LoopDecision::Continue(n) => n,
            _ => 0u64,
        }
    }
}

proof fn lemma_prefix_remaining_shift(window_ms: u64, polls: Seq<StreamPoll>, n: u64, j: int)
    requires
        polls.len() > 0,
        0 <= j < polls.len(),
        spec_step(window_ms, polls[0]) == LoopDecision::Continue(n),
    ensures
        spec_prefix_remaining(window_ms, polls, j + 1) == spec_prefix_remaining(
            n,
            polls.drop_first(),
            j,
        ),
    decreases j,
{
    let tail = polls.drop_first();
    if j == 0 {
        assert(spec_prefix_remaining(window_ms, polls, 0) == window_ms);
        assert(spec_prefix_remaining(n, tail, 0) == n);
    } else {
        lemma_prefix_remaining_shift(window_ms, polls, n, j - 1);
        assert(polls[j] == tail[j - 1]);
        assert(spec_prefix_remaining(window_ms, polls, j + 1) == match spec_step(
            spec_prefix_remaining(window_ms, polls, j),
            polls[j],
        ) {
            LoopDecision::Continue(m) => m,
            _ => 0u64,
        });
        assert(spec_prefix_remaining(n, tail, j) == match spec_step(
            spec_prefix_remaining(n, tail, j - 1),
            tail[j - 1],
        ) {
            LoopDecision::Continue(m) => m,
            _ => 0u64,
        });
    }
}

/// Law (immediate short-circuit on rejection): if the stream delivers a
/// rejection event with a recognized reason while budget remains — every
/// earlier iteration having merely continued — the wait resolves at once
/// with the matching typed error; the outcome is not `Inconclusive`, so the
/// fallback path is never entered and no status query is issued.
pub proof fn lemma_rejection_short_circuits(
    window_ms: u64,
    polls: Seq<StreamPoll>,
    k: int,
    reason: RejectionReason,
)
    requires
        0 <= k < polls.len(),
        forall|j: int|
            0 <= j < k ==> (spec_step(
                #[trigger] spec_prefix_remaining(window_ms, polls, j),
                polls[j],
            ) matches LoopDecision::Continue(_)),
        spec_prefix_remaining(window_ms, polls, k) > 0,
        spec_rejection_of(polls[k]) == Option::Some(reason),
    ensures
        spec_run_wait(window_ms, polls) == WaitOutcome::Rejected(spec_rejection_error(reason)),
    decreases k,
{
    if k == 0 {
        assert(spec_step(window_ms, polls[0]) == LoopDecision::Reject(
            spec_rejection_error(reason),
        ));
    } else {
        assert(spec_prefix_remaining(window_ms, polls, 0) == window_ms);
        assert((spec_step(window_ms, polls[0]) matches LoopDecision::Continue(_)));
        match spec_step(window_ms, polls[0]) {
            LoopDecision::Continue(n0) => {
                let tail = polls.drop_first();
                assert forall|j: int| 0 <= j < k - 1 implies (spec_step(
                    #[trigger] spec_prefix_remaining(n0, tail, j),
                    tail[j],
                ) matches LoopDecision::Continue(_)) by {
                    lemma_prefix_remaining_shift(window_ms, polls, n0, j);
                    assert(tail[j] == polls[j + 1]);
                    assert(spec_prefix_remaining(window_ms, polls, j + 1)
                        == spec_prefix_remaining(n0, tail, j));
                }
                lemma_prefix_remaining_shift(window_ms, polls, n0, k - 1);
                assert(tail[k - 1] == polls[k]);
                lemma_rejection_short_circuits(n0, tail, k - 1, reason);
            },
            _ => {
                assert(false);
            },
        }
    }
}

} // verus!
