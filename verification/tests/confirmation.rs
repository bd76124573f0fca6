use searcher_client::coordinator::{
    confirm_outcome, decrement_budget, not_confirmed_message, resolve_fallback, run_wait_loop,
    step, ConfirmationOutcome, LoopDecision, StreamPoll, TransactionStatus, WaitOutcome,
};
use searcher_client::errors::BundleRejectionError;
use searcher_client::events::{BundleResultEvent, RejectionReason};

fn accepted(slot: u64) -> StreamPoll {
    StreamPoll::Delivered {
        event: BundleResultEvent::Accepted { slot, validator_identity: String::from("validator") },
        elapsed_ms: 3,
    }
}

fn simulation_failure(sig: &str, msg: Option<&str>) -> StreamPoll {
    StreamPoll::Delivered {
        event: BundleResultEvent::Rejected {
            reason: Some(RejectionReason::SimulationFailure {
                tx_signature: String::from(sig),
                msg: msg.map(String::from),
            }),
        },
        elapsed_ms: 1,
    }
}

#[test]
fn scenario_accepted_then_all_landed() {
    // Bundle of 2; the stream reports an acceptance at slot 10 and closes;
    // both status queries confirm: the bundle landed, and the outcome carries
    // both identities for diagnostics.
    let signatures = vec![String::from("sig-one"), String::from("sig-two")];
    let polls = vec![accepted(10), StreamPoll::Closed];
    let statuses = vec![TransactionStatus::Succeeded, TransactionStatus::Succeeded];
    let outcome = confirm_outcome(signatures.clone(), 5000, polls, &statuses);
    assert_eq!(outcome, ConfirmationOutcome::Landed(signatures));
}

#[test]
fn scenario_rejected_short_circuits() {
    // The stream reports a simulation failure: the matching typed error
    // resolves the bundle at once; the wait loop alone already rejects, so a
    // driver never reaches the status queries.
    let polls = vec![simulation_failure("abc", Some("insufficient funds"))];
    let wait = run_wait_loop(5000, polls);
    assert_eq!(
        wait,
        WaitOutcome::Rejected(BundleRejectionError::SimulationFailure(
            String::from("abc"),
            Some(String::from("insufficient funds")),
        ))
    );

    let signatures = vec![String::from("sig-one"), String::from("sig-two")];
    let polls = vec![simulation_failure("abc", Some("insufficient funds"))];
    let statuses = vec![TransactionStatus::FailedOrUnknown, TransactionStatus::FailedOrUnknown];
    let outcome = confirm_outcome(signatures, 5000, polls, &statuses);
    assert_eq!(
        outcome,
        ConfirmationOutcome::Rejected(BundleRejectionError::SimulationFailure(
            String::from("abc"),
            Some(String::from("insufficient funds")),
        ))
    );
}

#[test]
fn scenario_silent_stream_falls_back() {
    // The stream stays silent until the bounded wait expires; the fallback
    // decides: all confirmed lands, one failure does not.
    let signatures = vec![String::from("sig-one"), String::from("sig-two")];
    let polls = vec![StreamPoll::TimedOut];
    let statuses = vec![TransactionStatus::Succeeded, TransactionStatus::Succeeded];
    let outcome = confirm_outcome(signatures.clone(), 1000, polls, &statuses);
    assert_eq!(outcome, ConfirmationOutcome::Landed(signatures.clone()));

    let polls = vec![StreamPoll::TimedOut];
    let statuses = vec![TransactionStatus::Succeeded, TransactionStatus::FailedOrUnknown];
    let outcome = confirm_outcome(signatures, 1000, polls, &statuses);
    match outcome {
        ConfirmationOutcome::NotConfirmed(msg) => {
            assert_eq!(msg, String::from("bundle not confirmed in time"));
        }
        other => panic!("expected NotConfirmed, got {:?}", other),
    }
}

#[test]
fn fallback_is_all_or_nothing() {
    let sigs = vec![String::from("a"), String::from("b"), String::from("c")];
    let all_good = vec![
        TransactionStatus::Succeeded,
        TransactionStatus::Succeeded,
        TransactionStatus::Succeeded,
    ];
    assert_eq!(
        resolve_fallback(sigs.clone(), &all_good),
        ConfirmationOutcome::Landed(sigs.clone())
    );

    let one_pending = vec![
        TransactionStatus::Succeeded,
        TransactionStatus::Pending,
        TransactionStatus::Succeeded,
    ];
    assert!(matches!(
        resolve_fallback(sigs, &one_pending),
        ConfirmationOutcome::NotConfirmed(_)
    ));
}

#[test]
fn empty_bundle_lands_vacuously() {
    // Documented policy: a zero-transaction bundle's fallback succeeds
    // vacuously.
    let outcome = resolve_fallback(Vec::new(), &Vec::new());
    assert_eq!(outcome, ConfirmationOutcome::Landed(Vec::new()));
}

#[test]
fn budget_decrement_saturates() {
    assert_eq!(decrement_budget(1000, 300), 700);
    assert_eq!(decrement_budget(300, 300), 0);
    assert_eq!(decrement_budget(100, 300), 0);
    assert_eq!(decrement_budget(0, 0), 0);
}

#[test]
fn spent_budget_admits_no_iteration() {
    // Once the budget reaches zero the loop exits without consuming an
    // event, even a rejection.
    assert!(matches!(step(0, accepted(1)), LoopDecision::Fallback));
    assert!(matches!(
        step(0, simulation_failure("abc", None)),
        LoopDecision::Fallback
    ));
    let polls = vec![simulation_failure("abc", None)];
    assert_eq!(run_wait_loop(0, polls), WaitOutcome::Inconclusive);
}

#[test]
fn budget_runs_down_across_iterations() {
    // Two ignored events cost 60ms each out of a 100ms window; the third
    // poll finds the budget spent and the loop exits to the fallback even
    // though a rejection was next.
    let slow_accept = |slot: u64| StreamPoll::Delivered {
        event: BundleResultEvent::Accepted { slot, validator_identity: String::from("v") },
        elapsed_ms: 60,
    };
    let polls = vec![slow_accept(1), slow_accept(2), simulation_failure("abc", None)];
    assert_eq!(run_wait_loop(100, polls), WaitOutcome::Inconclusive);

    // With a roomier window the same stream resolves by rejection.
    let polls = vec![slow_accept(1), slow_accept(2), simulation_failure("abc", None)];
    assert!(matches!(run_wait_loop(200, polls), WaitOutcome::Rejected(_)));
}

#[test]
fn ignored_events_keep_waiting() {
    // Acceptances, empty rejections and unrecognized payloads are ignored;
    // a closed or errored stream is inconclusive.
    let polls = vec![
        accepted(7),
        StreamPoll::Delivered {
            event: BundleResultEvent::Rejected { reason: None },
            elapsed_ms: 1,
        },
        StreamPoll::Delivered { event: BundleResultEvent::Unrecognized, elapsed_ms: 1 },
        StreamPoll::Faulted,
    ];
    assert_eq!(run_wait_loop(5000, polls), WaitOutcome::Inconclusive);
}

#[test]
fn rejection_reasons_map_to_typed_errors() {
    let polls = vec![StreamPoll::Delivered {
        event: BundleResultEvent::Rejected {
            reason: Some(RejectionReason::StateAuctionBidRejected {
                auction_id: String::from("auction-1"),
                simulated_bid_lamports: 42,
                msg: Some(String::from("outbid")),
            }),
        },
        elapsed_ms: 1,
    }];
    assert_eq!(
        run_wait_loop(5000, polls),
        WaitOutcome::Rejected(BundleRejectionError::StateAuctionBidRejected(
            String::from("auction-1"),
            42,
        ))
    );

    let polls = vec![StreamPoll::Delivered {
        event: BundleResultEvent::Rejected {
            reason: Some(RejectionReason::WinningBatchBidRejected {
                auction_id: String::from("auction-2"),
                simulated_bid_lamports: 7,
                msg: None,
            }),
        },
        elapsed_ms: 1,
    }];
    assert_eq!(
        run_wait_loop(5000, polls),
        WaitOutcome::Rejected(BundleRejectionError::WinningBatchBidRejected(
            String::from("auction-2"),
            7,
        ))
    );

    let polls = vec![StreamPoll::Delivered {
        event: BundleResultEvent::Rejected {
            reason: Some(RejectionReason::InternalError { msg: String::from("boom") }),
        },
        elapsed_ms: 1,
    }];
    assert_eq!(
        run_wait_loop(5000, polls),
        WaitOutcome::Rejected(BundleRejectionError::InternalError(String::from("boom")))
    );
}

#[test]
fn not_confirmed_message_text() {
    assert_eq!(not_confirmed_message(), String::from("bundle not confirmed in time"));
}
