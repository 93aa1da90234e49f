use evm_tools::batch::Batch;
use evm_tools::error::{BatchError, FailureKind};
use evm_tools::fees::FeeQuote;
use evm_tools::plan::TransferPlan;
use evm_tools::protocol::{Action, Event, Phase};
use evm_tools::recipient::{parse_recipients, Destination, Recipient};
use evm_tools::report::BatchSummary;
use evm_tools::transfer::{TransferRequest, TransferResult, TransferStatus};

const ALICE: &str = "0x70997970C51812dc3A010C7d01b50e0d17dc79C8";
const BOB: &str = "0x3C44CdDdB6a900fa2b585dd299e03d12FA4293BC";
const CAROL: &str = "0x90F79bf6EB2c4f870365E785982E1f101E93b906";
const BROKEN: &str = "0x90F79bf6EB2c4f87";

const ONE_ETHER: u128 = 1_000_000_000_000_000_000;

fn recipients(lines: &[&str]) -> Vec<Recipient> {
    parse_recipients(&lines.iter().map(|l| l.to_string()).collect())
}

fn address(line: &str) -> Destination {
    Recipient::parse(line.to_string()).destination.unwrap()
}

fn tx(n: u8) -> [u8; 32] {
    [n; 32]
}

/// A batch of `total` wei with a priority fee of 1 that has connected and
/// read a base fee of 10 and the pending count `nonce`.
fn planned(lines: &[&str], total: u128, nonce: u64) -> Batch {
    let mut batch = Batch::new(recipients(lines), total, 1).unwrap();
    assert_eq!(batch.pending(), Action::Connect);
    assert_eq!(batch.step(Event::Connected), Action::QueryFees);
    assert_eq!(
        batch.step(Event::Fees { base_fee: 10, pending_count: nonce }),
        Action::QueryBalance
    );
    batch
}

fn request(to: &str, value: u128, nonce: u128) -> Action {
    Action::Submit(TransferRequest {
        to: address(to),
        value,
        nonce,
        gas_limit: 21_000,
        max_fee_per_gas: 11,
        max_priority_fee_per_gas: 1,
    })
}

fn nonce_of(action: &Action) -> u128 {
    match action {
        Action::Submit(request) => request.nonce,
        other => panic!("no transfer is pending: {other:?}"),
    }
}

#[test]
fn batch_needs_an_amount_and_a_recipient() {
    assert!(matches!(Batch::new(recipients(&[ALICE]), 0, 1), Err(BatchError::InvalidAmount)));
    assert!(matches!(Batch::new(Vec::new(), ONE_ETHER, 1), Err(BatchError::InvalidAmount)));
    assert!(matches!(Batch::new(Vec::new(), 0, 1), Err(BatchError::InvalidAmount)));
    assert!(Batch::new(recipients(&[ALICE]), 1, 0).is_ok());
}

#[test]
fn new_batch_has_learned_nothing() {
    let batch = Batch::new(recipients(&[ALICE, BOB]), ONE_ETHER, 1).unwrap();
    assert_eq!(batch.phase(), Phase::Connecting);
    assert_eq!(batch.pending(), Action::Connect);
    assert_eq!(batch.quote(), None);
    assert_eq!(batch.start_nonce(), None);
    assert_eq!(batch.plan(), None);
    assert_eq!(batch.balance(), None);
    assert!(batch.results().is_empty());
    assert_eq!(batch.recipients().len(), 2);
    assert!(!batch.is_done());
    assert_eq!(
        batch.summary(),
        BatchSummary { recipients: 2, succeeded: 0, failed: 0, fees_paid: 0 }
    );
}

#[test]
fn preflight_runs_in_order() {
    let mut batch = Batch::new(recipients(&[ALICE, BOB]), ONE_ETHER, 1).unwrap();
    assert_eq!(batch.step(Event::Connected), Action::QueryFees);
    assert_eq!(batch.phase(), Phase::Estimating);
    assert_eq!(batch.quote(), None);
    assert_eq!(batch.plan(), None);
    assert_eq!(
        batch.step(Event::Fees { base_fee: 10, pending_count: 7 }),
        Action::QueryBalance
    );
    assert_eq!(batch.phase(), Phase::FetchingBalance);
    assert_eq!(
        batch.quote(),
        Some(FeeQuote { base_fee: 10, priority_fee: 1, max_fee_per_gas: 11 })
    );
    assert_eq!(batch.start_nonce(), Some(7));
    assert_eq!(
        batch.plan(),
        Some(TransferPlan {
            per_recipient_amount: 500_000_000_000_231_000,
            total_required: 1_000_000_000_000_462_000,
            recipient_count: 2,
        })
    );
    assert_eq!(batch.balance(), None);
    let action = batch.step(Event::Balance(2 * ONE_ETHER));
    assert_eq!(action, request(ALICE, 500_000_000_000_231_000, 7));
    assert_eq!(batch.phase(), Phase::Dispatching);
    assert_eq!(batch.balance(), Some(2 * ONE_ETHER));
    assert_eq!(batch.pending(), action);
}

#[test]
fn insufficient_funds_stop_the_batch_before_any_transfer() {
    let mut batch = planned(&[ALICE, BOB], ONE_ETHER, 0);
    let required = batch.plan().unwrap().total_required;
    assert_eq!(required, 2 * (ONE_ETHER / 2 + 11 * 21_000));
    let error = BatchError::InsufficientFunds { balance: required - 1, required };
    assert_eq!(batch.step(Event::Balance(required - 1)), Action::Abort(error));
    assert_eq!(batch.phase(), Phase::Failed(error));
    assert!(batch.is_done());
    assert!(batch.results().is_empty());
    assert_eq!(batch.balance(), None);
    assert_eq!(batch.step(Event::Included { tx: tx(1), effective_fee: 5 }), Action::Abort(error));
    assert_eq!(batch.step(Event::Balance(required)), Action::Abort(error));
    assert!(batch.results().is_empty());
    assert_eq!(
        batch.summary(),
        BatchSummary { recipients: 2, succeeded: 0, failed: 0, fees_paid: 0 }
    );
}

#[test]
fn balance_equal_to_the_total_is_enough() {
    let mut batch = planned(&[ALICE, BOB], ONE_ETHER, 0);
    let required = batch.plan().unwrap().total_required;
    assert_eq!(batch.step(Event::Balance(required)), request(ALICE, required / 2, 0));
}

#[test]
fn endpoint_that_cannot_be_reached_ends_the_batch() {
    let mut batch = Batch::new(recipients(&[ALICE]), ONE_ETHER, 1).unwrap();
    let abort = Action::Abort(BatchError::EndpointUnavailable);
    assert_eq!(batch.step(Event::ConnectFailed), abort);
    assert_eq!(batch.phase(), Phase::Failed(BatchError::EndpointUnavailable));
    assert_eq!(batch.step(Event::Connected), abort);
    assert!(batch.results().is_empty());
}

#[test]
fn failed_query_ends_the_batch() {
    let abort = Action::Abort(BatchError::RpcQueryFailed);

    let mut batch = Batch::new(recipients(&[ALICE]), ONE_ETHER, 1).unwrap();
    batch.step(Event::Connected);
    assert_eq!(batch.step(Event::QueryFailed), abort);
    assert_eq!(batch.phase(), Phase::Failed(BatchError::RpcQueryFailed));
    assert_eq!(batch.quote(), None);
    assert_eq!(batch.plan(), None);

    let mut batch = planned(&[ALICE], ONE_ETHER, 0);
    assert_eq!(batch.step(Event::QueryFailed), abort);
    assert!(batch.is_done());
    assert!(batch.results().is_empty());
}

#[test]
fn fees_that_do_not_fit_end_the_batch() {
    let abort = Action::Abort(BatchError::AmountOverflow);

    let mut batch = Batch::new(recipients(&[ALICE]), ONE_ETHER, 1).unwrap();
    batch.step(Event::Connected);
    assert_eq!(batch.step(Event::Fees { base_fee: u128::MAX, pending_count: 0 }), abort);
    assert_eq!(batch.quote(), None);

    let mut batch = Batch::new(recipients(&[ALICE]), ONE_ETHER, 1).unwrap();
    batch.step(Event::Connected);
    assert_eq!(
        batch.step(Event::Fees { base_fee: u128::MAX / 21_000, pending_count: 0 }),
        abort
    );
    assert_eq!(batch.quote(), None);
    assert_eq!(batch.start_nonce(), None);
    assert!(batch.results().is_empty());
}

#[test]
fn reply_to_another_action_changes_nothing() {
    let mut batch = Batch::new(recipients(&[ALICE]), ONE_ETHER, 1).unwrap();
    for event in [
        Event::Fees { base_fee: 1, pending_count: 1 },
        Event::Balance(1),
        Event::QueryFailed,
        Event::Rejected,
        Event::Reverted,
        Event::Included { tx: tx(1), effective_fee: 1 },
    ] {
        assert_eq!(batch.step(event), Action::Connect);
        assert_eq!(batch.phase(), Phase::Connecting);
    }
    batch.step(Event::Connected);
    assert_eq!(batch.step(Event::Connected), Action::QueryFees);
    assert_eq!(batch.step(Event::Balance(5)), Action::QueryFees);
    assert_eq!(batch.step(Event::Rejected), Action::QueryFees);
    batch.step(Event::Fees { base_fee: 10, pending_count: 3 });
    assert_eq!(
        batch.step(Event::Fees { base_fee: 99, pending_count: 4 }),
        Action::QueryBalance
    );
    assert_eq!(batch.quote().unwrap().base_fee, 10);
    assert_eq!(batch.start_nonce(), Some(3));
    assert_eq!(batch.step(Event::Reverted), Action::QueryBalance);
    let submit = batch.step(Event::Balance(2 * ONE_ETHER));
    for event in [
        Event::Connected,
        Event::ConnectFailed,
        Event::Fees { base_fee: 1, pending_count: 1 },
        Event::Balance(1),
        Event::QueryFailed,
    ] {
        assert_eq!(batch.step(event), submit);
        assert!(batch.results().is_empty());
    }
}

#[test]
fn three_recipients_one_malformed() {
    let mut batch = planned(&[ALICE, BROKEN, CAROL], 3_000, 41);
    let each: u128 = 1_000 + 11 * 21_000;

    let first = batch.step(Event::Balance(ONE_ETHER));
    assert_eq!(first, request(ALICE, each, 41));
    assert!(batch.results().is_empty());

    let second = batch.step(Event::Included { tx: tx(1), effective_fee: 10 });
    assert_eq!(second, request(CAROL, each, 42));
    assert_eq!(batch.results().len(), 2);

    assert_eq!(batch.step(Event::Included { tx: tx(2), effective_fee: 11 }), Action::Finish);
    assert_eq!(batch.phase(), Phase::Finished);
    assert!(batch.is_done());

    assert_eq!(
        batch.results(),
        &vec![
            TransferResult {
                recipient: ALICE.to_string(),
                nonce: Some(41),
                status: TransferStatus::Success { tx: tx(1), effective_fee: 10 },
            },
            TransferResult {
                recipient: BROKEN.to_string(),
                nonce: None,
                status: TransferStatus::Failure(FailureKind::InvalidAddress),
            },
            TransferResult {
                recipient: CAROL.to_string(),
                nonce: Some(42),
                status: TransferStatus::Success { tx: tx(2), effective_fee: 11 },
            },
        ]
    );
    assert_eq!(
        batch.summary(),
        BatchSummary { recipients: 3, succeeded: 2, failed: 1, fees_paid: 21 }
    );
}

#[test]
fn malformed_lines_at_both_ends() {
    let mut batch = planned(&[BROKEN, "0x", ALICE, BROKEN], 4_000, 5);
    assert!(batch.results().is_empty());
    let action = batch.step(Event::Balance(ONE_ETHER));
    assert_eq!(nonce_of(&action), 5);
    assert_eq!(batch.results().len(), 2);
    assert_eq!(batch.step(Event::Rejected), Action::Finish);
    let results = batch.results();
    assert_eq!(results.len(), 4);
    let kinds: Vec<TransferStatus> = results.iter().map(|r| r.status).collect();
    assert_eq!(
        kinds,
        vec![
            TransferStatus::Failure(FailureKind::InvalidAddress),
            TransferStatus::Failure(FailureKind::InvalidAddress),
            TransferStatus::Failure(FailureKind::SubmissionFailed),
            TransferStatus::Failure(FailureKind::InvalidAddress),
        ]
    );
    let nonces: Vec<Option<u128>> = results.iter().map(|r| r.nonce).collect();
    assert_eq!(nonces, vec![None, None, Some(5), None]);
}

#[test]
fn batch_of_malformed_lines_sends_nothing() {
    let mut batch = planned(&[BROKEN, "0xabc"], 2_000, 9);
    assert_eq!(batch.step(Event::Balance(ONE_ETHER)), Action::Finish);
    assert_eq!(batch.phase(), Phase::Finished);
    assert_eq!(batch.results().len(), 2);
    assert!(batch.results().iter().all(|r| r.nonce.is_none()));
    assert_eq!(
        batch.summary(),
        BatchSummary { recipients: 2, succeeded: 0, failed: 2, fees_paid: 0 }
    );
    assert_eq!(batch.step(Event::Rejected), Action::Finish);
    assert_eq!(batch.results().len(), 2);
}

#[test]
fn nonces_count_up_whatever_the_outcomes() {
    let lines = [ALICE, BOB, BROKEN, CAROL, "dave.eth", ALICE];
    let outcomes = [
        Event::Rejected,
        Event::Included { tx: tx(7), effective_fee: 3 },
        Event::Reverted,
        Event::Rejected,
        Event::Included { tx: tx(8), effective_fee: 4 },
    ];
    let mut batch = planned(&lines, 6_000, 100);
    let mut action = batch.step(Event::Balance(ONE_ETHER));
    let mut sent: Vec<u128> = Vec::new();
    for outcome in outcomes {
        sent.push(nonce_of(&action));
        action = batch.step(outcome);
    }
    assert_eq!(action, Action::Finish);
    assert_eq!(sent, vec![100, 101, 102, 103, 104]);

    let results = batch.results();
    assert_eq!(results.len(), lines.len());
    for (result, line) in results.iter().zip(lines) {
        assert_eq!(result.recipient, line);
    }
    let recorded: Vec<u128> = results.iter().filter_map(|r| r.nonce).collect();
    assert_eq!(recorded, sent);
    assert_eq!(results[2].nonce, None);
    assert_eq!(results[3].nonce, Some(102));
    assert_eq!(results[3].status, TransferStatus::Failure(FailureKind::TransactionReverted));
    assert_eq!(results[0].status, TransferStatus::Failure(FailureKind::SubmissionFailed));
    assert_eq!(
        batch.summary(),
        BatchSummary { recipients: 6, succeeded: 2, failed: 4, fees_paid: 7 }
    );
}

#[test]
fn name_is_sent_as_a_name() {
    let mut batch = planned(&["dave.eth"], 1_000, 0);
    let action = batch.step(Event::Balance(ONE_ETHER));
    match action {
        Action::Submit(request) => {
            assert_eq!(request.to, Destination::Name("dave.eth".to_string()));
            assert_eq!(request.value, 1_000 + 231_000);
        }
        other => panic!("unexpected action {other:?}"),
    }
}

#[test]
fn running_count_follows_each_result() {
    let mut batch = planned(&[ALICE, BOB, CAROL], 3_000, 0);
    batch.step(Event::Balance(ONE_ETHER));
    assert_eq!(batch.summary().succeeded + batch.summary().failed, 0);
    batch.step(Event::Included { tx: tx(1), effective_fee: u64::MAX });
    assert_eq!(
        batch.summary(),
        BatchSummary { recipients: 3, succeeded: 1, failed: 0, fees_paid: u64::MAX as u128 }
    );
    batch.step(Event::Reverted);
    assert_eq!(
        batch.summary(),
        BatchSummary { recipients: 3, succeeded: 1, failed: 1, fees_paid: u64::MAX as u128 }
    );
    batch.step(Event::Included { tx: tx(2), effective_fee: u64::MAX });
    let summary = batch.summary();
    assert_eq!(
        summary,
        BatchSummary { recipients: 3, succeeded: 2, failed: 1, fees_paid: 2 * (u64::MAX as u128) }
    );
    assert_eq!(summary.fee_spent(), Some(2 * (u64::MAX as u128) * 21_000));
}

#[test]
fn nonce_may_start_at_the_largest_count() {
    let mut batch = planned(&[ALICE, BOB], 2_000, u64::MAX);
    let first = batch.step(Event::Balance(ONE_ETHER));
    assert_eq!(nonce_of(&first), u64::MAX as u128);
    let second = batch.step(Event::Reverted);
    assert_eq!(nonce_of(&second), u64::MAX as u128 + 1);
}

#[test]
fn failure_kinds_and_nonces() {
    assert!(!FailureKind::InvalidAddress.consumes_nonce());
    assert!(FailureKind::SubmissionFailed.consumes_nonce());
    assert!(FailureKind::TransactionReverted.consumes_nonce());
    assert!(TransferStatus::Success { tx: tx(0), effective_fee: 0 }.is_success());
    assert!(!TransferStatus::Failure(FailureKind::SubmissionFailed).is_success());
}

#[test]
fn fee_spent_is_the_fee_sum_times_the_transfer_gas() {
    let summary = BatchSummary { recipients: 3, succeeded: 2, failed: 1, fees_paid: 21 };
    assert_eq!(summary.fee_spent(), Some(441_000));
    let none = BatchSummary { recipients: 1, succeeded: 0, failed: 1, fees_paid: 0 };
    assert_eq!(none.fee_spent(), Some(0));
    let edge = BatchSummary { recipients: 1, succeeded: 1, failed: 0, fees_paid: u128::MAX / 21_000 };
    assert_eq!(edge.fee_spent(), Some(u128::MAX / 21_000 * 21_000));
    let beyond =
        BatchSummary { recipients: 1, succeeded: 1, failed: 0, fees_paid: u128::MAX / 21_000 + 1 };
    assert_eq!(beyond.fee_spent(), None);
}

#[test]
fn receipt_with_status_zero_is_a_revert() {
    assert_eq!(Event::from_receipt(tx(3), Some(0), Some(12)), Event::Reverted);
    assert_eq!(Event::from_receipt(tx(3), Some(0), None), Event::Reverted);
}

#[test]
fn receipt_of_a_success_carries_hash_and_fee() {
    assert_eq!(
        Event::from_receipt(tx(3), Some(1), Some(12)),
        Event::Included { tx: tx(3), effective_fee: 12 }
    );
    assert_eq!(
        Event::from_receipt(tx(4), None, Some(u64::MAX)),
        Event::Included { tx: tx(4), effective_fee: u64::MAX }
    );
    assert_eq!(
        Event::from_receipt(tx(5), Some(1), None),
        Event::Included { tx: tx(5), effective_fee: 0 }
    );
}
