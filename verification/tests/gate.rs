use paygate::facilitator::{CommitPaymentArgs, FacilitatorReply, PaymentReceipt};
use paygate::gate::{ResourceGate, SubmissionStep, VerificationResult};
use paygate::identity::Identity;
use paygate::model::{PaymentProof, SettlementReference, TokenInfo};
use paygate::policy::{ResourcePolicy, ValidationError};

const NOW: u64 = 1_700_000_000_000;

fn ledger() -> Identity {
    Identity::from_bytes(vec![0, 0, 0, 0, 2, 48, 0, 6, 1, 1]).unwrap()
}

fn facilitator() -> Identity {
    Identity::from_bytes(vec![0, 0, 0, 0, 1, 224, 55, 165, 1, 1]).unwrap()
}

fn merchant() -> Identity {
    Identity::from_bytes(vec![0, 0, 0, 0, 0, 0, 0, 7, 1, 1]).unwrap()
}

fn payer() -> Identity {
    Identity::from_bytes(vec![1, 2, 3, 4, 5, 6, 7, 8, 9, 10, 11, 12, 2]).unwrap()
}

fn gate() -> ResourceGate {
    let token = TokenInfo {
        chain: "ICP".to_string(),
        ledger_id: ledger().to_text(),
        symbol: "ckBTC".to_string(),
    };
    let policy = ResourcePolicy::new(
        "premium-data-v1".to_string(),
        1000,
        "exact".to_string(),
        token,
        facilitator(),
    )
    .unwrap();
    ResourceGate::new(policy, "{\"network_health\":\"optimal\"}".to_string(), merchant())
}

fn payment(payment_id: &str, amount: u64) -> PaymentProof {
    PaymentProof {
        payment_id: payment_id.to_string(),
        nonce: 42,
        payer: payer(),
        amount,
        token_ledger: ledger(),
        facilitator_signature: vec![1, 2, 3, 4],
        expiry: NOW + 600_000,
        resource_id: "premium-data-v1".to_string(),
    }
}

fn settles(_args: CommitPaymentArgs) -> FacilitatorReply {
    FacilitatorReply::Settled(PaymentReceipt { height: Some(12345), tx_hash: "0xabc".to_string() })
}

fn times_out(_args: CommitPaymentArgs) -> FacilitatorReply {
    FacilitatorReply::Unreachable("SysTransient - timeout".to_string())
}

#[test]
fn valid_proof_is_granted_with_its_settlement_reference() {
    let mut gate = gate();
    let challenge = gate.request_resource();
    assert_eq!(challenge.amount, 1000);
    assert_eq!(challenge.recipient, merchant());
    assert_eq!(challenge.facilitator, facilitator());
    assert_eq!(gate.consumed_count(), 0);

    let result = gate.submit_proof(&payment("payment-0001", 1000), NOW, &payer(), settles);
    assert_eq!(
        result,
        VerificationResult::Granted {
            resource: "{\"network_health\":\"optimal\"}".to_string(),
            settlement: SettlementReference {
                block_index: 12345,
                transaction_hash: "0xabc".to_string(),
            },
        }
    );
    assert_eq!(gate.consumed_count(), 1);
    assert!(gate.is_consumed("payment-0001"));
}

#[test]
fn resubmitted_proof_is_already_consumed() {
    let mut gate = gate();
    let proof = payment("payment-0001", 1000);
    let first = gate.submit_proof(&proof, NOW, &payer(), settles);
    assert!(matches!(first, VerificationResult::Granted { .. }));
    let second = gate.submit_proof(&proof, NOW, &payer(), settles);
    assert_eq!(second, VerificationResult::AlreadyConsumed);
    assert_eq!(gate.consumed_count(), 1);
}

#[test]
fn wrong_amount_leaves_the_count_as_it_was() {
    let mut gate = gate();
    let first = gate.submit_proof(&payment("payment-0001", 1000), NOW, &payer(), settles);
    assert!(matches!(first, VerificationResult::Granted { .. }));
    let before = gate.consumed_count();
    let result = gate.submit_proof(&payment("payment-0002", 999), NOW, &payer(), settles);
    assert_eq!(result, VerificationResult::Rejected(ValidationError::WrongAmount));
    assert_eq!(gate.consumed_count(), before);
    assert!(!gate.is_consumed("payment-0002"));
}

#[test]
fn timeout_after_reservation_burns_the_payment_id() {
    let mut gate = gate();
    let proof = payment("payment-0003", 1000);
    let first = gate.submit_proof(&proof, NOW, &payer(), times_out);
    assert_eq!(
        first,
        VerificationResult::FacilitatorUnreachable("SysTransient - timeout".to_string())
    );
    assert!(gate.is_consumed("payment-0003"));
    let second = gate.submit_proof(&proof, NOW, &payer(), settles);
    assert_eq!(second, VerificationResult::AlreadyConsumed);
    assert_eq!(gate.consumed_count(), 1);
}

#[test]
fn two_phase_submission_matches_the_one_shot_form() {
    let mut gate = gate();
    let proof = payment("payment-0004", 1000);
    let step = gate.begin_submission(&proof, NOW, &payer());
    let (callee, args, reservation) = match step {
        SubmissionStep::Settle { facilitator, args, reservation } => {
            (facilitator, args, reservation)
        }
        SubmissionStep::Done(result) => panic!("ended early: {:?}", result),
    };
    assert_eq!(callee, facilitator());
    assert_eq!(reservation.payment_id(), "payment-0004");
    assert_eq!(args.payment_expectation.amount, 1000);
    assert_eq!(args.payment_expectation.token, ledger());
    assert_eq!(args.payment_expectation.caller, payer());
    assert_eq!(args.payment_expectation.merchant_account.owner, merchant());
    assert_eq!(args.payment_expectation.merchant_account.subaccount, None);
    assert!(gate.is_consumed("payment-0004"));
    let result = gate.conclude_submission(
        reservation,
        FacilitatorReply::Rejected("insufficient allowance".to_string()),
    );
    assert_eq!(result, VerificationResult::SettlementRejected("insufficient allowance".to_string()));
    assert!(gate.is_consumed("payment-0004"));
}

#[test]
fn challenge_and_settlement_name_the_same_merchant() {
    let mut gate = gate();
    assert_eq!(gate.merchant(), &merchant());
    let challenge = gate.request_resource();
    assert_eq!(challenge.recipient, merchant());
    assert_ne!(challenge.recipient, payer());
    let step = gate.begin_submission(&payment("payment-0005", 1000), NOW, &payer());
    match step {
        SubmissionStep::Settle { args, .. } => {
            assert_eq!(args.payment_expectation.merchant_account.owner, challenge.recipient);
            assert_eq!(args.payment_expectation.caller, payer());
        }
        SubmissionStep::Done(result) => panic!("ended early: {:?}", result),
    }
}

#[test]
fn total_form_of_the_local_part_agrees_on_signatures_that_fit() {
    let mut one = gate();
    let mut other = gate();
    let valid = payment("payment-0006", 1000);
    assert_eq!(
        one.try_begin_submission(&valid, NOW, &payer()),
        Some(other.begin_submission(&valid, NOW, &payer()))
    );
    assert_eq!(one.consumed_count(), 1);
    let replayed = one.try_begin_submission(&valid, NOW, &payer());
    assert_eq!(replayed, Some(SubmissionStep::Done(VerificationResult::AlreadyConsumed)));
    let wrong = one.try_begin_submission(&payment("payment-0007", 1), NOW, &payer());
    assert_eq!(
        wrong,
        Some(SubmissionStep::Done(VerificationResult::Rejected(ValidationError::WrongAmount)))
    );
    assert_eq!(one.consumed_count(), 1);
}
