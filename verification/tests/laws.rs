use paygate::facilitator::{CommitPaymentArgs, FacilitatorReply, PaymentReceipt};
use paygate::gate::{Admission, ResourceGate, VerificationResult};
use paygate::identity::Identity;
use paygate::model::{PaymentProof, TokenInfo};
use paygate::policy::{ResourcePolicy, ValidationError};

const T0: u64 = 1_700_000_000_000;

fn someone() -> Identity {
    Identity::from_text("2chl6-4hpzw-vqaaa-aaaaa-c").unwrap()
}

fn shopkeeper() -> Identity {
    Identity::from_text("ryjl3-tyaaa-aaaaa-aaaba-cai").unwrap()
}

fn shop() -> ResourceGate {
    let policy = ResourcePolicy::new(
        "premium-data-v1".to_string(),
        1000,
        "exact".to_string(),
        TokenInfo {
            chain: "ICP".to_string(),
            ledger_id: "mxzaz-hqaaa-aaaar-qaada-cai".to_string(),
            symbol: "ckBTC".to_string(),
        },
        Identity::from_text("ogkpr-lyaaa-aaaap-an5fq-cai").unwrap(),
    )
    .unwrap();
    ResourceGate::new(policy, "the data".to_string(), shopkeeper())
}

fn claim(payment_id: &str) -> PaymentProof {
    PaymentProof {
        payment_id: payment_id.to_string(),
        nonce: 1,
        payer: someone(),
        amount: 1000,
        token_ledger: Identity::from_text("mxzaz-hqaaa-aaaar-qaada-cai").unwrap(),
        facilitator_signature: vec![9, 9, 9],
        expiry: T0 + 600_000,
        resource_id: "premium-data-v1".to_string(),
    }
}

fn settled(_args: CommitPaymentArgs) -> FacilitatorReply {
    FacilitatorReply::Settled(PaymentReceipt { height: Some(1), tx_hash: "0x01".to_string() })
}

fn refused(_args: CommitPaymentArgs) -> FacilitatorReply {
    FacilitatorReply::Rejected("already settled elsewhere".to_string())
}

fn must_not_be_called(_args: CommitPaymentArgs) -> FacilitatorReply {
    panic!("the facilitator was asked")
}

#[test]
fn expired_proof_is_expired_whatever_else_is_wrong() {
    let mut gate = shop();
    let mut proof = claim("x");
    proof.expiry = T0 - 1;
    proof.amount = 1;
    proof.resource_id = "other".to_string();
    proof.token_ledger = someone();
    let result = gate.submit_proof(&proof, T0, &someone(), must_not_be_called);
    assert_eq!(result, VerificationResult::Rejected(ValidationError::Expired));
    assert_eq!(gate.consumed_count(), 0);
    assert!(!gate.is_consumed("x"));
}

#[test]
fn wrong_amount_never_reaches_the_facilitator() {
    let mut gate = shop();
    for amount in [0u64, 1, 999, 1001, u64::MAX] {
        let mut proof = claim("payment-0001");
        proof.amount = amount;
        let result = gate.submit_proof(&proof, T0, &someone(), must_not_be_called);
        assert_eq!(result, VerificationResult::Rejected(ValidationError::WrongAmount));
        assert_eq!(gate.consumed_count(), 0);
    }
}

#[test]
fn wrong_amount_on_an_expired_proof_is_reported_as_expired() {
    let mut gate = shop();
    let mut proof = claim("payment-0001");
    proof.amount = 999;
    proof.expiry = T0 - 1;
    let result = gate.submit_proof(&proof, T0, &someone(), must_not_be_called);
    assert_eq!(result, VerificationResult::Rejected(ValidationError::Expired));
}

#[test]
fn payment_id_is_granted_at_most_once_in_a_run() {
    let mut gate = shop();
    let mut granted = 0;
    for round in 0..6u64 {
        let mut proof = claim("payment-0001");
        proof.nonce = round;
        let result = gate.submit_proof(&proof, T0 + round, &someone(), settled);
        if round == 0 {
            assert!(matches!(result, VerificationResult::Granted { .. }));
            granted += 1;
        } else {
            assert_eq!(result, VerificationResult::AlreadyConsumed);
        }
        let other = claim("payment-0002");
        let _ = gate.submit_proof(&other, T0, &someone(), refused);
    }
    assert_eq!(granted, 1);
    assert_eq!(gate.consumed_count(), 2);
}

#[test]
fn spent_payment_id_is_not_offered_to_the_facilitator_again() {
    let mut gate = shop();
    let proof = claim("payment-0001");
    let first = gate.submit_proof(&proof, T0, &someone(), refused);
    assert_eq!(
        first,
        VerificationResult::SettlementRejected("already settled elsewhere".to_string())
    );
    let second = gate.submit_proof(&proof, T0, &someone(), must_not_be_called);
    assert_eq!(second, VerificationResult::AlreadyConsumed);
}

#[test]
fn resubmission_after_the_margin_has_run_out_fails_validation_first() {
    let mut gate = shop();
    let proof = claim("payment-0001");
    let first = gate.submit_proof(&proof, T0, &someone(), refused);
    assert!(matches!(first, VerificationResult::SettlementRejected(_)));
    let late = gate.submit_proof(&proof, T0 + 300_001, &someone(), must_not_be_called);
    assert_eq!(late, VerificationResult::Rejected(ValidationError::ExpiryTooSoon));
    assert_eq!(gate.consumed_count(), 1);
}

#[test]
fn decide_validates_before_it_reserves() {
    let mut gate = shop();
    let mut short = claim("short");
    assert_eq!(gate.decide(&short, T0), Admission::Rejected(ValidationError::MalformedId));
    assert_eq!(gate.consumed_count(), 0);
    short.payment_id = "long-enough".to_string();
    assert_eq!(gate.decide(&short, T0), Admission::Reserved);
    assert_eq!(gate.consumed_count(), 1);
    assert_eq!(gate.decide(&short, T0), Admission::AlreadyConsumed);
    assert_eq!(gate.consumed_count(), 1);
    short.amount = 5;
    assert_eq!(gate.decide(&short, T0), Admission::Rejected(ValidationError::WrongAmount));
}

#[test]
fn asking_for_the_challenge_reserves_nothing() {
    let gate = shop();
    let first = gate.request_resource();
    let second = gate.request_resource();
    assert_eq!(first, second);
    assert_eq!(first.scheme, "exact");
    assert_eq!(first.token.ledger_id, "mxzaz-hqaaa-aaaar-qaada-cai");
    assert_eq!(first.token.chain, "ICP");
    assert_eq!(first.token.symbol, "ckBTC");
    assert_eq!(first.amount, 1000);
    assert_eq!(first.recipient, shopkeeper());
    assert_eq!(
        first.facilitator,
        Identity::from_text("ogkpr-lyaaa-aaaap-an5fq-cai").unwrap()
    );
    assert_eq!(gate.consumed_count(), 0);
    assert_eq!(gate.policy().required_amount(), 1000);
}
