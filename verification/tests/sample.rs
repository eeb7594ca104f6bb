use paygate::facilitator::{CommitPaymentArgs, FacilitatorReply, PaymentReceipt};
use paygate::gate::{ResourceGate, VerificationResult};
use paygate::identity::Identity;
use paygate::model::{PaymentProof, TokenInfo};
use paygate::policy::{ResourcePolicy, ValidationError};
use paygate::sample::{sample_proof, SampleProfile};

const T0: u64 = 1_700_000_000_000;

fn someone() -> Identity {
    Identity::from_text("2chl6-4hpzw-vqaaa-aaaaa-c").unwrap()
}

fn terms(ledger_id: &str) -> ResourcePolicy {
    ResourcePolicy::new(
        "premium-data-v1".to_string(),
        1000,
        "exact".to_string(),
        TokenInfo {
            chain: "ICP".to_string(),
            ledger_id: ledger_id.to_string(),
            symbol: "ckBTC".to_string(),
        },
        Identity::from_text("ogkpr-lyaaa-aaaap-an5fq-cai").unwrap(),
    )
    .unwrap()
}

fn settled(_args: CommitPaymentArgs) -> FacilitatorReply {
    FacilitatorReply::Settled(PaymentReceipt { height: Some(7), tx_hash: "0x07".to_string() })
}

#[test]
fn secure_sample_has_the_shortest_accepted_lifetime() {
    let policy = terms("mxzaz-hqaaa-aaaar-qaada-cai");
    let sample = sample_proof(SampleProfile::Secure, &policy, T0, &someone()).unwrap();
    assert_eq!(
        sample,
        PaymentProof {
            payment_id: "test_payment_1700000000000".to_string(),
            nonce: 42,
            payer: someone(),
            amount: 1000,
            token_ledger: Identity::from_text("mxzaz-hqaaa-aaaar-qaada-cai").unwrap(),
            facilitator_signature: vec![1, 2, 3, 4],
            expiry: T0 + 300_000,
            resource_id: "premium-data-v1".to_string(),
        }
    );
    assert_eq!(policy.validate(&sample, T0), Ok(()));
    assert_eq!(policy.validate(&sample, T0 + 1), Err(ValidationError::ExpiryTooSoon));
}

#[test]
fn production_sample_lives_twice_as_long() {
    let policy = terms("mxzaz-hqaaa-aaaar-qaada-cai");
    let sample = sample_proof(SampleProfile::Production, &policy, T0, &someone()).unwrap();
    assert_eq!(sample.payment_id, "prod_payment_1700000000000");
    assert_eq!(sample.nonce, 100);
    assert_eq!(sample.facilitator_signature, vec![5, 6, 7, 8, 9, 10]);
    assert_eq!(sample.expiry, T0 + 600_000);
    assert_eq!(policy.validate(&sample, T0), Ok(()));
    assert_eq!(policy.validate(&sample, T0 + 300_000), Ok(()));
}

#[test]
fn sample_is_granted_once() {
    let policy = terms("mxzaz-hqaaa-aaaar-qaada-cai");
    let sample = sample_proof(SampleProfile::Production, &policy, T0, &someone()).unwrap();
    let mut gate = ResourceGate::new(policy, "the data".to_string(), someone());
    let first = gate.submit_proof(&sample, T0, &someone(), settled);
    assert!(matches!(first, VerificationResult::Granted { .. }));
    let second = gate.submit_proof(&sample, T0, &someone(), settled);
    assert_eq!(second, VerificationResult::AlreadyConsumed);
}

#[test]
fn sample_under_a_policy_without_ledger_names_the_payer_and_is_rejected() {
    let policy = terms("mxzaz-hqmqe-cnarv-dqu6p-osn6o-42zio-q4u4l-q4k2l-q4n2l-q4h2l-76z");
    let sample = sample_proof(SampleProfile::Secure, &policy, T0, &someone()).unwrap();
    assert_eq!(sample.token_ledger, someone());
    assert_eq!(policy.validate(&sample, T0), Err(ValidationError::WrongLedger));
}

#[test]
fn no_sample_at_the_end_of_time() {
    let policy = terms("mxzaz-hqaaa-aaaar-qaada-cai");
    assert_eq!(sample_proof(SampleProfile::Secure, &policy, u64::MAX - 299_999, &someone()), None);
    assert!(sample_proof(SampleProfile::Secure, &policy, u64::MAX - 300_000, &someone()).is_some());
    assert_eq!(
        sample_proof(SampleProfile::Production, &policy, u64::MAX - 300_000, &someone()),
        None
    );
}
