use paygate::gate::VerificationResult;
use paygate::model::SettlementReference;
use paygate::policy::ValidationError;
use paygate::report::{report, PaymentVerification};

fn failed(message: &str) -> PaymentVerification {
    PaymentVerification {
        success: false,
        block_index: 0,
        transaction_hash: String::new(),
        error: Some(message.to_string()),
        data: None,
    }
}

#[test]
fn grant_is_reported_with_reference_and_resource() {
    let record = report(VerificationResult::Granted {
        resource: "the data".to_string(),
        settlement: SettlementReference {
            block_index: 12345,
            transaction_hash: "0xabc".to_string(),
        },
    });
    assert_eq!(
        record,
        PaymentVerification {
            success: true,
            block_index: 12345,
            transaction_hash: "0xabc".to_string(),
            error: None,
            data: Some("the data".to_string()),
        }
    );
}

#[test]
fn rejection_is_reported_with_the_message_of_its_rule() {
    assert_eq!(
        report(VerificationResult::Rejected(ValidationError::Expired)),
        failed("Payment expired")
    );
    assert_eq!(
        report(VerificationResult::Rejected(ValidationError::WrongAmount)),
        failed("Incorrect payment amount")
    );
}

#[test]
fn replay_is_reported_as_already_consumed() {
    assert_eq!(report(VerificationResult::AlreadyConsumed), failed("Payment already consumed"));
}

#[test]
fn facilitator_failures_are_reported_with_their_detail() {
    assert_eq!(
        report(VerificationResult::FacilitatorUnreachable("SysTransient - timeout".to_string())),
        failed("Facilitator error: Inter-canister call failed: SysTransient - timeout")
    );
    assert_eq!(
        report(VerificationResult::SettlementRejected("insufficient allowance".to_string())),
        failed("Facilitator error: Settlement failed: insufficient allowance")
    );
}
