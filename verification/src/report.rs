//! The flat record in which the end of a submission is handed to a caller.

use crate::gate::{VerificationResult, VerificationResultView};
use crate::policy::validation_message;
use crate::text::join;
use vstd::prelude::*;

verus! {

/// The end of a submission as a record: success with the settlement
/// reference and the resource, or failure with a message.
#[derive(Debug, PartialEq, Eq)]
pub struct PaymentVerification {
    pub success: bool,
    /// The block of the settlement; zero on failure.
    pub block_index: u64,
    /// The hash of the settling transaction; empty on failure.
    pub transaction_hash: String,
    /// Why the submission failed; absent on success.
    pub error: Option<String>,
    /// The resource; present on success.
    pub data: Option<String>,
}

/// What a `PaymentVerification` says.
pub struct PaymentVerificationView {
    pub success: bool,
    pub block_index: u64,
    pub transaction_hash: Seq<char>,
    pub error: Option<Seq<char>>,
    pub data: Option<Seq<char>>,
}

impl View for PaymentVerification {
    type V = PaymentVerificationView;

    open spec fn view(&self) -> PaymentVerificationView {
        PaymentVerificationView {
            success: self.success,
            block_index: self.block_index,
            transaction_hash: self.transaction_hash@,
            error: match self.error {
                Some(text) => Some(text@),
                None => None,
            },
            data: match self.data {
                Some(data) => Some(data@),
                None => None,
            },
        }
    }
}

/// The record of a failure with this message.
pub open spec fn failure_record(message: Seq<char>) -> PaymentVerificationView {
    PaymentVerificationView {
        success: false,
        block_index: 0,
        transaction_hash: Seq::empty(),
        error: Some(message),
        data: None,
    }
}

/// The record that stands for `result`.
pub open spec fn record_of(result: VerificationResultView) -> PaymentVerificationView {
    match result {
        VerificationResultView::Granted { resource, settlement } => PaymentVerificationView {
            success: true,
            block_index: settlement.block_index,
            transaction_hash: settlement.transaction_hash,
            error: None,
            data: Some(resource),
        },
        VerificationResultView::Rejected(rule) => failure_record(validation_message(rule)),
        VerificationResultView::AlreadyConsumed => failure_record("Payment already consumed"@),
        VerificationResultView::FacilitatorUnreachable(detail) => failure_record(
            "Facilitator error: Inter-canister call failed: "@ + detail,
        ),
        VerificationResultView::SettlementRejected(reason) => failure_record(
            "Facilitator error: Settlement failed: "@ + reason,
        ),
    }
}

fn failure(message: String) -> (record: PaymentVerification)
    ensures
        record@ == failure_record(message@),
{
    PaymentVerification {
        success: false,
        block_index: 0,
        transaction_hash: String::new(),
        error: Some(message),
        data: None,
    }
}

/// Writes the end of a submission as a record.
pub fn report(result: VerificationResult) -> (record: PaymentVerification)
    ensures
        record@ == record_of(result@),
        record.success <==> result is Granted,
        record.error is None <==> result is Granted,
{
    match result {
        VerificationResult::Granted { resource, settlement } => PaymentVerification {
            success: true,
            block_index: settlement.block_index,
            transaction_hash: settlement.transaction_hash,
            error: None,
            data: Some(resource),
        },
        VerificationResult::Rejected(rule) => failure(rule.message().to_owned()),
        VerificationResult::AlreadyConsumed => failure("Payment already consumed".to_owned()),
        VerificationResult::FacilitatorUnreachable(detail) => failure(
            join("Facilitator error: Inter-canister call failed: ", detail.as_str()),
        ),
        VerificationResult::SettlementRejected(reason) => failure(
            join("Facilitator error: Settlement failed: ", reason.as_str()),
        ),
    }
}

} // verus!
