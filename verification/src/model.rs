//! The messages of the protocol: challenge, proof, settlement reference.

use crate::identity::Identity;
use vstd::prelude::*;

verus! {

/// The asset in which a payment is made.
#[derive(Debug, PartialEq, Eq)]
pub struct TokenInfo {
    /// The chain that the ledger lives on.
    pub chain: String,
    /// The ledger's identity, in textual form.
    pub ledger_id: String,
    /// The asset's ticker symbol.
    pub symbol: String,
}

/// What a `TokenInfo` says.
pub struct TokenInfoView {
    pub chain: Seq<char>,
    pub ledger_id: Seq<char>,
    pub symbol: Seq<char>,
}

impl View for TokenInfo {
    type V = TokenInfoView;

    open spec fn view(&self) -> TokenInfoView {
        TokenInfoView { chain: self.chain@, ledger_id: self.ledger_id@, symbol: self.symbol@ }
    }
}

impl Clone for TokenInfo {
    fn clone(&self) -> (copy: TokenInfo)
        ensures
            copy@ == self@,
    {
        TokenInfo {
            chain: self.chain.clone(),
            ledger_id: self.ledger_id.clone(),
            symbol: self.symbol.clone(),
        }
    }
}

/// The answer to a request that carried no proof: how much to pay, in which
/// asset, to whom, and which facilitator settles it.
#[derive(Debug, PartialEq, Eq)]
pub struct Challenge {
    /// The payment scheme.
    pub scheme: String,
    /// The asset to pay in.
    pub token: TokenInfo,
    /// The amount to pay, in the asset's smallest unit.
    pub amount: u64,
    /// Who receives the payment.
    pub recipient: Identity,
    /// The facilitator that settles the payment.
    pub facilitator: Identity,
}

/// What a `Challenge` says.
pub struct ChallengeView {
    pub scheme: Seq<char>,
    pub token: TokenInfoView,
    pub amount: u64,
    pub recipient: Seq<u8>,
    pub facilitator: Seq<u8>,
}

impl View for Challenge {
    type V = ChallengeView;

    open spec fn view(&self) -> ChallengeView {
        ChallengeView {
            scheme: self.scheme@,
            token: self.token@,
            amount: self.amount,
            recipient: self.recipient@,
            facilitator: self.facilitator@,
        }
    }
}

impl Clone for Challenge {
    fn clone(&self) -> (copy: Challenge)
        ensures
            copy@ == self@,
    {
        Challenge {
            scheme: self.scheme.clone(),
            token: self.token.clone(),
            amount: self.amount,
            recipient: self.recipient.clone(),
            facilitator: self.facilitator.clone(),
        }
    }
}

/// The response to a request that carried no proof: a status code and
/// message, and the challenge to meet.
#[derive(Debug, PartialEq, Eq)]
pub struct ErrorResponse {
    pub code: String,
    pub message: String,
    pub x402: Challenge,
}

/// What an `ErrorResponse` says.
pub struct ErrorResponseView {
    pub code: Seq<char>,
    pub message: Seq<char>,
    pub x402: ChallengeView,
}

impl View for ErrorResponse {
    type V = ErrorResponseView;

    open spec fn view(&self) -> ErrorResponseView {
        ErrorResponseView { code: self.code@, message: self.message@, x402: self.x402@ }
    }
}

/// The status code of a response that asks for payment.
pub open spec fn payment_required_code() -> Seq<char> {
    "402"@
}

impl ErrorResponse {
    /// The response that asks for the payment that `challenge` describes.
    pub fn payment_required(challenge: Challenge) -> (response: ErrorResponse)
        ensures
            response@ == (ErrorResponseView {
                code: payment_required_code(),
                message: "Payment Required"@,
                x402: challenge@,
            }),
    {
        ErrorResponse {
            code: "402".to_owned(),
            message: "Payment Required".to_owned(),
            x402: challenge,
        }
    }

    /// Whether this response asks for payment.
    pub fn asks_for_payment(&self) -> (asks: bool)
        ensures
            asks == (self@.code == payment_required_code()),
    {
        self.code == "402".to_owned()
    }
}

/// The evidence of a payment that a caller submits to unlock the resource.
#[derive(Debug, PartialEq, Eq)]
pub struct PaymentProof {
    /// Names this payment attempt; spent at most once.
    pub payment_id: String,
    /// The payer's uniqueness token.
    pub nonce: u64,
    /// Who paid.
    pub payer: Identity,
    /// The amount that was paid.
    pub amount: u64,
    /// The ledger of the asset that was paid in.
    pub token_ledger: Identity,
    /// The facilitator's authorization, as opaque bytes.
    pub facilitator_signature: Vec<u8>,
    /// The time, in milliseconds, after which the proof is void.
    pub expiry: u64,
    /// The resource that the payment was made for.
    pub resource_id: String,
}

/// What a `PaymentProof` says.
pub struct PaymentProofView {
    pub payment_id: Seq<char>,
    pub nonce: u64,
    pub payer: Seq<u8>,
    pub amount: u64,
    pub token_ledger: Seq<u8>,
    pub facilitator_signature: Seq<u8>,
    pub expiry: u64,
    pub resource_id: Seq<char>,
}

impl View for PaymentProof {
    type V = PaymentProofView;

    open spec fn view(&self) -> PaymentProofView {
        PaymentProofView {
            payment_id: self.payment_id@,
            nonce: self.nonce,
            payer: self.payer@,
            amount: self.amount,
            token_ledger: self.token_ledger@,
            facilitator_signature: self.facilitator_signature@,
            expiry: self.expiry,
            resource_id: self.resource_id@,
        }
    }
}

/// Where a settled payment can be found: the ledger's block and the
/// transaction's hash.
#[derive(Debug, PartialEq, Eq)]
pub struct SettlementReference {
    pub block_index: u64,
    pub transaction_hash: String,
}

/// What a `SettlementReference` says.
pub struct SettlementReferenceView {
    pub block_index: u64,
    pub transaction_hash: Seq<char>,
}

impl View for SettlementReference {
    type V = SettlementReferenceView;

    open spec fn view(&self) -> SettlementReferenceView {
        SettlementReferenceView {
            block_index: self.block_index,
            transaction_hash: self.transaction_hash@,
        }
    }
}

} // verus!
