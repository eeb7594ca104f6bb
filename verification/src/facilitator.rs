//! The facilitator client: what is sent to the settlement authority, and
//! what its answer means.

use crate::identity::{principal_to_text, Identity};
use crate::model::{PaymentProof, PaymentProofView, SettlementReference, SettlementReferenceView};
use crate::policy::{ResourcePolicy, ResourcePolicyView};
use crate::text::{
    decimal_string, decimal_text, is_quotable, json_string, json_string_literal, quotable_len,
};
use vstd::prelude::*;
use vstd::string::StringExecFns;
use vstd::utf8::encode_utf8;

verus! {

/// The account that a payment goes to.
#[derive(Debug, PartialEq, Eq)]
pub struct Account {
    pub owner: Identity,
    pub subaccount: Option<Vec<u8>>,
}

/// What an `Account` says.
pub struct AccountView {
    pub owner: Seq<u8>,
    pub subaccount: Option<Seq<u8>>,
}

impl View for Account {
    type V = AccountView;

    open spec fn view(&self) -> AccountView {
        AccountView {
            owner: self.owner@,
            subaccount: match self.subaccount {
                Some(bytes) => Some(bytes@),
                None => None,
            },
        }
    }
}

/// The settlement that the resource gate expects, stated by the resource gate itself.
#[derive(Debug, PartialEq, Eq)]
pub struct PaymentExpectation {
    /// Who asks for the verification.
    pub caller: Identity,
    /// The account that must receive the funds.
    pub merchant_account: Account,
    /// The amount that must arrive.
    pub amount: u64,
    /// The ledger of the asset that must be paid in.
    pub token: Identity,
}

/// What a `PaymentExpectation` says.
pub struct PaymentExpectationView {
    pub caller: Seq<u8>,
    pub merchant_account: AccountView,
    pub amount: u64,
    pub token: Seq<u8>,
}

impl View for PaymentExpectation {
    type V = PaymentExpectationView;

    open spec fn view(&self) -> PaymentExpectationView {
        PaymentExpectationView {
            caller: self.caller@,
            merchant_account: self.merchant_account@,
            amount: self.amount,
            token: self.token@,
        }
    }
}

/// The arguments of the settlement call.
#[derive(Debug, PartialEq, Eq)]
pub struct CommitPaymentArgs {
    /// The payer's claimed authorization, as JSON text.
    pub payment_payload: String,
    /// What the resource gate expects of the settlement.
    pub payment_expectation: PaymentExpectation,
}

/// What `CommitPaymentArgs` say.
pub struct CommitPaymentArgsView {
    pub payment_payload: Seq<char>,
    pub payment_expectation: PaymentExpectationView,
}

impl View for CommitPaymentArgs {
    type V = CommitPaymentArgsView;

    open spec fn view(&self) -> CommitPaymentArgsView {
        CommitPaymentArgsView {
            payment_payload: self.payment_payload@,
            payment_expectation: self.payment_expectation@,
        }
    }
}

/// The facilitator's confirmation of a settlement.
#[derive(Debug, PartialEq, Eq)]
pub struct PaymentReceipt {
    /// The block in which the payment settled, where its index fits 64 bits.
    pub height: Option<u64>,
    /// The hash of the settling transaction.
    pub tx_hash: String,
}

/// What a `PaymentReceipt` says.
pub struct PaymentReceiptView {
    pub height: Option<u64>,
    pub tx_hash: Seq<char>,
}

impl View for PaymentReceipt {
    type V = PaymentReceiptView;

    open spec fn view(&self) -> PaymentReceiptView {
        PaymentReceiptView { height: self.height, tx_hash: self.tx_hash@ }
    }
}

/// The authorization that a payer claims to hold.
#[derive(Debug, PartialEq, Eq)]
pub struct IcpPayloadAuthorization {
    pub scheme: String,
    /// The ledger of the asset, in textual form.
    pub asset: String,
    /// The party that the authorization was given to, in textual form.
    pub to: String,
    /// The amount, in decimal.
    pub value: String,
    pub expires_at: u64,
    pub nonce: u64,
}

/// What an `IcpPayloadAuthorization` says.
pub struct IcpPayloadAuthorizationView {
    pub scheme: Seq<char>,
    pub asset: Seq<char>,
    pub to: Seq<char>,
    pub value: Seq<char>,
    pub expires_at: u64,
    pub nonce: u64,
}

impl View for IcpPayloadAuthorization {
    type V = IcpPayloadAuthorizationView;

    open spec fn view(&self) -> IcpPayloadAuthorizationView {
        IcpPayloadAuthorizationView {
            scheme: self.scheme@,
            asset: self.asset@,
            to: self.to@,
            value: self.value@,
            expires_at: self.expires_at,
            nonce: self.nonce,
        }
    }
}

/// The payload that carries a proof's claims to the facilitator.
#[derive(Debug, PartialEq, Eq)]
pub struct IcpPayload {
    /// The facilitator's signature, in base64.
    pub signature: String,
    pub authorization: IcpPayloadAuthorization,
}

/// What an `IcpPayload` says.
pub struct IcpPayloadView {
    pub signature: Seq<char>,
    pub authorization: IcpPayloadAuthorizationView,
}

impl View for IcpPayload {
    type V = IcpPayloadView;

    open spec fn view(&self) -> IcpPayloadView {
        IcpPayloadView { signature: self.signature@, authorization: self.authorization@ }
    }
}

/// The standard base64 text of `bytes`, padded with `=`.
pub uninterp spec fn base64_standard(bytes: Seq<u8>) -> Seq<char>;

/// Whether a signature of `len` bytes is short enough to be carried in a
/// payload: its base64 text, of four characters for every three bytes,
/// rounded up, must be short enough to be written as a JSON string.
pub open spec fn encodable_len(len: nat) -> bool {
    quotable_len(len / 3 * 4 + 4)
}

/// Calls `base64::Engine::encode` on the `STANDARD` engine, which panics
/// only where the text is too long to be allocated. The contract claims that
/// the text is a function of the bytes alone, and that it has no more bytes
/// than four for every three bytes of input, rounded up.
#[verifier::external_body]
fn base64_encode(bytes: &Vec<u8>) -> (text: String)
    requires
        bytes@.len() / 3 * 4 + 4 <= isize::MAX,
    ensures
        text@ == base64_standard(bytes@),
        encode_utf8(text@).len() <= bytes@.len() / 3 * 4 + 4,
{
    base64::Engine::encode(&base64::engine::general_purpose::STANDARD, bytes)
}

/// Whether `bytes` are few enough to be carried as a signature.
pub fn is_encodable(bytes: &Vec<u8>) -> (fits: bool)
    ensures
        fits == encodable_len(bytes@.len()),
{
    bytes.len() / 3 <= (isize::MAX as usize - 52) / 48
}

/// Whether every string of the payload is short enough to be written as a
/// JSON string.
pub open spec fn writable(payload: IcpPayloadView) -> bool {
    &&& quotable_len(encode_utf8(payload.signature).len())
    &&& quotable_len(encode_utf8(payload.authorization.scheme).len())
    &&& quotable_len(encode_utf8(payload.authorization.asset).len())
    &&& quotable_len(encode_utf8(payload.authorization.to).len())
    &&& quotable_len(encode_utf8(payload.authorization.value).len())
}

/// The JSON object of an authorization, given its members as JSON values.
pub open spec fn authorization_frame(
    scheme: Seq<char>,
    asset: Seq<char>,
    to: Seq<char>,
    value: Seq<char>,
    expires_at: u64,
    nonce: u64,
) -> Seq<char> {
    "{\"scheme\":"@ + scheme + ",\"asset\":"@ + asset + ",\"to\":"@ + to + ",\"value\":"@ + value
        + ",\"expires_at\":"@ + decimal_text(expires_at as nat) + ",\"nonce\":"@ + decimal_text(
        nonce as nat,
    ) + "}"@
}

/// The JSON object of a payload, given its members as JSON values.
pub open spec fn payload_frame(signature: Seq<char>, authorization: Seq<char>) -> Seq<char> {
    "{\"signature\":"@ + signature + ",\"authorization\":"@ + authorization + "}"@
}

/// The JSON text of a payload: its strings as JSON string literals, its
/// numbers in decimal, members in the order of declaration, no white space.
pub open spec fn payload_json(payload: IcpPayloadView) -> Seq<char> {
    payload_frame(
        json_string_literal(payload.signature),
        authorization_frame(
            json_string_literal(payload.authorization.scheme),
            json_string_literal(payload.authorization.asset),
            json_string_literal(payload.authorization.to),
            json_string_literal(payload.authorization.value),
            payload.authorization.expires_at,
            payload.authorization.nonce,
        ),
    )
}

/// The payload that carries the claims of `proof`, made out to `caller`
/// under `scheme`.
pub open spec fn payload_for(
    proof: PaymentProofView,
    scheme: Seq<char>,
    caller: Seq<u8>,
) -> IcpPayloadView {
    IcpPayloadView {
        signature: base64_standard(proof.facilitator_signature),
        authorization: IcpPayloadAuthorizationView {
            scheme,
            asset: principal_to_text(proof.token_ledger),
            to: principal_to_text(caller),
            value: decimal_text(proof.amount as nat),
            expires_at: proof.expiry,
            nonce: proof.nonce,
        },
    }
}

/// What the resource gate expects of a settlement for a resource under
/// `policy`, asked for by `caller` and owed to `merchant`: the policy's
/// price in the policy's asset, whatever a proof may claim.
pub open spec fn expectation_for(
    policy: ResourcePolicyView,
    caller: Seq<u8>,
    merchant: Seq<u8>,
) -> PaymentExpectationView
    recommends
        policy.expected_ledger is Some,
{
    PaymentExpectationView {
        caller,
        merchant_account: AccountView { owner: merchant, subaccount: None },
        amount: policy.required_amount,
        token: policy.expected_ledger->0,
    }
}

/// The arguments of the settlement call for `proof`.
pub open spec fn commit_args_for(
    proof: PaymentProofView,
    policy: ResourcePolicyView,
    caller: Seq<u8>,
    merchant: Seq<u8>,
) -> CommitPaymentArgsView
    recommends
        policy.expected_ledger is Some,
{
    CommitPaymentArgsView {
        payment_payload: payload_json(payload_for(proof, policy.scheme, caller)),
        payment_expectation: expectation_for(policy, caller, merchant),
    }
}

/// Writes the JSON object of an authorization around its members, which are
/// JSON values already.
pub fn frame_authorization(
    scheme: &str,
    asset: &str,
    to: &str,
    value: &str,
    expires_at: u64,
    nonce: u64,
) -> (text: String)
    ensures
        text@ == authorization_frame(scheme@, asset@, to@, value@, expires_at, nonce),
{
    let mut text = "{\"scheme\":".to_owned();
    text.append(scheme);
    text.append(",\"asset\":");
    text.append(asset);
    text.append(",\"to\":");
    text.append(to);
    text.append(",\"value\":");
    text.append(value);
    text.append(",\"expires_at\":");
    text.append(decimal_string(expires_at).as_str());
    text.append(",\"nonce\":");
    text.append(decimal_string(nonce).as_str());
    text.append("}");
    text
}

/// Writes the JSON object of a payload around its members, which are JSON
/// values already.
pub fn frame_payload(signature: &str, authorization: &str) -> (text: String)
    ensures
        text@ == payload_frame(signature@, authorization@),
{
    let mut text = "{\"signature\":".to_owned();
    text.append(signature);
    text.append(",\"authorization\":");
    text.append(authorization);
    text.append("}");
    text
}

impl IcpPayload {
    /// The payload that carries the claims of `proof`, made out to `caller`.
    pub fn for_proof(proof: &PaymentProof, scheme: &str, caller: &Identity) -> (payload: IcpPayload)
        requires
            encodable_len(proof@.facilitator_signature.len()),
            quotable_len(encode_utf8(scheme@).len()),
        ensures
            payload@ == payload_for(proof@, scheme@, caller@),
            writable(payload@),
    {
        IcpPayload {
            signature: base64_encode(&proof.facilitator_signature),
            authorization: IcpPayloadAuthorization {
                scheme: scheme.to_owned(),
                asset: proof.token_ledger.to_text(),
                to: caller.to_text(),
                value: decimal_string(proof.amount),
                expires_at: proof.expiry,
                nonce: proof.nonce,
            },
        }
    }

    /// Whether every string of this payload is short enough to be written
    /// as a JSON string.
    pub fn is_writable(&self) -> (fits: bool)
        ensures
            fits == writable(self@),
    {
        is_quotable(self.signature.as_str()) && is_quotable(self.authorization.scheme.as_str())
            && is_quotable(self.authorization.asset.as_str()) && is_quotable(
            self.authorization.to.as_str(),
        ) && is_quotable(self.authorization.value.as_str())
    }

    /// This payload as JSON text.
    pub fn to_json(&self) -> (text: String)
        requires
            writable(self@),
        ensures
            text@ == payload_json(self@),
    {
        let authorization = frame_authorization(
            json_string(self.authorization.scheme.as_str()).as_str(),
            json_string(self.authorization.asset.as_str()).as_str(),
            json_string(self.authorization.to.as_str()).as_str(),
            json_string(self.authorization.value.as_str()).as_str(),
            self.authorization.expires_at,
            self.authorization.nonce,
        );
        frame_payload(json_string(self.signature.as_str()).as_str(), authorization.as_str())
    }
}

/// Builds the settlement call for `proof`: the payload carries what the
/// proof claims, the expectation states what the policy asks. There is none
/// where the policy expects no ledger.
pub fn settlement_request(
    policy: &ResourcePolicy,
    proof: &PaymentProof,
    caller: &Identity,
    merchant: &Identity,
) -> (args: Option<CommitPaymentArgs>)
    requires
        encodable_len(proof@.facilitator_signature.len()),
    ensures
        match args {
            Some(a) => policy@.expected_ledger is Some && a@ == commit_args_for(
                proof@,
                policy@,
                caller@,
                merchant@,
            ),
            None => policy@.expected_ledger is None,
        },
{
    match policy.expected_ledger() {
        Some(ledger) => {
            let payload = IcpPayload::for_proof(proof, policy.scheme(), caller);
            Some(
                CommitPaymentArgs {
                    payment_payload: payload.to_json(),
                    payment_expectation: PaymentExpectation {
                        caller: caller.clone(),
                        merchant_account: Account { owner: merchant.clone(), subaccount: None },
                        amount: policy.required_amount(),
                        token: ledger.clone(),
                    },
                },
            )
        },
        None => None,
    }
}

/// How a settlement call ended.
#[derive(Debug, PartialEq, Eq)]
pub enum FacilitatorReply {
    /// The call did not get through, or its answer could not be read; the
    /// text says what the transport reported.
    Unreachable(String),
    /// The facilitator refused to settle, for the reason given.
    Rejected(String),
    /// The facilitator settled the payment.
    Settled(PaymentReceipt),
}

/// What a `FacilitatorReply` says.
pub enum FacilitatorReplyView {
    Unreachable(Seq<char>),
    Rejected(Seq<char>),
    Settled(PaymentReceiptView),
}

impl View for FacilitatorReply {
    type V = FacilitatorReplyView;

    open spec fn view(&self) -> FacilitatorReplyView {
        match *self {
            FacilitatorReply::Unreachable(detail) => FacilitatorReplyView::Unreachable(detail@),
            FacilitatorReply::Rejected(reason) => FacilitatorReplyView::Rejected(reason@),
            FacilitatorReply::Settled(receipt) => FacilitatorReplyView::Settled(receipt@),
        }
    }
}

/// Why a payment was not verified.
#[derive(Debug, PartialEq, Eq)]
pub enum FailureReason {
    /// The facilitator could not be reached.
    FacilitatorUnreachable(String),
    /// The facilitator refused to settle.
    SettlementRejected(String),
}

/// What a `FailureReason` says.
pub enum FailureReasonView {
    FacilitatorUnreachable(Seq<char>),
    SettlementRejected(Seq<char>),
}

impl View for FailureReason {
    type V = FailureReasonView;

    open spec fn view(&self) -> FailureReasonView {
        match *self {
            FailureReason::FacilitatorUnreachable(detail) => FailureReasonView::FacilitatorUnreachable(
                detail@,
            ),
            FailureReason::SettlementRejected(reason) => FailureReasonView::SettlementRejected(
                reason@,
            ),
        }
    }
}

/// The result of a settlement call, in one shape for every ending.
#[derive(Debug, PartialEq, Eq)]
pub struct VerificationOutcome {
    pub success: bool,
    /// Present exactly on success.
    pub settlement_reference: Option<SettlementReference>,
    /// Present exactly on failure.
    pub failure_reason: Option<FailureReason>,
}

/// What a `VerificationOutcome` says.
pub struct VerificationOutcomeView {
    pub success: bool,
    pub settlement_reference: Option<SettlementReferenceView>,
    pub failure_reason: Option<FailureReasonView>,
}

impl View for VerificationOutcome {
    type V = VerificationOutcomeView;

    open spec fn view(&self) -> VerificationOutcomeView {
        VerificationOutcomeView {
            success: self.success,
            settlement_reference: match self.settlement_reference {
                Some(reference) => Some(reference@),
                None => None,
            },
            failure_reason: match self.failure_reason {
                Some(reason) => Some(reason@),
                None => None,
            },
        }
    }
}

/// The settlement reference that a receipt gives: its block index, or zero
/// where that index does not fit 64 bits, and its transaction hash.
pub open spec fn reference_of(receipt: PaymentReceiptView) -> SettlementReferenceView {
    SettlementReferenceView {
        block_index: match receipt.height {
            Some(height) => height,
            None => 0,
        },
        transaction_hash: receipt.tx_hash,
    }
}

/// The outcome that a reply stands for.
pub open spec fn outcome_of(reply: FacilitatorReplyView) -> VerificationOutcomeView {
    match reply {
        FacilitatorReplyView::Unreachable(detail) => VerificationOutcomeView {
            success: false,
            settlement_reference: None,
            failure_reason: Some(FailureReasonView::FacilitatorUnreachable(detail)),
        },
        FacilitatorReplyView::Rejected(reason) => VerificationOutcomeView {
            success: false,
            settlement_reference: None,
            failure_reason: Some(FailureReasonView::SettlementRejected(reason)),
        },
        FacilitatorReplyView::Settled(receipt) => VerificationOutcomeView {
            success: true,
            settlement_reference: Some(reference_of(receipt)),
            failure_reason: None,
        },
    }
}

/// Maps the ending of a settlement call to its outcome: a transport failure
/// to `FacilitatorUnreachable`, a refusal to `SettlementRejected`, a
/// settlement to success with its reference.
pub fn interpret_reply(reply: FacilitatorReply) -> (outcome: VerificationOutcome)
    ensures
        outcome@ == outcome_of(reply@),
        outcome.success <==> outcome.settlement_reference is Some,
        !outcome.success <==> outcome.failure_reason is Some,
{
    match reply {
        FacilitatorReply::Unreachable(detail) => VerificationOutcome {
            success: false,
            settlement_reference: None,
            failure_reason: Some(FailureReason::FacilitatorUnreachable(detail)),
        },
        FacilitatorReply::Rejected(reason) => VerificationOutcome {
            success: false,
            settlement_reference: None,
            failure_reason: Some(FailureReason::SettlementRejected(reason)),
        },
        FacilitatorReply::Settled(receipt) => {
            let block_index = match receipt.height {
                Some(height) => height,
                None => 0,
            };
            VerificationOutcome {
                success: true,
                settlement_reference: Some(
                    SettlementReference { block_index, transaction_hash: receipt.tx_hash },
                ),
                failure_reason: None,
            }
        },
    }
}

/// Has `facilitator` verify the payment that `proof` claims: builds the
/// settlement call, makes it once, and maps its ending to the outcome.
/// Nothing is asked where the policy expects no ledger.
pub fn verify<F: FnOnce(CommitPaymentArgs) -> FacilitatorReply>(
    policy: &ResourcePolicy,
    proof: &PaymentProof,
    caller: &Identity,
    merchant: &Identity,
    facilitator: F,
) -> (outcome: Option<VerificationOutcome>)
    requires
        encodable_len(proof@.facilitator_signature.len()),
        forall|args: CommitPaymentArgs| facilitator.requires((args,)),
    ensures
        match outcome {
            Some(o) => policy@.expected_ledger is Some && exists|
                args: CommitPaymentArgs,
                reply: FacilitatorReply,
            |
                {
                    &&& args@ == commit_args_for(proof@, policy@, caller@, merchant@)
                    &&& #[trigger] facilitator.ensures((args,), reply)
                    &&& o@ == outcome_of(reply@)
                },
            None => policy@.expected_ledger is None,
        },
        outcome matches Some(o) ==> (o.success <==> o.settlement_reference is Some) && (!o.success
            <==> o.failure_reason is Some),
{
    match settlement_request(policy, proof, caller, merchant) {
        Some(args) => Some(interpret_reply(facilitator(args))),
        None => None,
    }
}

} // verus!
