//! The resource gate: challenge on request, and on a submitted proof
//! validation, reservation and settlement, in that order.

use crate::facilitator::{
    commit_args_for, encodable_len, interpret_reply, is_encodable, reference_of,
    settlement_request,
    CommitPaymentArgs, CommitPaymentArgsView, FacilitatorReply, FacilitatorReplyView,
    FailureReason,
};
use crate::identity::Identity;
use crate::model::{
    Challenge, ChallengeView, PaymentProof, PaymentProofView, SettlementReference,
    SettlementReferenceView,
};
use crate::policy::{
    first_violation, ResourcePolicy, ResourcePolicyView, ValidationError, MIN_TTL_MS,
};
use crate::replay::ReplayGuard;
use vstd::prelude::*;

verus! {

/// How the submission of a proof ended.
#[derive(Debug, PartialEq, Eq)]
pub enum VerificationResult {
    /// The payment settled: the resource, and where the settlement is found.
    Granted { resource: String, settlement: SettlementReference },
    /// The proof broke a rule; nothing was reserved.
    Rejected(ValidationError),
    /// The payment identifier was spent before.
    AlreadyConsumed,
    /// The facilitator could not be reached; the payment identifier is spent.
    FacilitatorUnreachable(String),
    /// The facilitator refused to settle; the payment identifier is spent.
    SettlementRejected(String),
}

/// What a `VerificationResult` says.
pub enum VerificationResultView {
    Granted { resource: Seq<char>, settlement: SettlementReferenceView },
    Rejected(ValidationError),
    AlreadyConsumed,
    FacilitatorUnreachable(Seq<char>),
    SettlementRejected(Seq<char>),
}

impl View for VerificationResult {
    type V = VerificationResultView;

    open spec fn view(&self) -> VerificationResultView {
        match *self {
            VerificationResult::Granted { resource, settlement } => VerificationResultView::Granted {
                resource: resource@,
                settlement: settlement@,
            },
            VerificationResult::Rejected(rule) => VerificationResultView::Rejected(rule),
            VerificationResult::AlreadyConsumed => VerificationResultView::AlreadyConsumed,
            VerificationResult::FacilitatorUnreachable(detail) => {
                VerificationResultView::FacilitatorUnreachable(detail@)
            },
            VerificationResult::SettlementRejected(reason) => {
                VerificationResultView::SettlementRejected(reason@)
            },
        }
    }
}

/// A payment identifier that a resource gate has reserved for a submission
/// whose settlement is under way. Only `begin_submission` makes one, and
/// `conclude_submission` uses it up, so that one reservation ends in one
/// result. Its view is the payment identifier.
#[derive(Debug, PartialEq, Eq)]
pub struct Reservation {
    payment_id: String,
}

impl View for Reservation {
    type V = Seq<char>;

    closed spec fn view(&self) -> Seq<char> {
        self.payment_id@
    }
}

impl Reservation {
    /// The payment identifier that is reserved.
    pub fn payment_id(&self) -> (payment_id: &str)
        ensures
            payment_id@ == self@,
    {
        self.payment_id.as_str()
    }
}

/// Where a submission stands once the resource gate has done its local part.
#[derive(Debug, PartialEq, Eq)]
pub enum SubmissionStep {
    /// The submission is over; no settlement is asked for.
    Done(VerificationResult),
    /// The payment identifier is reserved, and `facilitator` is to be
    /// called with these arguments.
    Settle { facilitator: Identity, args: CommitPaymentArgs, reservation: Reservation },
}

/// What a `SubmissionStep` says.
pub enum SubmissionStepView {
    Done(VerificationResultView),
    Settle { facilitator: Seq<u8>, args: CommitPaymentArgsView, reservation: Seq<char> },
}

impl View for SubmissionStep {
    type V = SubmissionStepView;

    open spec fn view(&self) -> SubmissionStepView {
        match *self {
            SubmissionStep::Done(result) => SubmissionStepView::Done(result@),
            SubmissionStep::Settle { facilitator, args, reservation } => {
                SubmissionStepView::Settle {
                    facilitator: facilitator@,
                    args: args@,
                    reservation: reservation@,
                }
            },
        }
    }
}

/// What the resource gate decides about a proof before any settlement.
#[derive(Debug, Clone, Copy, PartialEq, Eq, Structural)]
pub enum Admission {
    /// The proof breaks this rule.
    Rejected(ValidationError),
    /// The proof is valid, and its payment identifier was spent before.
    AlreadyConsumed,
    /// The proof is valid and its payment identifier is fresh: the
    /// identifier is spent on it.
    Reserved,
}

/// The decision on `proof` at time `now`, where `consumed` are the payment
/// identifiers spent so far: validation first, the replay check second.
pub open spec fn admission(
    consumed: Set<Seq<char>>,
    policy: ResourcePolicyView,
    proof: PaymentProofView,
    now: u64,
) -> Admission {
    match first_violation(proof, policy, now) {
        Some(rule) => Admission::Rejected(rule),
        None => if consumed.contains(proof.payment_id) {
            Admission::AlreadyConsumed
        } else {
            Admission::Reserved
        },
    }
}

/// The payment identifiers that are spent once `proof` has been submitted.
pub open spec fn consumed_after(
    consumed: Set<Seq<char>>,
    policy: ResourcePolicyView,
    proof: PaymentProofView,
    now: u64,
) -> Set<Seq<char>> {
    if admission(consumed, policy, proof, now) is Reserved {
        consumed.insert(proof.payment_id)
    } else {
        consumed
    }
}

/// The result of a submission whose settlement call ended with `reply`, for
/// a resource gate that guards `resource`: the grant where the payment
/// settled, the failure otherwise.
pub open spec fn result_of(
    reply: FacilitatorReplyView,
    resource: Seq<char>,
) -> VerificationResultView {
    match reply {
        FacilitatorReplyView::Settled(receipt) => VerificationResultView::Granted {
            resource,
            settlement: reference_of(receipt),
        },
        FacilitatorReplyView::Rejected(reason) => VerificationResultView::SettlementRejected(
            reason,
        ),
        FacilitatorReplyView::Unreachable(detail) => VerificationResultView::FacilitatorUnreachable(
            detail,
        ),
    }
}

/// The resource gate in front of one resource, run by the merchant who is
/// paid for it. Its view is what it holds: the terms, the resource, the
/// merchant, and the payment identifiers that are spent.
pub struct ResourceGate {
    policy: ResourcePolicy,
    resource: String,
    merchant: Identity,
    guard: ReplayGuard,
}

/// What a `ResourceGate` holds.
pub struct ResourceGateView {
    /// The terms of the resource.
    pub policy: ResourcePolicyView,
    /// The protected resource itself.
    pub resource: Seq<char>,
    /// The merchant: the party that payments for the resource go to.
    pub merchant: Seq<u8>,
    /// The payment identifiers that are spent.
    pub consumed: Set<Seq<char>>,
}

impl View for ResourceGate {
    type V = ResourceGateView;

    closed spec fn view(&self) -> ResourceGateView {
        ResourceGateView {
            policy: self.policy@,
            resource: self.resource@,
            merchant: self.merchant@,
            consumed: self.guard@,
        }
    }
}

/// The challenge that a resource gate answers an unpaid request with: the
/// policy's price in the policy's asset, to be paid to the merchant and
/// settled by the policy's facilitator.
pub open spec fn challenge_of(gate: ResourceGateView) -> ChallengeView {
    ChallengeView {
        scheme: gate.policy.scheme,
        token: gate.policy.token,
        amount: gate.policy.required_amount,
        recipient: gate.merchant,
        facilitator: gate.policy.facilitator,
    }
}

/// A resource gate once `proof` has been submitted to it at time `now`:
/// nothing but the spent payment identifiers changes.
pub open spec fn gate_after(
    gate: ResourceGateView,
    proof: PaymentProofView,
    now: u64,
) -> ResourceGateView {
    ResourceGateView { consumed: consumed_after(gate.consumed, gate.policy, proof, now), ..gate }
}

/// Where the submission of `proof` by `caller` at time `now` stands after
/// its local part: over, for a proof that breaks a rule or whose payment
/// identifier is spent; else waiting for the settlement call to the
/// policy's facilitator, with the merchant as the party to be paid.
pub open spec fn submission_step(
    gate: ResourceGateView,
    proof: PaymentProofView,
    now: u64,
    caller: Seq<u8>,
) -> SubmissionStepView {
    match admission(gate.consumed, gate.policy, proof, now) {
        Admission::Rejected(rule) => SubmissionStepView::Done(
            VerificationResultView::Rejected(rule),
        ),
        Admission::AlreadyConsumed => SubmissionStepView::Done(
            VerificationResultView::AlreadyConsumed,
        ),
        Admission::Reserved => SubmissionStepView::Settle {
            facilitator: gate.policy.facilitator,
            args: commit_args_for(proof, gate.policy, caller, gate.merchant),
            reservation: proof.payment_id,
        },
    }
}

/// How the submission of `proof` at time `now` ends, where `reply` is how
/// the settlement call ends if one is made.
pub open spec fn submission_result(
    gate: ResourceGateView,
    proof: PaymentProofView,
    now: u64,
    reply: FacilitatorReplyView,
) -> VerificationResultView {
    match admission(gate.consumed, gate.policy, proof, now) {
        Admission::Rejected(rule) => VerificationResultView::Rejected(rule),
        Admission::AlreadyConsumed => VerificationResultView::AlreadyConsumed,
        Admission::Reserved => result_of(reply, gate.resource),
    }
}

impl ResourceGate {
    /// A gate in front of `resource`, under `policy`, run by `merchant`,
    /// with nothing spent yet.
    pub fn new(policy: ResourcePolicy, resource: String, merchant: Identity) -> (gate: ResourceGate)
        ensures
            gate@ == (ResourceGateView {
                policy: policy@,
                resource: resource@,
                merchant: merchant@,
                consumed: Set::empty(),
            }),
    {
        ResourceGate { policy, resource, merchant, guard: ReplayGuard::new() }
    }

    /// The challenge for this resource: payment goes to the merchant.
    /// Nothing is spent or reserved by asking.
    pub fn request_resource(&self) -> (challenge: Challenge)
        ensures
            challenge@ == challenge_of(self@),
            challenge@.recipient == self@.merchant,
            challenge.amount > 0,
    {
        Challenge {
            scheme: self.policy.scheme().to_owned(),
            token: self.policy.token().clone(),
            amount: self.policy.required_amount(),
            recipient: self.merchant.clone(),
            facilitator: self.policy.facilitator().clone(),
        }
    }

    /// Validates `proof` and, where it is valid, claims its payment
    /// identifier. A proof that breaks a rule leaves the spent identifiers as
    /// they were.
    pub fn decide(&mut self, proof: &PaymentProof, now: u64) -> (decision: Admission)
        ensures
            decision == admission(old(self)@.consumed, old(self)@.policy, proof@, now),
            final(self)@ == gate_after(old(self)@, proof@, now),
            old(self)@.consumed.subset_of(final(self)@.consumed),
    {
        match self.policy.validate(proof, now) {
            Err(rule) => Admission::Rejected(rule),
            Ok(()) => {
                let fresh = self.guard.try_reserve(proof.payment_id.as_str());
                if fresh {
                    Admission::Reserved
                } else {
                    assert(old(self)@.consumed.insert(proof@.payment_id) =~= old(self)@.consumed);
                    Admission::AlreadyConsumed
                }
            },
        }
    }

    /// The local part of a submission by `caller`: validation, then
    /// reservation, then the settlement call that is to be made, to the
    /// facilitator that the policy trusts and in favour of the merchant.
    /// Ends the submission where the proof is invalid or its payment
    /// identifier spent.
    pub fn begin_submission(&mut self, proof: &PaymentProof, now: u64, caller: &Identity) -> (step:
        SubmissionStep)
        requires
            encodable_len(proof@.facilitator_signature.len()),
        ensures
            step@ == submission_step(old(self)@, proof@, now, caller@),
            final(self)@ == gate_after(old(self)@, proof@, now),
            old(self)@.consumed.subset_of(final(self)@.consumed),
            step@ matches SubmissionStepView::Settle { args, .. }
                ==> args.payment_expectation.merchant_account.owner == old(self)@.merchant,
            proof.expiry < now ==> step@ == SubmissionStepView::Done(
                VerificationResultView::Rejected(ValidationError::Expired),
            ) && final(self)@ == old(self)@,
            proof.expiry >= now + MIN_TTL_MS && old(self)@.policy.expected_ledger == Some(
                proof@.token_ledger,
            ) && proof.amount != old(self)@.policy.required_amount ==> step@
                == SubmissionStepView::Done(
                VerificationResultView::Rejected(ValidationError::WrongAmount),
            ) && final(self)@ == old(self)@,
    {
        match self.decide(proof, now) {
            Admission::Rejected(rule) => SubmissionStep::Done(VerificationResult::Rejected(rule)),
            Admission::AlreadyConsumed => SubmissionStep::Done(VerificationResult::AlreadyConsumed),
            Admission::Reserved => match settlement_request(
                &self.policy,
                proof,
                caller,
                &self.merchant,
            ) {
                Some(args) => SubmissionStep::Settle {
                    facilitator: self.policy.facilitator().clone(),
                    args,
                    reservation: Reservation { payment_id: proof.payment_id.clone() },
                },
                // A valid proof names the ledger that the policy expects, so
                // the policy expects one and this arm is never taken.
                None => SubmissionStep::Done(
                    VerificationResult::Rejected(ValidationError::WrongLedger),
                ),
            },
        }
    }

    /// The local part of a submission, for a proof with a signature of any
    /// length. The length matters only once the proof is found valid and its
    /// payment identifier fresh: where the signature is then too long to be
    /// written into the settlement call, there is no step, and nothing is
    /// reserved.
    pub fn try_begin_submission(
        &mut self,
        proof: &PaymentProof,
        now: u64,
        caller: &Identity,
    ) -> (step: Option<SubmissionStep>)
        ensures
            match step {
                Some(s) => {
                    &&& s@ == submission_step(old(self)@, proof@, now, caller@)
                    &&& final(self)@ == gate_after(old(self)@, proof@, now)
                    &&& s is Settle ==> encodable_len(proof@.facilitator_signature.len())
                },
                None => {
                    &&& admission(old(self)@.consumed, old(self)@.policy, proof@, now) is Reserved
                    &&& !encodable_len(proof@.facilitator_signature.len())
                    &&& final(self)@ == old(self)@
                },
            },
            old(self)@.consumed.subset_of(final(self)@.consumed),
    {
        if is_encodable(&proof.facilitator_signature) {
            Some(self.begin_submission(proof, now, caller))
        } else {
            match self.policy.validate(proof, now) {
                Err(rule) => Some(SubmissionStep::Done(VerificationResult::Rejected(rule))),
                Ok(()) => {
                    if self.guard.is_consumed(proof.payment_id.as_str()) {
                        Some(SubmissionStep::Done(VerificationResult::AlreadyConsumed))
                    } else {
                        None
                    }
                },
            }
        }
    }

    /// The end of the submission that `reservation` was made for, whose
    /// settlement call ended with `reply`: the resource with the settlement
    /// reference where the payment settled, the failure otherwise. The
    /// reservation is used up, and the payment identifier stays spent.
    pub fn conclude_submission(&self, reservation: Reservation, reply: FacilitatorReply) -> (result:
        VerificationResult)
        requires
            self@.consumed.contains(reservation@),
        ensures
            result@ == result_of(reply@, self@.resource),
    {
        let outcome = interpret_reply(reply);
        match outcome.settlement_reference {
            Some(settlement) => VerificationResult::Granted {
                resource: self.resource.clone(),
                settlement,
            },
            None => match outcome.failure_reason {
                Some(FailureReason::SettlementRejected(reason)) => {
                    VerificationResult::SettlementRejected(reason)
                },
                Some(FailureReason::FacilitatorUnreachable(detail)) => {
                    VerificationResult::FacilitatorUnreachable(detail)
                },
                // An outcome without a reference carries its reason.
                None => VerificationResult::FacilitatorUnreachable(String::new()),
            },
        }
    }

    /// Submits `proof` at time `now` on behalf of `caller`: validation, then
    /// reservation, then one call of `facilitator`, whose reply decides
    /// between the grant and a failure. The facilitator is not called for a
    /// proof that is invalid or whose payment identifier is spent, and a
    /// reservation stays whatever the facilitator replies.
    pub fn submit_proof<F: FnOnce(CommitPaymentArgs) -> FacilitatorReply>(
        &mut self,
        proof: &PaymentProof,
        now: u64,
        caller: &Identity,
        facilitator: F,
    ) -> (result: VerificationResult)
        requires
            encodable_len(proof@.facilitator_signature.len()),
            forall|args: CommitPaymentArgs| facilitator.requires((args,)),
        ensures
            final(self)@ == gate_after(old(self)@, proof@, now),
            old(self)@.consumed.subset_of(final(self)@.consumed),
            match admission(old(self)@.consumed, old(self)@.policy, proof@, now) {
                Admission::Rejected(rule) => result@ == VerificationResultView::Rejected(rule),
                Admission::AlreadyConsumed => result@ == VerificationResultView::AlreadyConsumed,
                Admission::Reserved => exists|args: CommitPaymentArgs, reply: FacilitatorReply|
                    {
                        &&& args@ == commit_args_for(
                            proof@,
                            old(self)@.policy,
                            caller@,
                            old(self)@.merchant,
                        )
                        &&& #[trigger] facilitator.ensures((args,), reply)
                        &&& result@ == submission_result(old(self)@, proof@, now, reply@)
                    },
            },
            result is Granted ==> {
                &&& first_violation(proof@, old(self)@.policy, now) is None
                &&& !old(self)@.consumed.contains(proof@.payment_id)
                &&& final(self)@.consumed == old(self)@.consumed.insert(proof@.payment_id)
            },
            proof.expiry < now ==> result@ == VerificationResultView::Rejected(
                ValidationError::Expired,
            ) && final(self)@ == old(self)@,
            proof.expiry >= now + MIN_TTL_MS && old(self)@.policy.expected_ledger == Some(
                proof@.token_ledger,
            ) && proof.amount != old(self)@.policy.required_amount ==> result@
                == VerificationResultView::Rejected(ValidationError::WrongAmount) && final(self)@
                == old(self)@,
    {
        match self.begin_submission(proof, now, caller) {
            SubmissionStep::Done(result) => result,
            SubmissionStep::Settle { facilitator: _, args, reservation } => {
                let reply = facilitator(args);
                self.conclude_submission(reservation, reply)
            },
        }
    }

    /// Whether `payment_id` is spent.
    pub fn is_consumed(&self, payment_id: &str) -> (spent: bool)
        ensures
            spent == self@.consumed.contains(payment_id@),
    {
        self.guard.is_consumed(payment_id)
    }

    /// How many payment identifiers are spent.
    pub fn consumed_count(&self) -> (n: usize)
        ensures
            n == self@.consumed.len(),
    {
        self.guard.count()
    }

    /// The merchant: the party that payments for the resource go to.
    pub fn merchant(&self) -> (merchant: &Identity)
        ensures
            merchant@ == self@.merchant,
    {
        &self.merchant
    }

    /// The terms of the resource.
    pub fn policy(&self) -> (policy: &ResourcePolicy)
        ensures
            policy@ == self@.policy,
    {
        &self.policy
    }
}

} // verus!
