//! What holds of the resource gate over any run of submissions.

use crate::facilitator::FacilitatorReplyView;
use crate::gate::{
    admission, consumed_after, gate_after, submission_result, Admission, ResourceGateView,
    VerificationResultView,
};
use crate::model::PaymentProofView;
use crate::report::record_of;
use crate::policy::{first_violation, ResourcePolicyView, ValidationError};
use vstd::prelude::*;

verus! {

/// A proof, and the time at which it is submitted.
pub struct Submission {
    pub proof: PaymentProofView,
    pub now: u64,
}

/// The payment identifiers that are spent once the resource gate, starting from
/// `consumed`, has taken `submissions` one after the other.
pub open spec fn consumed_after_all(
    consumed: Set<Seq<char>>,
    policy: ResourcePolicyView,
    submissions: Seq<Submission>,
) -> Set<Seq<char>>
    decreases submissions.len(),
{
    if submissions.len() == 0 {
        consumed
    } else {
        consumed_after(
            consumed_after_all(consumed, policy, submissions.drop_last()),
            policy,
            submissions.last().proof,
            submissions.last().now,
        )
    }
}

/// The decision on the submission at place `i` of a run.
pub open spec fn admission_at(
    consumed: Set<Seq<char>>,
    policy: ResourcePolicyView,
    submissions: Seq<Submission>,
    i: int,
) -> Admission
    recommends
        0 <= i < submissions.len(),
{
    admission(
        consumed_after_all(consumed, policy, submissions.take(i)),
        policy,
        submissions[i].proof,
        submissions[i].now,
    )
}

/// An expired proof is rejected as expired, whatever else is wrong with it,
/// and nothing is reserved for it.
pub proof fn law_expired_proof_reserves_nothing(
    consumed: Set<Seq<char>>,
    policy: ResourcePolicyView,
    proof: PaymentProofView,
    now: u64,
)
    requires
        proof.expiry < now,
    ensures
        admission(consumed, policy, proof, now) == Admission::Rejected(ValidationError::Expired),
        consumed_after(consumed, policy, proof, now) == consumed,
{
}

/// A proof that passes the rules checked before the amount, and whose amount
/// is not the price, is rejected for its amount, and nothing is reserved for
/// it.
pub proof fn law_wrong_amount_reserves_nothing(
    consumed: Set<Seq<char>>,
    policy: ResourcePolicyView,
    proof: PaymentProofView,
    now: u64,
)
    requires
        proof.expiry >= now + crate::policy::MIN_TTL_MS,
        policy.expected_ledger == Some(proof.token_ledger),
        proof.amount != policy.required_amount,
    ensures
        admission(consumed, policy, proof, now) == Admission::Rejected(
            ValidationError::WrongAmount,
        ),
        consumed_after(consumed, policy, proof, now) == consumed,
{
}

/// No submission releases a payment identifier: what is spent stays spent.
pub proof fn law_spent_stays_spent(
    consumed: Set<Seq<char>>,
    policy: ResourcePolicyView,
    submissions: Seq<Submission>,
    upto: int,
)
    requires
        0 <= upto <= submissions.len(),
    ensures
        consumed.subset_of(consumed_after_all(consumed, policy, submissions.take(upto))),
        consumed_after_all(consumed, policy, submissions.take(upto)).subset_of(
            consumed_after_all(consumed, policy, submissions),
        ),
    decreases submissions.len() - upto,
{
    lemma_run_grows(consumed, policy, submissions.take(upto));
    if upto < submissions.len() {
        law_spent_stays_spent(consumed, policy, submissions, upto + 1);
        assert(submissions.take(upto + 1).drop_last() =~= submissions.take(upto));
    } else {
        assert(submissions.take(upto) =~= submissions);
    }
}

proof fn lemma_run_grows(
    consumed: Set<Seq<char>>,
    policy: ResourcePolicyView,
    submissions: Seq<Submission>,
)
    ensures
        consumed.subset_of(consumed_after_all(consumed, policy, submissions)),
    decreases submissions.len(),
{
    if submissions.len() > 0 {
        lemma_run_grows(consumed, policy, submissions.drop_last());
    }
}

/// In any run of submissions a payment identifier is reserved at most once:
/// after the submission that reserved it, every submission with the same
/// identifier ends before the facilitator is asked, and so cannot be
/// granted; one that breaks no rule ends as already consumed.
pub proof fn law_payment_id_is_reserved_once(
    consumed: Set<Seq<char>>,
    policy: ResourcePolicyView,
    submissions: Seq<Submission>,
    first: int,
    later: int,
)
    requires
        0 <= first < later < submissions.len(),
        submissions[first].proof.payment_id == submissions[later].proof.payment_id,
        admission_at(consumed, policy, submissions, first) is Reserved,
    ensures
        !(admission_at(consumed, policy, submissions, later) is Reserved),
        first_violation(submissions[later].proof, policy, submissions[later].now) is None
            ==> admission_at(consumed, policy, submissions, later) is AlreadyConsumed,
{
    let id = submissions[first].proof.payment_id;
    let upto_later = submissions.take(later);
    assert(upto_later.take(first + 1) =~= submissions.take(first + 1));
    assert(submissions.take(first + 1).drop_last() =~= submissions.take(first));
    assert(submissions.take(first + 1).last() == submissions[first]);
    assert(consumed_after_all(consumed, policy, submissions.take(first + 1)).contains(id));
    law_spent_stays_spent(consumed, policy, upto_later, first + 1);
}

/// A reservation is never rolled back: once a proof has been reserved, the
/// same proof submitted again, at whatever time and however the settlement
/// call ended, is not reserved anew; where it still breaks no rule, it ends
/// as already consumed.
pub proof fn law_reservation_is_final(
    consumed: Set<Seq<char>>,
    policy: ResourcePolicyView,
    proof: PaymentProofView,
    now: u64,
    again: u64,
)
    requires
        admission(consumed, policy, proof, now) is Reserved,
    ensures
        consumed_after(consumed, policy, proof, now).contains(proof.payment_id),
        !(admission(consumed_after(consumed, policy, proof, now), policy, proof, again)
            is Reserved),
        first_violation(proof, policy, again) is None ==> admission(
            consumed_after(consumed, policy, proof, now),
            policy,
            proof,
            again,
        ) is AlreadyConsumed,
        consumed_after(consumed_after(consumed, policy, proof, now), policy, proof, again)
            == consumed_after(consumed, policy, proof, now),
{
}

/// A submission succeeds only for a proof that breaks no rule, whose
/// payment identifier was not spent, and whose settlement call ended in a
/// settlement; that identifier, and no other, is then newly spent. However
/// a submission ends, no payment identifier is released.
pub proof fn law_success_needs_a_fresh_valid_proof_and_a_settlement(
    gate: ResourceGateView,
    proof: PaymentProofView,
    now: u64,
    reply: FacilitatorReplyView,
)
    ensures
        gate.consumed.subset_of(gate_after(gate, proof, now).consumed),
        record_of(submission_result(gate, proof, now, reply)).success <==> submission_result(
            gate,
            proof,
            now,
            reply,
        ) is Granted,
        record_of(submission_result(gate, proof, now, reply)).success ==> {
            &&& first_violation(proof, gate.policy, now) is None
            &&& !gate.consumed.contains(proof.payment_id)
            &&& reply is Settled
            &&& gate_after(gate, proof, now).consumed == gate.consumed.insert(proof.payment_id)
        },
{
}

/// Where a valid proof with a fresh payment identifier is submitted and the
/// settlement call fails in transport, the submission ends as
/// `FacilitatorUnreachable`, which is neither a refusal to settle nor a
/// broken rule; its record tells of a failure, with block zero and no
/// transaction hash; and the payment identifier is spent, so that the same
/// proof submitted again is never granted, and ends as already consumed
/// where it still breaks no rule.
pub proof fn law_transport_failure_spends_the_payment_id(
    gate: ResourceGateView,
    proof: PaymentProofView,
    now: u64,
    detail: Seq<char>,
    again: u64,
    later_reply: FacilitatorReplyView,
)
    requires
        first_violation(proof, gate.policy, now) is None,
        !gate.consumed.contains(proof.payment_id),
    ensures
        ({
            let result = submission_result(
                gate,
                proof,
                now,
                FacilitatorReplyView::Unreachable(detail),
            );
            let record = record_of(result);
            let after = gate_after(gate, proof, now);
            let second = submission_result(after, proof, again, later_reply);
            &&& result == VerificationResultView::FacilitatorUnreachable(detail)
            &&& !(result is SettlementRejected) && !(result is Rejected)
            &&& !record.success
            &&& record.block_index == 0
            &&& record.transaction_hash.len() == 0
            &&& record.error is Some
            &&& record.data is None
            &&& after.consumed == gate.consumed.insert(proof.payment_id)
            &&& !(second is Granted)
            &&& first_violation(proof, gate.policy, again) is None ==> second
                == VerificationResultView::AlreadyConsumed
        }),
{
}

} // verus!
