//! What a resource asks of a payment, and the validator that holds a proof
//! against it.

use crate::identity::{identity_of_text, Identity};
use crate::model::{PaymentProof, PaymentProofView, TokenInfo, TokenInfoView};
use crate::text::{is_quotable, quotable_len};
use vstd::prelude::*;
use vstd::utf8::encode_utf8;

verus! {

/// A proof must stay valid for at least this many milliseconds after it
/// arrives, so that settlement has time to complete.
pub const MIN_TTL_MS: u64 = 300_000;

/// A payment identifier has at least this many bytes.
pub const MIN_ID_LEN: usize = 8;

/// The rule that a proof broke.
#[derive(Debug, Clone, Copy, PartialEq, Eq, Structural)]
pub enum ValidationError {
    /// The proof's expiry lies in the past.
    Expired,
    /// The proof expires before `MIN_TTL_MS` have passed.
    ExpiryTooSoon,
    /// The proof names another ledger than the resource expects, or the
    /// expected ledger is not a well-formed identity.
    WrongLedger,
    /// The proof's amount differs from the price.
    WrongAmount,
    /// The proof was made for another resource.
    WrongResourceBinding,
    /// The payment identifier is too short.
    MalformedId,
}

/// What a caller is told about a broken rule.
pub open spec fn validation_message(rule: ValidationError) -> Seq<char> {
    match rule {
        ValidationError::Expired => "Payment expired"@,
        ValidationError::ExpiryTooSoon => "Payment expiry too soon"@,
        ValidationError::WrongLedger => "Invalid token ledger"@,
        ValidationError::WrongAmount => "Incorrect payment amount"@,
        ValidationError::WrongResourceBinding => "Invalid resource binding"@,
        ValidationError::MalformedId => "Invalid payment ID format"@,
    }
}

impl ValidationError {
    /// What a caller is told about this error.
    pub fn message(&self) -> (text: &'static str)
        ensures
            text@ == validation_message(*self),
    {
        match self {
            ValidationError::Expired => "Payment expired",
            ValidationError::ExpiryTooSoon => "Payment expiry too soon",
            ValidationError::WrongLedger => "Invalid token ledger",
            ValidationError::WrongAmount => "Incorrect payment amount",
            ValidationError::WrongResourceBinding => "Invalid resource binding",
            ValidationError::MalformedId => "Invalid payment ID format",
        }
    }
}

/// The terms of one protected resource.
#[derive(Debug, PartialEq, Eq)]
pub struct ResourcePolicy {
    resource_id: String,
    required_amount: u64,
    scheme: String,
    token: TokenInfo,
    expected_ledger: Option<Identity>,
    facilitator: Identity,
}

/// What a `ResourcePolicy` says.
pub struct ResourcePolicyView {
    /// The resource's name, to which proofs are bound.
    pub resource_id: Seq<char>,
    /// The price, which is positive.
    pub required_amount: u64,
    /// The payment scheme.
    pub scheme: Seq<char>,
    /// The asset, as announced in challenges.
    pub token: TokenInfoView,
    /// The ledger that proofs must name; `None` where the configured ledger
    /// is no well-formed identity, in which case no proof names the right one.
    pub expected_ledger: Option<Seq<u8>>,
    /// The facilitator that is trusted to settle payments for the resource.
    pub facilitator: Seq<u8>,
}

impl View for ResourcePolicy {
    type V = ResourcePolicyView;

    closed spec fn view(&self) -> ResourcePolicyView {
        ResourcePolicyView {
            resource_id: self.resource_id@,
            required_amount: self.required_amount,
            scheme: self.scheme@,
            token: self.token@,
            expected_ledger: match self.expected_ledger {
                Some(ledger) => Some(ledger@),
                None => None,
            },
            facilitator: self.facilitator@,
        }
    }
}

/// Whether the proof breaks `rule` under the policy at time `now`.
pub open spec fn violates(
    rule: ValidationError,
    proof: PaymentProofView,
    policy: ResourcePolicyView,
    now: u64,
) -> bool {
    match rule {
        ValidationError::Expired => proof.expiry < now,
        ValidationError::ExpiryTooSoon => proof.expiry < now + MIN_TTL_MS,
        ValidationError::WrongLedger => policy.expected_ledger != Some(proof.token_ledger),
        ValidationError::WrongAmount => proof.amount != policy.required_amount,
        ValidationError::WrongResourceBinding => proof.resource_id != policy.resource_id,
        ValidationError::MalformedId => encode_utf8(proof.payment_id).len() < MIN_ID_LEN,
    }
}

/// The place of a rule in the order in which the rules are checked.
pub open spec fn rank(rule: ValidationError) -> nat {
    match rule {
        ValidationError::Expired => 0,
        ValidationError::ExpiryTooSoon => 1,
        ValidationError::WrongLedger => 2,
        ValidationError::WrongAmount => 3,
        ValidationError::WrongResourceBinding => 4,
        ValidationError::MalformedId => 5,
    }
}

/// The first rule, in checking order, that the proof breaks; `None` where it
/// breaks none.
pub open spec fn first_violation(
    proof: PaymentProofView,
    policy: ResourcePolicyView,
    now: u64,
) -> Option<ValidationError> {
    if violates(ValidationError::Expired, proof, policy, now) {
        Some(ValidationError::Expired)
    } else if violates(ValidationError::ExpiryTooSoon, proof, policy, now) {
        Some(ValidationError::ExpiryTooSoon)
    } else if violates(ValidationError::WrongLedger, proof, policy, now) {
        Some(ValidationError::WrongLedger)
    } else if violates(ValidationError::WrongAmount, proof, policy, now) {
        Some(ValidationError::WrongAmount)
    } else if violates(ValidationError::WrongResourceBinding, proof, policy, now) {
        Some(ValidationError::WrongResourceBinding)
    } else if violates(ValidationError::MalformedId, proof, policy, now) {
        Some(ValidationError::MalformedId)
    } else {
        None
    }
}

/// The validator reports a rule exactly when the proof breaks it and breaks
/// no rule that is checked earlier; it accepts exactly the proofs that break
/// no rule at all.
pub proof fn law_first_broken_rule_is_reported(
    proof: PaymentProofView,
    policy: ResourcePolicyView,
    now: u64,
)
    ensures
        forall|rule: ValidationError|
            first_violation(proof, policy, now) == Some(rule) <==> (#[trigger] violates(
                rule,
                proof,
                policy,
                now,
            ) && forall|earlier: ValidationError|
                rank(earlier) < rank(rule) ==> !#[trigger] violates(earlier, proof, policy, now)),
        first_violation(proof, policy, now) is None <==> forall|rule: ValidationError|
            !#[trigger] violates(rule, proof, policy, now),
{
}

impl ResourcePolicy {
    #[verifier::type_invariant]
    spec fn priced(self) -> bool {
        self.required_amount > 0 && quotable_len(encode_utf8(self.scheme@).len())
    }

    /// The policy with these terms, where the expected ledger has been parsed
    /// already. There is none for a price of zero, nor for a scheme whose
    /// name is too long to be written into a settlement call.
    pub fn with_parsed_ledger(
        resource_id: String,
        required_amount: u64,
        scheme: String,
        token: TokenInfo,
        expected_ledger: Option<Identity>,
        facilitator: Identity,
    ) -> (policy: Option<ResourcePolicy>)
        ensures
            policy is Some <==> required_amount > 0 && quotable_len(encode_utf8(scheme@).len()),
            policy matches Some(p) ==> p@ == (ResourcePolicyView {
                resource_id: resource_id@,
                required_amount,
                scheme: scheme@,
                token: token@,
                expected_ledger: match expected_ledger {
                    Some(ledger) => Some(ledger@),
                    None => None,
                },
                facilitator: facilitator@,
            }),
    {
        if required_amount == 0 || !is_quotable(scheme.as_str()) {
            None
        } else {
            Some(
                ResourcePolicy {
                    resource_id,
                    required_amount,
                    scheme,
                    token,
                    expected_ledger,
                    facilitator,
                },
            )
        }
    }

    /// The policy with these terms. The ledger that proofs must name is the
    /// one that `token.ledger_id` spells; where that text is longer than the
    /// text of any identity, or is not the text of one, the policy expects
    /// no ledger, and rejects every proof that gets as far as the ledger
    /// rule. There is no policy for a price of zero, nor for a scheme whose
    /// name is too long to be written into a settlement call.
    pub fn new(
        resource_id: String,
        required_amount: u64,
        scheme: String,
        token: TokenInfo,
        facilitator: Identity,
    ) -> (policy: Option<ResourcePolicy>)
        ensures
            policy is Some <==> required_amount > 0 && quotable_len(encode_utf8(scheme@).len()),
            policy matches Some(p) ==> p@ == (ResourcePolicyView {
                resource_id: resource_id@,
                required_amount,
                scheme: scheme@,
                token: token@,
                expected_ledger: identity_of_text(token@.ledger_id),
                facilitator: facilitator@,
            }),
    {
        let expected_ledger = Identity::from_text(token.ledger_id.as_str());
        ResourcePolicy::with_parsed_ledger(
            resource_id,
            required_amount,
            scheme,
            token,
            expected_ledger,
            facilitator,
        )
    }

    /// The resource's name.
    pub fn resource_id(&self) -> (id: &str)
        ensures
            id@ == self@.resource_id,
    {
        self.resource_id.as_str()
    }

    /// The price, which is positive.
    pub fn required_amount(&self) -> (amount: u64)
        ensures
            amount == self@.required_amount,
            amount > 0,
    {
        proof {
            use_type_invariant(self);
        }
        self.required_amount
    }

    /// The payment scheme.
    pub fn scheme(&self) -> (scheme: &str)
        ensures
            scheme@ == self@.scheme,
            quotable_len(encode_utf8(scheme@).len()),
    {
        proof {
            use_type_invariant(self);
        }
        self.scheme.as_str()
    }

    /// The asset, as announced in challenges.
    pub fn token(&self) -> (token: &TokenInfo)
        ensures
            token@ == self@.token,
    {
        &self.token
    }

    /// The ledger that proofs must name, if the configured one is well formed.
    pub fn expected_ledger(&self) -> (ledger: Option<&Identity>)
        ensures
            match ledger {
                Some(l) => self@.expected_ledger == Some(l@),
                None => self@.expected_ledger is None,
            },
    {
        self.expected_ledger.as_ref()
    }

    /// The facilitator that is trusted to settle payments for the resource.
    pub fn facilitator(&self) -> (facilitator: &Identity)
        ensures
            facilitator@ == self@.facilitator,
    {
        &self.facilitator
    }

    /// Holds `proof` against the rules, in their order, at time `now`, and
    /// reports the first one that it breaks.
    pub fn validate(&self, proof: &PaymentProof, now: u64) -> (verdict: Result<(), ValidationError>)
        ensures
            verdict == match first_violation(proof@, self@, now) {
                Some(rule) => Err::<(), ValidationError>(rule),
                None => Ok(()),
            },
    {
        if proof.expiry < now {
            return Err(ValidationError::Expired);
        }
        if proof.expiry - now < MIN_TTL_MS {
            return Err(ValidationError::ExpiryTooSoon);
        }
        let ledger_matches = match &self.expected_ledger {
            Some(ledger) => ledger.same_as(&proof.token_ledger),
            None => false,
        };
        if !ledger_matches {
            return Err(ValidationError::WrongLedger);
        }
        if proof.amount != self.required_amount {
            return Err(ValidationError::WrongAmount);
        }
        if proof.resource_id != self.resource_id {
            return Err(ValidationError::WrongResourceBinding);
        }
        if proof.payment_id.as_str().as_bytes().len() < MIN_ID_LEN {
            return Err(ValidationError::MalformedId);
        }
        Ok(())
    }
}

} // verus!
