//! Sample proofs, for trying a resource gate out end to end.

use crate::identity::Identity;
use crate::model::{PaymentProof, PaymentProofView};
use crate::policy::{first_violation, ResourcePolicy, ResourcePolicyView, MIN_ID_LEN};
use crate::text::{join, decimal_digits, decimal_string, decimal_text, lemma_decimal_text_shape};
use vstd::prelude::*;
use vstd::utf8::{encode_utf8, is_ascii_chars, is_ascii_chars_encode_utf8};

verus! {

/// The kinds of sample proof.
#[derive(Debug, Clone, Copy, PartialEq, Eq, Structural)]
pub enum SampleProfile {
    /// A proof with the shortest lifetime that is accepted.
    Secure,
    /// A proof with twice that lifetime.
    Production,
}

/// What the payment identifier of a sample proof starts with.
pub open spec fn sample_prefix(profile: SampleProfile) -> Seq<char> {
    match profile {
        SampleProfile::Secure => "test_payment_"@,
        SampleProfile::Production => "prod_payment_"@,
    }
}

/// The nonce of a sample proof.
pub open spec fn sample_nonce(profile: SampleProfile) -> u64 {
    match profile {
        SampleProfile::Secure => 42,
        SampleProfile::Production => 100,
    }
}

/// The signature of a sample proof.
pub open spec fn sample_signature(profile: SampleProfile) -> Seq<u8> {
    match profile {
        SampleProfile::Secure => seq![1u8, 2u8, 3u8, 4u8],
        SampleProfile::Production => seq![5u8, 6u8, 7u8, 8u8, 9u8, 10u8],
    }
}

/// How long a sample proof lives, in milliseconds.
pub open spec fn sample_lifetime(profile: SampleProfile) -> u64 {
    match profile {
        SampleProfile::Secure => 300_000,
        SampleProfile::Production => 600_000,
    }
}

/// The sample proof of a payment by `payer` at time `now` for the resource
/// under `policy`: the price, in the expected asset (or, where the policy
/// expects none, in one named after the payer), bound to the resource, with
/// an identifier made of the profile's prefix and the time.
pub open spec fn sample_proof_of(
    profile: SampleProfile,
    policy: ResourcePolicyView,
    now: u64,
    payer: Seq<u8>,
) -> PaymentProofView
    recommends
        now + sample_lifetime(profile) <= u64::MAX,
{
    PaymentProofView {
        payment_id: sample_prefix(profile) + decimal_text(now as nat),
        nonce: sample_nonce(profile),
        payer,
        amount: policy.required_amount,
        token_ledger: match policy.expected_ledger {
            Some(ledger) => ledger,
            None => payer,
        },
        facilitator_signature: sample_signature(profile),
        expiry: (now + sample_lifetime(profile)) as u64,
        resource_id: policy.resource_id,
    }
}

/// A sample proof breaks no rule at the time it was made for, provided that
/// the policy expects a ledger.
pub proof fn law_sample_proof_is_valid(
    profile: SampleProfile,
    policy: ResourcePolicyView,
    now: u64,
    payer: Seq<u8>,
)
    requires
        now + sample_lifetime(profile) <= u64::MAX,
        policy.expected_ledger is Some,
    ensures
        first_violation(sample_proof_of(profile, policy, now, payer), policy, now) is None,
{
    let id = sample_prefix(profile) + decimal_text(now as nat);
    reveal_strlit("test_payment_");
    reveal_strlit("prod_payment_");
    lemma_decimal_text_shape(now as nat);
    assert(is_ascii_chars(id));
    is_ascii_chars_encode_utf8(id);
}

/// Makes the sample proof of a payment by `payer` at time `now`. There is
/// none where its expiry would lie beyond the last representable time.
pub fn sample_proof(
    profile: SampleProfile,
    policy: &ResourcePolicy,
    now: u64,
    payer: &Identity,
) -> (sample: Option<PaymentProof>)
    ensures
        match sample {
            Some(p) => now + sample_lifetime(profile) <= u64::MAX && p@ == sample_proof_of(
                profile,
                policy@,
                now,
                payer@,
            ),
            None => now + sample_lifetime(profile) > u64::MAX,
        },
{
    let (prefix, nonce, lifetime): (&str, u64, u64) = match profile {
        SampleProfile::Secure => ("test_payment_", 42, 300_000),
        SampleProfile::Production => ("prod_payment_", 100, 600_000),
    };
    let expiry = match now.checked_add(lifetime) {
        Some(expiry) => expiry,
        None => {
            return None;
        },
    };
    let mut signature: Vec<u8> = Vec::new();
    match profile {
        SampleProfile::Secure => {
            signature.push(1);
            signature.push(2);
            signature.push(3);
            signature.push(4);
        },
        SampleProfile::Production => {
            signature.push(5);
            signature.push(6);
            signature.push(7);
            signature.push(8);
            signature.push(9);
            signature.push(10);
        },
    }
    assert(signature@ =~= sample_signature(profile));
    let token_ledger = match policy.expected_ledger() {
        Some(ledger) => ledger.clone(),
        None => payer.clone(),
    };
    Some(
        PaymentProof {
            payment_id: join(prefix, decimal_string(now).as_str()),
            nonce,
            payer: payer.clone(),
            amount: policy.required_amount(),
            token_ledger,
            facilitator_signature: signature,
            expiry,
            resource_id: policy.resource_id().to_owned(),
        },
    )
}

} // verus!
