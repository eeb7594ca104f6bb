//! The payer agent: the client side of the protocol, under a budget.

use crate::identity::{principal_to_text, Identity};
use crate::model::{Challenge, ChallengeView, ErrorResponse, ErrorResponseView, payment_required_code};
use crate::text::{decimal_string, decimal_text};
use vstd::prelude::*;
use vstd::string::StringExecFns;

verus! {

/// The configuration of a payer agent.
#[derive(Debug, PartialEq, Eq)]
pub struct AgentPolicy {
    /// Who may configure the agent.
    pub owner: Identity,
    /// The most that the agent pays on its own.
    pub max_payment: u64,
}

/// What an `AgentPolicy` says.
pub struct AgentPolicyView {
    pub owner: Seq<u8>,
    pub max_payment: u64,
}

impl View for AgentPolicy {
    type V = AgentPolicyView;

    open spec fn view(&self) -> AgentPolicyView {
        AgentPolicyView { owner: self.owner@, max_payment: self.max_payment }
    }
}

/// Why the agent could not act at all.
#[derive(Debug, Clone, Copy, PartialEq, Eq, Structural)]
pub enum AgentError {
    /// The agent was used before it was configured.
    NotConfigured,
}

/// Why a fetch did not bring the resource.
#[derive(Debug, Clone, Copy, PartialEq, Eq, Structural)]
pub enum FetchError {
    /// The agent was used before it was configured.
    NotConfigured,
    /// The challenge asks for more than the agent may pay.
    BudgetExceeded,
    /// The request for the resource did not get through.
    MerchantUnreachable,
    /// The request for access did not get through.
    AccessFailed,
}

/// What a caller is told about a fetch that failed.
pub open spec fn fetch_message(error: FetchError) -> Seq<char> {
    match error {
        FetchError::NotConfigured => "Agent not initialized"@,
        FetchError::BudgetExceeded => "Payment amount exceeds configured maximum"@,
        FetchError::MerchantUnreachable => "Merchant call failed"@,
        FetchError::AccessFailed => "Access call failed"@,
    }
}

impl FetchError {
    /// What a caller is told about this error.
    pub fn message(&self) -> (text: &'static str)
        ensures
            text@ == fetch_message(*self),
    {
        match self {
            FetchError::NotConfigured => "Agent not initialized",
            FetchError::BudgetExceeded => "Payment amount exceeds configured maximum",
            FetchError::MerchantUnreachable => "Merchant call failed",
            FetchError::AccessFailed => "Access call failed",
        }
    }
}

/// What a fetch brought back.
#[derive(Debug, PartialEq, Eq)]
pub struct FetchResult {
    pub success: bool,
    /// The resource, where the fetch brought it.
    pub data: Option<String>,
    /// The challenge, where the endpoint asked for payment.
    pub payment_required: Option<Challenge>,
    /// Why the fetch failed or the agent declined, where it did.
    pub error: Option<FetchError>,
}

/// What a `FetchResult` says.
pub struct FetchResultView {
    pub success: bool,
    pub data: Option<Seq<char>>,
    pub payment_required: Option<ChallengeView>,
    pub error: Option<FetchError>,
}

impl View for FetchResult {
    type V = FetchResultView;

    open spec fn view(&self) -> FetchResultView {
        FetchResultView {
            success: self.success,
            data: match self.data {
                Some(data) => Some(data@),
                None => None,
            },
            payment_required: match self.payment_required {
                Some(challenge) => Some(challenge@),
                None => None,
            },
            error: self.error,
        }
    }
}

/// How the request for the resource ended.
#[derive(Debug, PartialEq, Eq)]
pub enum ResourceReply {
    /// The request did not get through.
    Unreachable,
    /// The endpoint answered.
    Answered(ErrorResponse),
}

/// What a `ResourceReply` says.
pub enum ResourceReplyView {
    Unreachable,
    Answered(ErrorResponseView),
}

impl View for ResourceReply {
    type V = ResourceReplyView;

    open spec fn view(&self) -> ResourceReplyView {
        match *self {
            ResourceReply::Unreachable => ResourceReplyView::Unreachable,
            ResourceReply::Answered(response) => ResourceReplyView::Answered(response@),
        }
    }
}

/// Where a fetch stands, and what is to be done next.
#[derive(Debug, PartialEq, Eq)]
pub enum FetchStep {
    /// The fetch is over.
    Done(FetchResult),
    /// The endpoint is to be asked for the resource.
    RequestResource,
    /// The endpoint asked for no payment: access is to be requested.
    RequestAccess,
}

/// What a `FetchStep` says.
pub enum FetchStepView {
    Done(FetchResultView),
    RequestResource,
    RequestAccess,
}

impl View for FetchStep {
    type V = FetchStepView;

    open spec fn view(&self) -> FetchStepView {
        match *self {
            FetchStep::Done(result) => FetchStepView::Done(result@),
            FetchStep::RequestResource => FetchStepView::RequestResource,
            FetchStep::RequestAccess => FetchStepView::RequestAccess,
        }
    }
}

/// The result of a fetch that failed for `error`, with the challenge that
/// was received, if any.
pub open spec fn failed_fetch(
    payment_required: Option<ChallengeView>,
    error: FetchError,
) -> FetchResultView {
    FetchResultView { success: false, data: None, payment_required, error: Some(error) }
}

/// What an agent that may pay up to `max_payment` makes of the endpoint's
/// reply: a challenge above the budget is declined, one within it is handed
/// on for payment, and an endpoint that asks for nothing is asked for access.
pub open spec fn decision_on(max_payment: u64, reply: ResourceReplyView) -> FetchStepView {
    match reply {
        ResourceReplyView::Unreachable => FetchStepView::Done(
            failed_fetch(None, FetchError::MerchantUnreachable),
        ),
        ResourceReplyView::Answered(response) => if response.code == payment_required_code() {
            if response.x402.amount > max_payment {
                FetchStepView::Done(failed_fetch(Some(response.x402), FetchError::BudgetExceeded))
            } else {
                FetchStepView::Done(
                    FetchResultView {
                        success: false,
                        data: None,
                        payment_required: Some(response.x402),
                        error: None,
                    },
                )
            }
        } else {
            FetchStepView::RequestAccess
        },
    }
}

/// The challenge that a step hands on for payment, if it does: the one of
/// a fetch that ended on a challenge and without an error.
pub open spec fn payable_challenge(step: FetchStepView) -> Option<ChallengeView> {
    match step {
        FetchStepView::Done(result) => if result.error is None {
            result.payment_required
        } else {
            None
        },
        FetchStepView::RequestResource => None,
        FetchStepView::RequestAccess => None,
    }
}

/// The result of a fetch whose request for access ended with `reply`: the
/// data where there is some, a failure otherwise.
pub open spec fn access_result_of(reply: Option<Seq<char>>) -> FetchResultView {
    match reply {
        Some(data) => FetchResultView {
            success: true,
            data: Some(data),
            payment_required: None,
            error: None,
        },
        None => failed_fetch(None, FetchError::AccessFailed),
    }
}

/// Whether `result` ends a fetch whose request for access was made through
/// `request_access`.
pub open spec fn ends_by_access<A: FnOnce() -> Option<String>>(
    request_access: A,
    result: FetchResultView,
) -> bool {
    exists|data: Option<String>| #[trigger]
        request_access.ensures((), data) && result == access_result_of(
            match data {
                Some(text) => Some(text@),
                None => None,
            },
        )
}

/// Whether `result` ends a fetch, by an agent that may pay up to
/// `max_payment`, that got `reply` to its request for the resource.
pub open spec fn ends_fetch<A: FnOnce() -> Option<String>>(
    max_payment: u64,
    reply: ResourceReplyView,
    request_access: A,
    result: FetchResultView,
) -> bool {
    match decision_on(max_payment, reply) {
        FetchStepView::Done(ended) => result == ended,
        FetchStepView::RequestAccess => ends_by_access(request_access, result),
        FetchStepView::RequestResource => false,
    }
}

/// The line that tells of an agent's configuration, given its owner in
/// textual form.
pub open spec fn status_line(owner: Seq<char>, max_payment: u64) -> Seq<char> {
    "Agent initialized. Owner: "@ + owner + ". Max payment: "@ + decimal_text(max_payment as nat)
        + " sats"@
}

/// The line that tells of an agent's state.
pub open spec fn status_text(policy: Option<AgentPolicyView>) -> Seq<char> {
    match policy {
        Some(p) => status_line(principal_to_text(p.owner), p.max_payment),
        None => "Agent not initialized"@,
    }
}

/// Decides on the endpoint's reply for an agent that may pay up to
/// `max_payment`.
pub fn decide_on_reply(max_payment: u64, reply: ResourceReply) -> (step: FetchStep)
    ensures
        step@ == decision_on(max_payment, reply@),
        payable_challenge(step@) matches Some(challenge) ==> challenge.amount <= max_payment,
{
    match reply {
        ResourceReply::Unreachable => FetchStep::Done(
            FetchResult {
                success: false,
                data: None,
                payment_required: None,
                error: Some(FetchError::MerchantUnreachable),
            },
        ),
        ResourceReply::Answered(response) => {
            if response.asks_for_payment() {
                let error = if response.x402.amount > max_payment {
                    Some(FetchError::BudgetExceeded)
                } else {
                    None
                };
                FetchStep::Done(
                    FetchResult {
                        success: false,
                        data: None,
                        payment_required: Some(response.x402),
                        error,
                    },
                )
            } else {
                FetchStep::RequestAccess
            }
        },
    }
}

/// Ends a fetch whose request for access brought `reply`; `None` stands for
/// a request that did not get through.
pub fn access_result(reply: Option<String>) -> (result: FetchResult)
    ensures
        result@ == access_result_of(
            match reply {
                Some(data) => Some(data@),
                None => None,
            },
        ),
{
    match reply {
        Some(data) => FetchResult {
            success: true,
            data: Some(data),
            payment_required: None,
            error: None,
        },
        None => FetchResult {
            success: false,
            data: None,
            payment_required: None,
            error: Some(FetchError::AccessFailed),
        },
    }
}

/// Writes the line that tells of a configured agent.
pub fn write_status_line(owner: &str, max_payment: u64) -> (line: String)
    ensures
        line@ == status_line(owner@, max_payment),
{
    let mut line = "Agent initialized. Owner: ".to_owned();
    line.append(owner);
    line.append(". Max payment: ");
    line.append(decimal_string(max_payment).as_str());
    line.append(" sats");
    line
}

/// The client side of the protocol. Its view is its configuration, if it has
/// one.
#[derive(Debug, PartialEq, Eq)]
pub struct PayerAgent {
    policy: Option<AgentPolicy>,
}

impl View for PayerAgent {
    type V = Option<AgentPolicyView>;

    closed spec fn view(&self) -> Option<AgentPolicyView> {
        match self.policy {
            Some(policy) => Some(policy@),
            None => None,
        }
    }
}

impl PayerAgent {
    /// An agent that is not configured yet.
    pub fn new() -> (agent: PayerAgent)
        ensures
            agent@ is None,
    {
        PayerAgent { policy: None }
    }

    /// Configures the agent, or configures it anew.
    pub fn configure(&mut self, owner: Identity, max_payment: u64)
        ensures
            final(self)@ == Some(AgentPolicyView { owner: owner@, max_payment }),
    {
        self.policy = Some(AgentPolicy { owner, max_payment });
    }

    /// The most that the agent pays on its own.
    pub fn max_payment(&self) -> (budget: Result<u64, AgentError>)
        ensures
            match budget {
                Ok(max_payment) => self@ matches Some(policy) && policy.max_payment == max_payment,
                Err(error) => self@ is None && error == AgentError::NotConfigured,
            },
    {
        match &self.policy {
            Some(policy) => Ok(policy.max_payment),
            None => Err(AgentError::NotConfigured),
        }
    }

    /// The first step of a fetch: to ask the endpoint for the resource, or,
    /// for an agent that is not configured, to end with `NotConfigured`
    /// before anything is asked.
    pub fn begin_fetch(&self) -> (step: FetchStep)
        ensures
            step@ == match self@ {
                Some(_) => FetchStepView::RequestResource,
                None => FetchStepView::Done(failed_fetch(None, FetchError::NotConfigured)),
            },
    {
        match &self.policy {
            Some(_) => FetchStep::RequestResource,
            None => FetchStep::Done(
                FetchResult {
                    success: false,
                    data: None,
                    payment_required: None,
                    error: Some(FetchError::NotConfigured),
                },
            ),
        }
    }

    /// Decides on the endpoint's reply to the request for the resource. An
    /// agent that is not configured ends the fetch with `NotConfigured`.
    pub fn on_resource_reply(&self, reply: ResourceReply) -> (step: FetchStep)
        ensures
            step@ == match self@ {
                Some(policy) => decision_on(policy.max_payment, reply@),
                None => FetchStepView::Done(failed_fetch(None, FetchError::NotConfigured)),
            },
            payable_challenge(step@) matches Some(challenge) ==> self@ is Some && challenge.amount
                <= self@->0.max_payment,
    {
        match self.max_payment() {
            Ok(max_payment) => decide_on_reply(max_payment, reply),
            Err(_) => FetchStep::Done(
                FetchResult {
                    success: false,
                    data: None,
                    payment_required: None,
                    error: Some(FetchError::NotConfigured),
                },
            ),
        }
    }

    /// Fetches the resource: asks the endpoint for it through
    /// `request_resource`, declines a challenge above the budget, hands one
    /// within the budget on, and asks for access through `request_access`
    /// where the endpoint wants no payment. An agent that is not configured
    /// asks for nothing.
    pub fn fetch<R: FnOnce() -> ResourceReply, A: FnOnce() -> Option<String>>(
        &self,
        request_resource: R,
        request_access: A,
    ) -> (result: FetchResult)
        requires
            request_resource.requires(()),
            request_access.requires(()),
        ensures
            match self@ {
                Some(policy) => exists|reply: ResourceReply| #[trigger]
                    request_resource.ensures((), reply) && ends_fetch(
                        policy.max_payment,
                        reply@,
                        request_access,
                        result@,
                    ),
                None => result@ == failed_fetch(None, FetchError::NotConfigured),
            },
            result.payment_required matches Some(challenge) ==> (result.error is None ==> self@
                is Some && challenge.amount <= self@->0.max_payment),
    {
        match self.begin_fetch() {
            FetchStep::Done(result) => result,
            _ => {
                let reply = request_resource();
                match self.on_resource_reply(reply) {
                    FetchStep::Done(result) => result,
                    _ => access_result(request_access()),
                }
            },
        }
    }

    /// A line that tells whether the agent is configured, and how.
    pub fn status(&self) -> (line: String)
        ensures
            line@ == status_text(self@),
    {
        match &self.policy {
            Some(policy) => write_status_line(policy.owner.to_text().as_str(), policy.max_payment),
            None => "Agent not initialized".to_owned(),
        }
    }
}

} // verus!
