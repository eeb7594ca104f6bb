//! Payment-gated access to a protected resource.
//!
//! A resource gate answers an unpaid request with a payment challenge, takes a
//! payment proof on retry, validates it, reserves its identifier exactly once
//! and has a trusted facilitator settle it before the resource is released. A
//! payer agent drives the client side under a configured budget.

pub mod agent;
pub mod facilitator;
pub mod gate;
pub mod identity;
pub mod laws;
pub mod model;
pub mod policy;
pub mod replay;
pub mod report;
pub mod sample;
pub mod text;
