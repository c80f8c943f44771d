//! Shared lifecycle vocabulary: subscription status and content access type.
//!
//! The variants are declared in ascending lifecycle order, so their
//! discriminants run 0, 1, 2, 3 (and 0, 1) when cast to an integer.

use vstd::prelude::*;

verus! {

/// Subscription lifecycle status.
#[derive(Clone, Copy, Debug, Eq, PartialEq, Structural)]
pub enum SubscriptionStatus {
    /// Subscription created but payment pending.
    Pending,
    /// Subscription active and valid.
    Active,
    /// Subscription cancelled by user or creator.
    Cancelled,
    /// Subscription expired (payment not renewed).
    Expired,
}

/// Content access type.
#[derive(Clone, Copy, Debug, Eq, PartialEq, Structural)]
pub enum ContentType {
    /// Publicly accessible content.
    Free,
    /// Subscription-gated content.
    Paid,
}

} // verus!
