//! A minimal consumer of the shared lifecycle vocabulary, exercising that
//! the enums can be handed across a contract boundary and compared.

use vstd::prelude::*;

use crate::lifecycle::{ContentType, SubscriptionStatus};

verus! {

/// A demonstration contract that returns and inspects lifecycle values.
pub struct TestConsumer;

impl TestConsumer {
    /// Always the active status.
    pub fn get_status() -> (r: SubscriptionStatus)
        ensures
            r == SubscriptionStatus::Active,
    {
        SubscriptionStatus::Active
    }

    /// Always the paid content type.
    pub fn get_content() -> (r: ContentType)
        ensures
            r == ContentType::Paid,
    {
        ContentType::Paid
    }

    /// Whether `status` is the active status.
    pub fn is_active(status: SubscriptionStatus) -> (r: bool)
        ensures
            r == (status == SubscriptionStatus::Active),
    {
        status == SubscriptionStatus::Active
    }
}

} // verus!
