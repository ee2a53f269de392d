//! The subscriptions that the tenant's token can see.

use crate::apis::{list_resources, listing_of, ListRun, Reply};
use crate::apis::resource_manager::ResourceManager;
use crate::types::azure::common::ListResponse;
use crate::types::azure::resource_manager::raw::SubscriptionResponse;
use crate::types::azure::resource_manager::Subscription;
use vstd::prelude::*;

verus! {

pub open spec fn subscriptions_path() -> Seq<char> {
    "subscriptions?api-version=2022-12-01"@
}

pub open spec fn subscription_shape() -> Seq<char> {
    "SubscriptionResponse"@
}

/// The path of the subscriptions.
pub const SUBSCRIPTIONS_PATH: &'static str = "subscriptions?api-version=2022-12-01";

/// The name of the shape of a subscription.
pub const SUBSCRIPTION_SHAPE: &'static str = "SubscriptionResponse";

pub struct Subscriptions<'a> {
    pub scope: &'a ResourceManager<'a>,
}

impl Subscriptions<'_> {
    /// All subscriptions, from the replies to the requests of the list.
    pub fn list(&self, replies: Vec<Reply<ListResponse<SubscriptionResponse>>>) -> (run: ListRun<
        Subscription,
    >)
        ensures
            listing_of(*self.scope, subscriptions_path(), subscription_shape(), replies@, run),
    {
        list_resources(
            self.scope,
            "subscriptions?api-version=2022-12-01",
            "SubscriptionResponse",
            replies,
        )
    }
}

} // verus!
