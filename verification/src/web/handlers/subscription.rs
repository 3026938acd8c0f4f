//! Commands on subscriptions.

use vstd::prelude::*;
use crate::text;
use crate::web::handlers::common;
use crate::web::handlers::common::{ArgKind, CommandPlan, Shape};
#[allow(unused_imports)]
use crate::web::handlers::common::PlanView;

verus! {

/// What a command does, if it is one of these.
pub open spec fn plan_of(command: Seq<char>) -> Option<PlanView> {
    if command == "get_subscription_quota"@ {
        Some(common::calls("subscription.quota"@, Shape::Value).takes(ArgKind::Text, "tool"@))
    } else if command == "get_coding_plan_quota"@ {
        Some(
            common::calls("subscription.coding_plan_quota"@, Shape::Value)
                .takes(ArgKind::Text, "baseUrl"@)
                .takes(ArgKind::Text, "apiKey"@),
        )
    } else if command == "get_balance"@ {
        Some(
            common::calls("subscription.balance"@, Shape::Value)
                .takes(ArgKind::Text, "baseUrl"@)
                .takes(ArgKind::Text, "apiKey"@),
        )
    } else {
        None
    }
}

/// What a command does, if it is one of these.
pub fn dispatch(command: &str) -> (r: Option<CommandPlan>)
    ensures
        common::plan_view(r) == plan_of(command@),
{
    if text::same_text(command, "get_subscription_quota") {
        Some(CommandPlan::calls("subscription.quota", Shape::Value).takes(ArgKind::Text, "tool"))
    } else if text::same_text(command, "get_coding_plan_quota") {
        Some(
            CommandPlan::calls("subscription.coding_plan_quota", Shape::Value)
                .takes(ArgKind::Text, "baseUrl")
                .takes(ArgKind::Text, "apiKey"),
        )
    } else if text::same_text(command, "get_balance") {
        Some(
            CommandPlan::calls("subscription.balance", Shape::Value)
                .takes(ArgKind::Text, "baseUrl")
                .takes(ArgKind::Text, "apiKey"),
        )
    } else {
        None
    }
}

} // verus!
