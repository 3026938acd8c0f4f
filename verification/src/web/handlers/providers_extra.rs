//! Commands on the providers in live configurations.

use vstd::prelude::*;
use crate::text;
use crate::web::handlers::common;
use crate::web::handlers::common::{CommandPlan, Shape};
#[allow(unused_imports)]
use crate::web::handlers::common::PlanView;

verus! {

/// What a command does, if it is one of these.
pub open spec fn plan_of(command: Seq<char>) -> Option<PlanView> {
    if command == "get_opencode_live_provider_ids"@ {
        Some(common::calls("opencode.provider_ids"@, Shape::Value))
    } else if command == "get_openclaw_live_provider_ids"@ {
        Some(common::calls("openclaw.provider_ids"@, Shape::Value))
    } else if command == "get_hermes_live_provider_ids"@ {
        Some(common::calls("hermes.provider_ids"@, Shape::Value))
    } else {
        None
    }
}

/// What a command does, if it is one of these.
pub fn dispatch(command: &str) -> (r: Option<CommandPlan>)
    ensures
        common::plan_view(r) == plan_of(command@),
{
    if text::same_text(command, "get_opencode_live_provider_ids") {
        Some(CommandPlan::calls("opencode.provider_ids", Shape::Value))
    } else if text::same_text(command, "get_openclaw_live_provider_ids") {
        Some(CommandPlan::calls("openclaw.provider_ids", Shape::Value))
    } else if text::same_text(command, "get_hermes_live_provider_ids") {
        Some(CommandPlan::calls("hermes.provider_ids", Shape::Value))
    } else {
        None
    }
}

} // verus!
