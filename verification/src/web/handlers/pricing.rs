//! Commands on quotas.

use vstd::prelude::*;
use crate::text;
use crate::web::handlers::common;
use crate::web::handlers::common::{ArgKind, CommandPlan, Shape};
#[allow(unused_imports)]
use crate::web::handlers::common::PlanView;

verus! {

/// What a command does, if it is one of these.
pub open spec fn plan_of(command: Seq<char>) -> Option<PlanView> {
    if command == "get_codex_oauth_quota"@ {
        Some(
            common::calls("codex_oauth.quota"@, Shape::Value)
                .takes(ArgKind::OptionalText, "accountId"@),
        )
    } else {
        None
    }
}

/// What a command does, if it is one of these.
pub fn dispatch(command: &str) -> (r: Option<CommandPlan>)
    ensures
        common::plan_view(r) == plan_of(command@),
{
    if text::same_text(command, "get_codex_oauth_quota") {
        Some(
            CommandPlan::calls("codex_oauth.quota", Shape::Value)
                .takes(ArgKind::OptionalText, "accountId"),
        )
    } else {
        None
    }
}

} // verus!
