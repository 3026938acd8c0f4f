//! Commands on where a configuration is.

use vstd::prelude::*;
use crate::text;
use crate::web::handlers::common;
use crate::web::handlers::common::{CommandPlan, Shape};
#[allow(unused_imports)]
use crate::web::handlers::common::PlanView;

verus! {

/// What a command does, if it is one of these.
pub open spec fn plan_of(command: Seq<char>) -> Option<PlanView> {
    if command == "get_claude_code_config_path"@ {
        Some(common::calls("config.claude_settings_path"@, Shape::Value))
    } else {
        None
    }
}

/// What a command does, if it is one of these.
pub fn dispatch(command: &str) -> (r: Option<CommandPlan>)
    ensures
        common::plan_view(r) == plan_of(command@),
{
    if text::same_text(command, "get_claude_code_config_path") {
        Some(CommandPlan::calls("config.claude_settings_path", Shape::Value))
    } else {
        None
    }
}

} // verus!
