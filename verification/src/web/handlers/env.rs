//! Commands on environment variables.

use vstd::prelude::*;
use crate::text;
use crate::web::handlers::common;
use crate::web::handlers::common::{ArgKind, CommandPlan, Shape};
#[allow(unused_imports)]
use crate::web::handlers::common::PlanView;

verus! {

/// What a command does, if it is one of these.
pub open spec fn plan_of(command: Seq<char>) -> Option<PlanView> {
    if command == "check_env_conflicts"@ {
        Some(common::calls("env.check_conflicts"@, Shape::Value).takes(ArgKind::App, "app"@))
    } else if command == "delete_env_vars"@ {
        Some(common::calls("env.delete_vars"@, Shape::Value).takes(ArgKind::Typed, "conflicts"@))
    } else if command == "restore_env_backup"@ {
        Some(
            common::calls("env.restore_from_backup"@, Shape::Null)
                .takes(ArgKind::Text, "backupPath"@),
        )
    } else {
        None
    }
}

/// What a command does, if it is one of these.
pub fn dispatch(command: &str) -> (r: Option<CommandPlan>)
    ensures
        common::plan_view(r) == plan_of(command@),
{
    if text::same_text(command, "check_env_conflicts") {
        Some(CommandPlan::calls("env.check_conflicts", Shape::Value).takes(ArgKind::App, "app"))
    } else if text::same_text(command, "delete_env_vars") {
        Some(CommandPlan::calls("env.delete_vars", Shape::Value).takes(ArgKind::Typed, "conflicts"))
    } else if text::same_text(command, "restore_env_backup") {
        Some(
            CommandPlan::calls("env.restore_from_backup", Shape::Null)
                .takes(ArgKind::Text, "backupPath"),
        )
    } else {
        None
    }
}

} // verus!
