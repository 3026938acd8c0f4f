//! Commands on prompts.

use vstd::prelude::*;
use crate::text;
use crate::web::handlers::common;
use crate::web::handlers::common::{ArgKind, CommandPlan, Shape};
#[allow(unused_imports)]
use crate::web::handlers::common::PlanView;

verus! {

/// What a command does, if it is one of these.
pub open spec fn plan_of(command: Seq<char>) -> Option<PlanView> {
    if command == "get_prompts"@ {
        Some(common::calls("prompts.list"@, Shape::Value).takes(ArgKind::App, "app"@))
    } else if command == "upsert_prompt"@ {
        Some(
            common::calls("prompts.upsert"@, Shape::Null)
                .takes(ArgKind::App, "app"@)
                .takes(ArgKind::Text, "id"@)
                .takes(ArgKind::Typed, "prompt"@),
        )
    } else if command == "delete_prompt"@ {
        Some(
            common::calls("prompts.delete"@, Shape::Null)
                .takes(ArgKind::App, "app"@)
                .takes(ArgKind::Text, "id"@),
        )
    } else if command == "enable_prompt"@ {
        Some(
            common::calls("prompts.enable"@, Shape::Null)
                .takes(ArgKind::App, "app"@)
                .takes(ArgKind::Text, "id"@),
        )
    } else if command == "import_prompt_from_file"@ {
        Some(common::calls("prompts.import_from_file"@, Shape::Value).takes(ArgKind::App, "app"@))
    } else if command == "get_current_prompt_file_content"@ {
        Some(
            common::calls("prompts.current_file_content"@, Shape::Value)
                .takes(ArgKind::App, "app"@),
        )
    } else {
        None
    }
}

/// What a command does, if it is one of these.
pub fn dispatch(command: &str) -> (r: Option<CommandPlan>)
    ensures
        common::plan_view(r) == plan_of(command@),
{
    if text::same_text(command, "get_prompts") {
        Some(CommandPlan::calls("prompts.list", Shape::Value).takes(ArgKind::App, "app"))
    } else if text::same_text(command, "upsert_prompt") {
        Some(
            CommandPlan::calls("prompts.upsert", Shape::Null)
                .takes(ArgKind::App, "app")
                .takes(ArgKind::Text, "id")
                .takes(ArgKind::Typed, "prompt"),
        )
    } else if text::same_text(command, "delete_prompt") {
        Some(
            CommandPlan::calls("prompts.delete", Shape::Null)
                .takes(ArgKind::App, "app")
                .takes(ArgKind::Text, "id"),
        )
    } else if text::same_text(command, "enable_prompt") {
        Some(
            CommandPlan::calls("prompts.enable", Shape::Null)
                .takes(ArgKind::App, "app")
                .takes(ArgKind::Text, "id"),
        )
    } else if text::same_text(command, "import_prompt_from_file") {
        Some(
            CommandPlan::calls("prompts.import_from_file", Shape::Value)
                .takes(ArgKind::App, "app"),
        )
    } else if text::same_text(command, "get_current_prompt_file_content") {
        Some(
            CommandPlan::calls("prompts.current_file_content", Shape::Value)
                .takes(ArgKind::App, "app"),
        )
    } else {
        None
    }
}

} // verus!
