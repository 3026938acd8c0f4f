//! Commands on workspace and memory files.

use vstd::prelude::*;
use crate::text;
use crate::web::handlers::common;
use crate::web::handlers::common::{ArgKind, CommandPlan, Shape};
#[allow(unused_imports)]
use crate::web::handlers::common::PlanView;

verus! {

/// What a command does, if it is one of these.
pub open spec fn plan_of(command: Seq<char>) -> Option<PlanView> {
    if command == "read_workspace_file"@ {
        Some(common::calls("workspace.read_file"@, Shape::Value).takes(ArgKind::Text, "filename"@))
    } else if command == "write_workspace_file"@ {
        Some(
            common::calls("workspace.write_file"@, Shape::Null)
                .takes(ArgKind::Text, "filename"@)
                .takes(ArgKind::Text, "content"@),
        )
    } else if command == "list_daily_memory_files"@ {
        Some(common::calls("workspace.list_daily_memory"@, Shape::Value))
    } else if command == "read_daily_memory_file"@ {
        Some(
            common::calls("workspace.read_daily_memory"@, Shape::Value)
                .takes(ArgKind::Text, "filename"@),
        )
    } else if command == "write_daily_memory_file"@ {
        Some(
            common::calls("workspace.write_daily_memory"@, Shape::Null)
                .takes(ArgKind::Text, "filename"@)
                .takes(ArgKind::Text, "content"@),
        )
    } else if command == "delete_daily_memory_file"@ {
        Some(
            common::calls("workspace.delete_daily_memory"@, Shape::Null)
                .takes(ArgKind::Text, "filename"@),
        )
    } else if command == "search_daily_memory_files"@ {
        Some(
            common::calls("workspace.search_daily_memory"@, Shape::Value)
                .takes(ArgKind::Text, "query"@),
        )
    } else {
        None
    }
}

/// What a command does, if it is one of these.
pub fn dispatch(command: &str) -> (r: Option<CommandPlan>)
    ensures
        common::plan_view(r) == plan_of(command@),
{
    if text::same_text(command, "read_workspace_file") {
        Some(
            CommandPlan::calls("workspace.read_file", Shape::Value)
                .takes(ArgKind::Text, "filename"),
        )
    } else if text::same_text(command, "write_workspace_file") {
        Some(
            CommandPlan::calls("workspace.write_file", Shape::Null)
                .takes(ArgKind::Text, "filename")
                .takes(ArgKind::Text, "content"),
        )
    } else if text::same_text(command, "list_daily_memory_files") {
        Some(CommandPlan::calls("workspace.list_daily_memory", Shape::Value))
    } else if text::same_text(command, "read_daily_memory_file") {
        Some(
            CommandPlan::calls("workspace.read_daily_memory", Shape::Value)
                .takes(ArgKind::Text, "filename"),
        )
    } else if text::same_text(command, "write_daily_memory_file") {
        Some(
            CommandPlan::calls("workspace.write_daily_memory", Shape::Null)
                .takes(ArgKind::Text, "filename")
                .takes(ArgKind::Text, "content"),
        )
    } else if text::same_text(command, "delete_daily_memory_file") {
        Some(
            CommandPlan::calls("workspace.delete_daily_memory", Shape::Null)
                .takes(ArgKind::Text, "filename"),
        )
    } else if text::same_text(command, "search_daily_memory_files") {
        Some(
            CommandPlan::calls("workspace.search_daily_memory", Shape::Value)
                .takes(ArgKind::Text, "query"),
        )
    } else {
        None
    }
}

} // verus!
