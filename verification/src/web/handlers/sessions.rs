//! Commands on recorded sessions.

use vstd::prelude::*;
use crate::text;
use crate::web::handlers::common;
use crate::web::handlers::common::{ArgKind, CommandPlan, Shape};
#[allow(unused_imports)]
use crate::web::handlers::common::PlanView;

verus! {

/// What a command does, if it is one of these.
pub open spec fn plan_of(command: Seq<char>) -> Option<PlanView> {
    if command == "list_sessions"@ {
        Some(common::calls("sessions.scan"@, Shape::Value))
    } else if command == "get_session_messages"@ {
        Some(
            common::calls("sessions.load_messages"@, Shape::Value)
                .takes(ArgKind::Text, "providerId"@)
                .takes(ArgKind::Text, "sourcePath"@),
        )
    } else if command == "delete_session"@ {
        Some(
            common::calls("sessions.delete"@, Shape::Value)
                .takes(ArgKind::Text, "providerId"@)
                .takes(ArgKind::Text, "sessionId"@)
                .takes(ArgKind::Text, "sourcePath"@),
        )
    } else if command == "delete_sessions"@ {
        Some(common::calls("sessions.delete_many"@, Shape::Value).takes(ArgKind::Typed, "items"@))
    } else {
        None
    }
}

/// What a command does, if it is one of these.
pub fn dispatch(command: &str) -> (r: Option<CommandPlan>)
    ensures
        common::plan_view(r) == plan_of(command@),
{
    if text::same_text(command, "list_sessions") {
        Some(CommandPlan::calls("sessions.scan", Shape::Value))
    } else if text::same_text(command, "get_session_messages") {
        Some(
            CommandPlan::calls("sessions.load_messages", Shape::Value)
                .takes(ArgKind::Text, "providerId")
                .takes(ArgKind::Text, "sourcePath"),
        )
    } else if text::same_text(command, "delete_session") {
        Some(
            CommandPlan::calls("sessions.delete", Shape::Value)
                .takes(ArgKind::Text, "providerId")
                .takes(ArgKind::Text, "sessionId")
                .takes(ArgKind::Text, "sourcePath"),
        )
    } else if text::same_text(command, "delete_sessions") {
        Some(
            CommandPlan::calls("sessions.delete_many", Shape::Value)
                .takes(ArgKind::Typed, "items"),
        )
    } else {
        None
    }
}

} // verus!
