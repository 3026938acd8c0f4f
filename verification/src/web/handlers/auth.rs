//! Commands on managed accounts.

use vstd::prelude::*;
use crate::text;
use crate::web::handlers::common;
use crate::web::handlers::common::{ArgKind, CommandPlan, Shape};
#[allow(unused_imports)]
use crate::web::handlers::common::PlanView;

verus! {

/// What a command does, if it is one of these.
pub open spec fn plan_of(command: Seq<char>) -> Option<PlanView> {
    if command == "auth_start_login"@ {
        Some(common::calls("auth.start_login"@, Shape::Value).takes(ArgKind::Text, "authProvider"@))
    } else if command == "auth_poll_for_account"@ {
        Some(
            common::calls("auth.poll_for_account"@, Shape::Value)
                .takes(ArgKind::Text, "authProvider"@)
                .takes(ArgKind::Text, "deviceCode"@),
        )
    } else if command == "auth_list_accounts"@ {
        Some(
            common::calls("auth.list_accounts"@, Shape::Value)
                .takes(ArgKind::Text, "authProvider"@),
        )
    } else if command == "auth_get_status"@ {
        Some(common::calls("auth.get_status"@, Shape::Value).takes(ArgKind::Text, "authProvider"@))
    } else if command == "auth_remove_account"@ {
        Some(
            common::calls("auth.remove_account"@, Shape::Null)
                .takes(ArgKind::Text, "authProvider"@)
                .takes(ArgKind::Text, "accountId"@),
        )
    } else if command == "auth_set_default_account"@ {
        Some(
            common::calls("auth.set_default_account"@, Shape::Null)
                .takes(ArgKind::Text, "authProvider"@)
                .takes(ArgKind::Text, "accountId"@),
        )
    } else if command == "auth_logout"@ {
        Some(common::calls("auth.logout"@, Shape::Null).takes(ArgKind::Text, "authProvider"@))
    } else {
        None
    }
}

/// What a command does, if it is one of these.
pub fn dispatch(command: &str) -> (r: Option<CommandPlan>)
    ensures
        common::plan_view(r) == plan_of(command@),
{
    if text::same_text(command, "auth_start_login") {
        Some(
            CommandPlan::calls("auth.start_login", Shape::Value)
                .takes(ArgKind::Text, "authProvider"),
        )
    } else if text::same_text(command, "auth_poll_for_account") {
        Some(
            CommandPlan::calls("auth.poll_for_account", Shape::Value)
                .takes(ArgKind::Text, "authProvider")
                .takes(ArgKind::Text, "deviceCode"),
        )
    } else if text::same_text(command, "auth_list_accounts") {
        Some(
            CommandPlan::calls("auth.list_accounts", Shape::Value)
                .takes(ArgKind::Text, "authProvider"),
        )
    } else if text::same_text(command, "auth_get_status") {
        Some(
            CommandPlan::calls("auth.get_status", Shape::Value)
                .takes(ArgKind::Text, "authProvider"),
        )
    } else if text::same_text(command, "auth_remove_account") {
        Some(
            CommandPlan::calls("auth.remove_account", Shape::Null)
                .takes(ArgKind::Text, "authProvider")
                .takes(ArgKind::Text, "accountId"),
        )
    } else if text::same_text(command, "auth_set_default_account") {
        Some(
            CommandPlan::calls("auth.set_default_account", Shape::Null)
                .takes(ArgKind::Text, "authProvider")
                .takes(ArgKind::Text, "accountId"),
        )
    } else if text::same_text(command, "auth_logout") {
        Some(CommandPlan::calls("auth.logout", Shape::Null).takes(ArgKind::Text, "authProvider"))
    } else {
        None
    }
}

} // verus!
