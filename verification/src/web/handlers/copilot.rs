//! Commands on GitHub Copilot accounts.

use vstd::prelude::*;
use crate::text;
use crate::web::handlers::common;
use crate::web::handlers::common::{ArgKind, CommandPlan, Shape};
#[allow(unused_imports)]
use crate::web::handlers::common::PlanView;

verus! {

/// What a command does, if it is one of these.
pub open spec fn plan_of(command: Seq<char>) -> Option<PlanView> {
    if command == "copilot_start_device_flow"@ {
        Some(common::calls("copilot.start_device_flow"@, Shape::Value))
    } else if command == "copilot_poll_for_auth"@ {
        Some(
            common::calls("copilot.poll_for_token"@, Shape::Presence)
                .takes(ArgKind::Text, "deviceCode"@),
        )
    } else if command == "copilot_get_auth_status"@ {
        Some(common::calls("copilot.get_status"@, Shape::Value))
    } else if command == "copilot_logout"@ {
        Some(common::calls("copilot.clear_auth"@, Shape::Null))
    } else if command == "copilot_is_authenticated"@ {
        Some(common::calls("copilot.is_authenticated"@, Shape::Value))
    } else if command == "copilot_get_token"@ {
        Some(common::calls("copilot.get_valid_token"@, Shape::Value))
    } else if command == "copilot_get_models"@ {
        Some(common::calls("copilot.fetch_models"@, Shape::Value))
    } else if command == "copilot_get_usage"@ {
        Some(common::calls("copilot.fetch_usage"@, Shape::Value))
    } else if command == "copilot_list_accounts"@ {
        Some(common::calls("copilot.list_accounts"@, Shape::Value))
    } else if command == "copilot_poll_for_account"@ {
        Some(
            common::calls("copilot.poll_for_token"@, Shape::Value)
                .takes(ArgKind::Text, "deviceCode"@),
        )
    } else if command == "copilot_remove_account"@ {
        Some(
            common::calls("copilot.remove_account"@, Shape::Null)
                .takes(ArgKind::Text, "accountId"@),
        )
    } else if command == "copilot_set_default_account"@ {
        Some(
            common::calls("copilot.set_default_account"@, Shape::Null)
                .takes(ArgKind::Text, "accountId"@),
        )
    } else if command == "copilot_get_token_for_account"@ {
        Some(
            common::calls("copilot.get_valid_token_for_account"@, Shape::Value)
                .takes(ArgKind::Text, "accountId"@),
        )
    } else if command == "copilot_get_models_for_account"@ {
        Some(
            common::calls("copilot.fetch_models_for_account"@, Shape::Value)
                .takes(ArgKind::Text, "accountId"@),
        )
    } else if command == "copilot_get_usage_for_account"@ {
        Some(
            common::calls("copilot.fetch_usage_for_account"@, Shape::Value)
                .takes(ArgKind::Text, "accountId"@),
        )
    } else {
        None
    }
}

/// What a command does, if it is one of these.
pub fn dispatch(command: &str) -> (r: Option<CommandPlan>)
    ensures
        common::plan_view(r) == plan_of(command@),
{
    if text::same_text(command, "copilot_start_device_flow") {
        Some(CommandPlan::calls("copilot.start_device_flow", Shape::Value))
    } else if text::same_text(command, "copilot_poll_for_auth") {
        Some(
            CommandPlan::calls("copilot.poll_for_token", Shape::Presence)
                .takes(ArgKind::Text, "deviceCode"),
        )
    } else if text::same_text(command, "copilot_get_auth_status") {
        Some(CommandPlan::calls("copilot.get_status", Shape::Value))
    } else if text::same_text(command, "copilot_logout") {
        Some(CommandPlan::calls("copilot.clear_auth", Shape::Null))
    } else if text::same_text(command, "copilot_is_authenticated") {
        Some(CommandPlan::calls("copilot.is_authenticated", Shape::Value))
    } else if text::same_text(command, "copilot_get_token") {
        Some(CommandPlan::calls("copilot.get_valid_token", Shape::Value))
    } else if text::same_text(command, "copilot_get_models") {
        Some(CommandPlan::calls("copilot.fetch_models", Shape::Value))
    } else if text::same_text(command, "copilot_get_usage") {
        Some(CommandPlan::calls("copilot.fetch_usage", Shape::Value))
    } else if text::same_text(command, "copilot_list_accounts") {
        Some(CommandPlan::calls("copilot.list_accounts", Shape::Value))
    } else if text::same_text(command, "copilot_poll_for_account") {
        Some(
            CommandPlan::calls("copilot.poll_for_token", Shape::Value)
                .takes(ArgKind::Text, "deviceCode"),
        )
    } else if text::same_text(command, "copilot_remove_account") {
        Some(
            CommandPlan::calls("copilot.remove_account", Shape::Null)
                .takes(ArgKind::Text, "accountId"),
        )
    } else if text::same_text(command, "copilot_set_default_account") {
        Some(
            CommandPlan::calls("copilot.set_default_account", Shape::Null)
                .takes(ArgKind::Text, "accountId"),
        )
    } else if text::same_text(command, "copilot_get_token_for_account") {
        Some(
            CommandPlan::calls("copilot.get_valid_token_for_account", Shape::Value)
                .takes(ArgKind::Text, "accountId"),
        )
    } else if text::same_text(command, "copilot_get_models_for_account") {
        Some(
            CommandPlan::calls("copilot.fetch_models_for_account", Shape::Value)
                .takes(ArgKind::Text, "accountId"),
        )
    } else if text::same_text(command, "copilot_get_usage_for_account") {
        Some(
            CommandPlan::calls("copilot.fetch_usage_for_account", Shape::Value)
                .takes(ArgKind::Text, "accountId"),
        )
    } else {
        None
    }
}

} // verus!
