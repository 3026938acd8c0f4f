//! Commands on the local proxy.

use vstd::prelude::*;
use vstd::string::*;
use crate::web::handlers::common::WebError;
use crate::web::handlers::common::ErrorView;
use crate::text;
use crate::web::handlers::common;
use crate::web::handlers::common::{ArgKind, CommandPlan, Shape};
#[allow(unused_imports)]
use crate::web::handlers::common::PlanView;

verus! {

/// What a command does, if it is one of these.
pub open spec fn plan_of(command: Seq<char>) -> Option<PlanView> {
    if command == "start_proxy_server"@ {
        Some(common::calls("proxy.start"@, Shape::Value))
    } else if command == "stop_proxy_with_restore"@ {
        Some(common::calls("proxy.stop_with_restore"@, Shape::Null))
    } else if command == "get_proxy_status"@ {
        Some(common::calls("proxy.status"@, Shape::Value))
    } else if command == "is_proxy_running"@ {
        Some(common::calls("proxy.is_running"@, Shape::Value))
    } else if command == "is_live_takeover_active"@ {
        Some(common::calls("proxy.is_live_takeover_active"@, Shape::Value))
    } else if command == "switch_proxy_provider"@ {
        Some(
            common::calls("proxy.check_target"@, Shape::Null)
                .then_calls("proxy.switch_target"@)
                .takes(ArgKind::Text, "appType"@)
                .takes(ArgKind::Text, "providerId"@),
        )
    } else if command == "get_proxy_takeover_status"@ {
        Some(common::calls("proxy.takeover_status"@, Shape::Value))
    } else if command == "set_proxy_takeover_for_app"@ {
        Some(
            common::calls("proxy.set_takeover_for_app"@, Shape::Null)
                .takes(ArgKind::Text, "appType"@)
                .takes(ArgKind::Flag, "enabled"@),
        )
    } else if command == "get_proxy_config"@ {
        Some(common::calls("proxy.config"@, Shape::Value))
    } else if command == "update_proxy_config"@ {
        Some(common::calls("proxy.update_config"@, Shape::Null).takes(ArgKind::Typed, "config"@))
    } else if command == "get_global_proxy_config"@ {
        Some(common::calls("proxy.global_config"@, Shape::Value))
    } else if command == "update_global_proxy_config"@ {
        Some(
            common::calls("proxy.update_global_config"@, Shape::Null)
                .takes(ArgKind::Typed, "config"@),
        )
    } else if command == "get_proxy_config_for_app"@ {
        Some(common::calls("proxy.config_for_app"@, Shape::Value).takes(ArgKind::Text, "appType"@))
    } else if command == "update_proxy_config_for_app"@ {
        Some(
            common::calls("proxy.update_config_for_app"@, Shape::Null)
                .takes(ArgKind::Typed, "config"@),
        )
    } else if command == "get_default_cost_multiplier"@ {
        Some(
            common::calls("proxy.default_cost_multiplier"@, Shape::Value)
                .takes(ArgKind::Text, "appType"@),
        )
    } else if command == "set_default_cost_multiplier"@ {
        Some(
            common::calls("proxy.set_default_cost_multiplier"@, Shape::Null)
                .takes(ArgKind::Text, "appType"@)
                .takes(ArgKind::Text, "value"@),
        )
    } else if command == "get_pricing_model_source"@ {
        Some(
            common::calls("proxy.pricing_model_source"@, Shape::Value)
                .takes(ArgKind::Text, "appType"@),
        )
    } else if command == "set_pricing_model_source"@ {
        Some(
            common::calls("proxy.set_pricing_model_source"@, Shape::Null)
                .takes(ArgKind::Text, "appType"@)
                .takes(ArgKind::Text, "value"@),
        )
    } else {
        None
    }
}

/// What a command does, if it is one of these.
pub fn dispatch(command: &str) -> (r: Option<CommandPlan>)
    ensures
        common::plan_view(r) == plan_of(command@),
{
    if text::same_text(command, "start_proxy_server") {
        Some(CommandPlan::calls("proxy.start", Shape::Value))
    } else if text::same_text(command, "stop_proxy_with_restore") {
        Some(CommandPlan::calls("proxy.stop_with_restore", Shape::Null))
    } else if text::same_text(command, "get_proxy_status") {
        Some(CommandPlan::calls("proxy.status", Shape::Value))
    } else if text::same_text(command, "is_proxy_running") {
        Some(CommandPlan::calls("proxy.is_running", Shape::Value))
    } else if text::same_text(command, "is_live_takeover_active") {
        Some(CommandPlan::calls("proxy.is_live_takeover_active", Shape::Value))
    } else if text::same_text(command, "switch_proxy_provider") {
        Some(
            CommandPlan::calls("proxy.check_target", Shape::Null)
                .then_calls("proxy.switch_target")
                .takes(ArgKind::Text, "appType")
                .takes(ArgKind::Text, "providerId"),
        )
    } else if text::same_text(command, "get_proxy_takeover_status") {
        Some(CommandPlan::calls("proxy.takeover_status", Shape::Value))
    } else if text::same_text(command, "set_proxy_takeover_for_app") {
        Some(
            CommandPlan::calls("proxy.set_takeover_for_app", Shape::Null)
                .takes(ArgKind::Text, "appType")
                .takes(ArgKind::Flag, "enabled"),
        )
    } else if text::same_text(command, "get_proxy_config") {
        Some(CommandPlan::calls("proxy.config", Shape::Value))
    } else if text::same_text(command, "update_proxy_config") {
        Some(CommandPlan::calls("proxy.update_config", Shape::Null).takes(ArgKind::Typed, "config"))
    } else if text::same_text(command, "get_global_proxy_config") {
        Some(CommandPlan::calls("proxy.global_config", Shape::Value))
    } else if text::same_text(command, "update_global_proxy_config") {
        Some(
            CommandPlan::calls("proxy.update_global_config", Shape::Null)
                .takes(ArgKind::Typed, "config"),
        )
    } else if text::same_text(command, "get_proxy_config_for_app") {
        Some(
            CommandPlan::calls("proxy.config_for_app", Shape::Value)
                .takes(ArgKind::Text, "appType"),
        )
    } else if text::same_text(command, "update_proxy_config_for_app") {
        Some(
            CommandPlan::calls("proxy.update_config_for_app", Shape::Null)
                .takes(ArgKind::Typed, "config"),
        )
    } else if text::same_text(command, "get_default_cost_multiplier") {
        Some(
            CommandPlan::calls("proxy.default_cost_multiplier", Shape::Value)
                .takes(ArgKind::Text, "appType"),
        )
    } else if text::same_text(command, "set_default_cost_multiplier") {
        Some(
            CommandPlan::calls("proxy.set_default_cost_multiplier", Shape::Null)
                .takes(ArgKind::Text, "appType")
                .takes(ArgKind::Text, "value"),
        )
    } else if text::same_text(command, "get_pricing_model_source") {
        Some(
            CommandPlan::calls("proxy.pricing_model_source", Shape::Value)
                .takes(ArgKind::Text, "appType"),
        )
    } else if text::same_text(command, "set_pricing_model_source") {
        Some(
            CommandPlan::calls("proxy.set_pricing_model_source", Shape::Null)
                .takes(ArgKind::Text, "appType")
                .takes(ArgKind::Text, "value"),
        )
    } else {
        None
    }
}

/// Why a provider cannot be the target of the proxy; `category` is that of the
/// provider, if there is such a provider.
pub open spec fn target_error(id: Seq<char>, category: Option<Option<Seq<char>>>) -> Option<ErrorView> {
    match category {
        None => Some(ErrorView::Domain("供应商不存在: "@ + id)),
        Some(Some(name)) => if name == "official"@ {
            Some(
                ErrorView::Domain(
                    "代理接管模式下不能切换到官方供应商 (Cannot switch to official provider during proxy takeover)"@,
                ),
            )
        } else {
            None
        },
        Some(None) => None,
    }
}

/// The model of the category of a provider.
pub open spec fn category_view(category: Option<Option<String>>) -> Option<Option<Seq<char>>> {
    match category {
        Some(name) => Some(text::option_view(name)),
        None => None,
    }
}

/// Whether a provider can be the target of the proxy: it must be there, and it must
/// not be an official one.
pub fn check_target(id: &str, category: &Option<Option<String>>) -> (r: Result<(), WebError>)
    ensures
        match r {
            Ok(_) => target_error(id@, category_view(*category)) is None,
            Err(error) => target_error(id@, category_view(*category)) == Some(error@),
        },
{
    match category {
        None => Err(WebError::Domain(text::concat2("供应商不存在: ", id))),
        Some(Some(name)) => if text::same_text(name.as_str(), "official") {
            Err(
                WebError::Domain(
                    "代理接管模式下不能切换到官方供应商 (Cannot switch to official provider during proxy takeover)".to_owned(),
                ),
            )
        } else {
            Ok(())
        },
        Some(None) => Ok(()),
    }
}

} // verus!
