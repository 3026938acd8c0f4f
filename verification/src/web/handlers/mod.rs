//! The commands of the dashboard, by what they are about.

pub mod answer_laws;
pub mod auth;
pub mod command_laws;
pub mod common;
pub mod config;
pub mod config_misc;
pub mod copilot;
pub mod db_backup;
pub mod deeplink;
pub mod env;
pub mod failover;
pub mod global_proxy;
pub mod hermes;
pub mod laws;
pub mod mcp;
pub mod mcp_config;
pub mod meta;
pub mod model_fetch;
pub mod model_test;
pub mod names;
pub mod omo;
pub mod openclaw;
pub mod pricing;
pub mod prompts;
pub mod providers;
pub mod providers_extra;
pub mod proxy;
pub mod proxy_extra;
pub mod sessions;
pub mod settings;
pub mod skills;
pub mod subscription;
pub mod usage;
pub mod vscode;
pub mod workspace;

use vstd::prelude::*;
use crate::json::Json;
#[allow(unused_imports)]
use crate::json::JsonView;
use crate::web::handlers::common::{CommandPlan, WebError};
#[allow(unused_imports)]
use crate::web::handlers::common::{ErrorView, PlanView};

verus! {

/// What a command does, if there is such a command.
pub open spec fn plan_of(command: Seq<char>, args: JsonView) -> Option<PlanView> {
    if meta::plan_of(command) is Some {
        meta::plan_of(command)
    } else if providers::plan_of(command) is Some {
        providers::plan_of(command)
    } else if providers_extra::plan_of(command) is Some {
        providers_extra::plan_of(command)
    } else if auth::plan_of(command) is Some {
        auth::plan_of(command)
    } else if config::plan_of(command, args) is Some {
        config::plan_of(command, args)
    } else if config_misc::plan_of(command) is Some {
        config_misc::plan_of(command)
    } else if copilot::plan_of(command) is Some {
        copilot::plan_of(command)
    } else if db_backup::plan_of(command) is Some {
        db_backup::plan_of(command)
    } else if deeplink::plan_of(command) is Some {
        deeplink::plan_of(command)
    } else if env::plan_of(command) is Some {
        env::plan_of(command)
    } else if failover::plan_of(command) is Some {
        failover::plan_of(command)
    } else if global_proxy::plan_of(command) is Some {
        global_proxy::plan_of(command)
    } else if hermes::plan_of(command) is Some {
        hermes::plan_of(command)
    } else if mcp::plan_of(command) is Some {
        mcp::plan_of(command)
    } else if mcp_config::plan_of(command) is Some {
        mcp_config::plan_of(command)
    } else if model_fetch::plan_of(command) is Some {
        model_fetch::plan_of(command)
    } else if model_test::plan_of(command) is Some {
        model_test::plan_of(command)
    } else if omo::plan_of(command) is Some {
        omo::plan_of(command)
    } else if openclaw::plan_of(command) is Some {
        openclaw::plan_of(command)
    } else if pricing::plan_of(command) is Some {
        pricing::plan_of(command)
    } else if prompts::plan_of(command) is Some {
        prompts::plan_of(command)
    } else if proxy::plan_of(command) is Some {
        proxy::plan_of(command)
    } else if proxy_extra::plan_of(command) is Some {
        proxy_extra::plan_of(command)
    } else if sessions::plan_of(command) is Some {
        sessions::plan_of(command)
    } else if settings::plan_of(command, args) is Some {
        settings::plan_of(command, args)
    } else if skills::plan_of(command) is Some {
        skills::plan_of(command)
    } else if subscription::plan_of(command) is Some {
        subscription::plan_of(command)
    } else if usage::plan_of(command) is Some {
        usage::plan_of(command)
    } else if vscode::plan_of(command) is Some {
        vscode::plan_of(command)
    } else if workspace::plan_of(command) is Some {
        workspace::plan_of(command)
    } else {
        None
    }
}

/// What a command does; there may be no such command.
pub fn dispatch(command: &str, args: &Json) -> (r: Result<CommandPlan, WebError>)
    ensures
        match r {
            Ok(plan) => plan_of(command@, args@) == Some(plan@),
            Err(error) => {
                &&& plan_of(command@, args@) is None
                &&& error@ == ErrorView::NotImplemented(command@)
            },
        },
{
    if let Some(plan) = meta::dispatch(command) {
        return Ok(plan);
    }
    if let Some(plan) = providers::dispatch(command) {
        return Ok(plan);
    }
    if let Some(plan) = providers_extra::dispatch(command) {
        return Ok(plan);
    }
    if let Some(plan) = auth::dispatch(command) {
        return Ok(plan);
    }
    if let Some(plan) = config::dispatch(command, args) {
        return Ok(plan);
    }
    if let Some(plan) = config_misc::dispatch(command) {
        return Ok(plan);
    }
    if let Some(plan) = copilot::dispatch(command) {
        return Ok(plan);
    }
    if let Some(plan) = db_backup::dispatch(command) {
        return Ok(plan);
    }
    if let Some(plan) = deeplink::dispatch(command) {
        return Ok(plan);
    }
    if let Some(plan) = env::dispatch(command) {
        return Ok(plan);
    }
    if let Some(plan) = failover::dispatch(command) {
        return Ok(plan);
    }
    if let Some(plan) = global_proxy::dispatch(command) {
        return Ok(plan);
    }
    if let Some(plan) = hermes::dispatch(command) {
        return Ok(plan);
    }
    if let Some(plan) = mcp::dispatch(command) {
        return Ok(plan);
    }
    if let Some(plan) = mcp_config::dispatch(command) {
        return Ok(plan);
    }
    if let Some(plan) = model_fetch::dispatch(command) {
        return Ok(plan);
    }
    if let Some(plan) = model_test::dispatch(command) {
        return Ok(plan);
    }
    if let Some(plan) = omo::dispatch(command) {
        return Ok(plan);
    }
    if let Some(plan) = openclaw::dispatch(command) {
        return Ok(plan);
    }
    if let Some(plan) = pricing::dispatch(command) {
        return Ok(plan);
    }
    if let Some(plan) = prompts::dispatch(command) {
        return Ok(plan);
    }
    if let Some(plan) = proxy::dispatch(command) {
        return Ok(plan);
    }
    if let Some(plan) = proxy_extra::dispatch(command) {
        return Ok(plan);
    }
    if let Some(plan) = sessions::dispatch(command) {
        return Ok(plan);
    }
    if let Some(plan) = settings::dispatch(command, args) {
        return Ok(plan);
    }
    if let Some(plan) = skills::dispatch(command) {
        return Ok(plan);
    }
    if let Some(plan) = subscription::dispatch(command) {
        return Ok(plan);
    }
    if let Some(plan) = usage::dispatch(command) {
        return Ok(plan);
    }
    if let Some(plan) = vscode::dispatch(command) {
        return Ok(plan);
    }
    if let Some(plan) = workspace::dispatch(command) {
        return Ok(plan);
    }
    Err(WebError::NotImplemented(command.to_owned()))
}

} // verus!
