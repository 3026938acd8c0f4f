//! Commands on testing providers.

use vstd::prelude::*;
use vstd::string::*;
use crate::web::handlers::common::WebError;
use crate::web::handlers::common::ErrorView;
use crate::text;
use crate::web::handlers::common;
use crate::web::handlers::common::{ArgKind, CommandPlan, Shape};
#[allow(unused_imports)]
use crate::web::handlers::common::PlanView;

verus! {

/// What a command does, if it is one of these.
pub open spec fn plan_of(command: Seq<char>) -> Option<PlanView> {
    if command == "stream_check_provider"@ {
        Some(
            common::calls("stream_check.find_provider"@, Shape::Value)
                .then_calls("stream_check.config"@)
                .then_calls("stream_check.run"@)
                .then_tries("stream_check.save_log"@)
                .takes(ArgKind::App, "appType"@)
                .takes(ArgKind::Text, "providerId"@),
        )
    } else if command == "get_stream_check_config"@ {
        Some(common::calls("stream_check.config"@, Shape::Value))
    } else if command == "save_stream_check_config"@ {
        Some(
            common::calls("stream_check.save_config"@, Shape::Null)
                .takes(ArgKind::Typed, "config"@),
        )
    } else {
        None
    }
}

/// What a command does, if it is one of these.
pub fn dispatch(command: &str) -> (r: Option<CommandPlan>)
    ensures
        common::plan_view(r) == plan_of(command@),
{
    if text::same_text(command, "stream_check_provider") {
        Some(
            CommandPlan::calls("stream_check.find_provider", Shape::Value)
                .then_calls("stream_check.config")
                .then_calls("stream_check.run")
                .then_tries("stream_check.save_log")
                .takes(ArgKind::App, "appType")
                .takes(ArgKind::Text, "providerId"),
        )
    } else if text::same_text(command, "get_stream_check_config") {
        Some(CommandPlan::calls("stream_check.config", Shape::Value))
    } else if text::same_text(command, "save_stream_check_config") {
        Some(
            CommandPlan::calls("stream_check.save_config", Shape::Null)
                .takes(ArgKind::Typed, "config"),
        )
    } else {
        None
    }
}

/// Whether a provider that is to be tested is there.
pub fn check_provider(id: &str, found: bool) -> (r: Result<(), WebError>)
    ensures
        r is Ok <==> found,
        !found ==> r->Err_0@ == ErrorView::Domain("Provider '"@ + id@ + "' not found"@),
{
    if found {
        Ok(())
    } else {
        Err(WebError::Domain(text::concat3("Provider '", id, "' not found")))
    }
}

} // verus!
