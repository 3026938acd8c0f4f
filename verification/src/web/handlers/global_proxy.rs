//! Commands on the proxy through which the program itself reaches the network.

use vstd::prelude::*;
use crate::text;
use crate::web::handlers::common;
use crate::web::handlers::common::{ArgKind, CommandPlan, Shape};
#[allow(unused_imports)]
use crate::web::handlers::common::PlanView;

verus! {

/// What a command does, if it is one of these.
pub open spec fn plan_of(command: Seq<char>) -> Option<PlanView> {
    if command == "get_global_proxy_url"@ {
        Some(common::calls("global_proxy.url"@, Shape::Value))
    } else if command == "set_global_proxy_url"@ {
        Some(common::calls("global_proxy.set_url"@, Shape::Null).takes(ArgKind::Text, "url"@))
    } else {
        None
    }
}

/// What a command does, if it is one of these.
pub fn dispatch(command: &str) -> (r: Option<CommandPlan>)
    ensures
        common::plan_view(r) == plan_of(command@),
{
    if text::same_text(command, "get_global_proxy_url") {
        Some(CommandPlan::calls("global_proxy.url", Shape::Value))
    } else if text::same_text(command, "set_global_proxy_url") {
        Some(CommandPlan::calls("global_proxy.set_url", Shape::Null).takes(ArgKind::Text, "url"))
    } else {
        None
    }
}

} // verus!
