//! Commands on stopping the local proxy.

use vstd::prelude::*;
use crate::text;
use crate::web::handlers::common;
use crate::web::handlers::common::{CommandPlan, Shape};
#[allow(unused_imports)]
use crate::web::handlers::common::PlanView;

verus! {

/// What a command does, if it is one of these.
pub open spec fn plan_of(command: Seq<char>) -> Option<PlanView> {
    if command == "stop_proxy_server"@ {
        Some(common::calls("proxy.stop"@, Shape::Null))
    } else {
        None
    }
}

/// What a command does, if it is one of these.
pub fn dispatch(command: &str) -> (r: Option<CommandPlan>)
    ensures
        common::plan_view(r) == plan_of(command@),
{
    if text::same_text(command, "stop_proxy_server") {
        Some(CommandPlan::calls("proxy.stop", Shape::Null))
    } else {
        None
    }
}

} // verus!
