//! Commands on OMO, none of which is offered.

use vstd::prelude::*;
use crate::web::handlers::common::CommandPlan;
#[allow(unused_imports)]
use crate::web::handlers::common::PlanView;

verus! {

/// What a command does, if it is one of these: none is.
pub open spec fn plan_of(command: Seq<char>) -> Option<PlanView> {
    None
}

/// What a command does, if it is one of these: none is.
pub fn dispatch(command: &str) -> (r: Option<CommandPlan>)
    ensures
        r is None,
        plan_of(command@) is None,
{
    None
}

} // verus!
