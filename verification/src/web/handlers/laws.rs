//! What holds of every command.

use vstd::prelude::*;
#[allow(unused_imports)]
use crate::json::JsonView;
#[allow(unused_imports)]
use crate::web::handlers::common;
#[allow(unused_imports)]
use crate::web::handlers::common::{NextView, PlanView, ResultView};

verus! {

proof fn lemma_run_is_the_next(plan: PlanView, results: Seq<ResultView>, value: JsonView, k: int)
    requires
        0 <= k <= results.len(),
        common::next_from(plan, results, value, k) is Run,
    ensures
        results.len() < plan.operations.len(),
        common::next_from(plan, results, value, k) == NextView::Run(
            plan.operations[results.len() as int].name,
        ),
    decreases plan.operations.len() - k,
{
    if k < plan.operations.len() && k < results.len() {
        if !plan.operations[k].required {
            lemma_run_is_the_next(plan, results, value, k + 1);
        } else if let ResultView::Done(done) = results[k] {
            lemma_run_is_the_next(plan, results, done, k + 1);
        }
    }
}

/// The operations of a command run in their order, each once: the one that is to run
/// is the one after those that have run.
pub proof fn law_operations_run_in_order(plan: PlanView, results: Seq<ResultView>)
    requires
        common::next_step(plan, results) is Run,
    ensures
        results.len() < plan.operations.len(),
        common::next_step(plan, results) == NextView::Run(
            plan.operations[results.len() as int].name,
        ),
{
    lemma_run_is_the_next(plan, results, JsonView::Null, 0);
}

proof fn lemma_refused_for_good(
    plan: PlanView,
    results: Seq<ResultView>,
    more: Seq<ResultView>,
    value: JsonView,
    k: int,
)
    requires
        0 <= k,
        common::next_from(plan, results, value, k) is Refuse,
    ensures
        common::next_from(plan, results + more, value, k) == common::next_from(
            plan,
            results,
            value,
            k,
        ),
    decreases plan.operations.len() - k,
{
    if k < plan.operations.len() && k < results.len() {
        assert((results + more)[k] == results[k]);
        if !plan.operations[k].required {
            lemma_refused_for_good(plan, results, more, value, k + 1);
        } else if let ResultView::Done(done) = results[k] {
            lemma_refused_for_good(plan, results, more, done, k + 1);
        }
    }
}

/// A command that has been refused stays refused, for the same reason: nothing runs
/// after an operation that had to succeed and failed.
pub proof fn law_a_refused_command_stays_refused(
    plan: PlanView,
    results: Seq<ResultView>,
    more: Seq<ResultView>,
)
    requires
        common::next_step(plan, results) is Refuse,
    ensures
        common::next_step(plan, results + more) == common::next_step(plan, results),
{
    lemma_refused_for_good(plan, results, more, JsonView::Null, 0);
}

proof fn lemma_trials_do_not_matter(
    plan: PlanView,
    a: Seq<ResultView>,
    b: Seq<ResultView>,
    value: JsonView,
    k: int,
)
    requires
        0 <= k,
        a.len() == b.len(),
        forall|i: int|
            0 <= i < a.len() && i < plan.operations.len() && plan.operations[i].required
                ==> #[trigger] a[i] == b[i],
    ensures
        common::next_from(plan, a, value, k) == common::next_from(plan, b, value, k),
    decreases plan.operations.len() - k,
{
    if k < plan.operations.len() && k < a.len() {
        if !plan.operations[k].required {
            lemma_trials_do_not_matter(plan, a, b, value, k + 1);
        } else {
            assert(a[k] == b[k]);
            if let ResultView::Done(done) = a[k] {
                lemma_trials_do_not_matter(plan, a, b, done, k + 1);
            }
        }
    }
}

/// What comes of an operation that may fail changes neither whether the command
/// succeeds nor what is sent.
pub proof fn law_trials_do_not_matter(plan: PlanView, a: Seq<ResultView>, b: Seq<ResultView>)
    requires
        a.len() == b.len(),
        forall|i: int|
            0 <= i < a.len() && i < plan.operations.len() && plan.operations[i].required
                ==> #[trigger] a[i] == b[i],
    ensures
        common::next_step(plan, a) == common::next_step(plan, b),
{
    lemma_trials_do_not_matter(plan, a, b, JsonView::Null, 0);
}

} // verus!
