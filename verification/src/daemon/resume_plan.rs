//! What is restored when a daemon that made way is started again.

use vstd::prelude::*;
use vstd::string::*;
use crate::app_type::AppType;
use crate::text;

verus! {

/// The applications that the daemon has taken over.
#[derive(Debug, Clone, Copy, PartialEq, Eq, Structural)]
pub struct TakeoverFlags {
    pub claude: bool,
    pub codex: bool,
    pub gemini: bool,
}

/// A worker of the daemon.
#[derive(Debug)]
pub struct WorkerState {
    /// The application that it serves, where it is one of those that are known.
    pub app_type: Option<AppType>,
    pub pid: Option<u32>,
    /// The provider that it uses, where it says so.
    pub current_provider_id: Option<String>,
}

/// A worker to restore.
#[derive(Debug)]
pub struct ResumeTarget {
    pub app_type: AppType,
    pub fallback_provider_id: Option<String>,
}

/// A variable of the environment of a process: its name and its value.
pub type Variable = (Vec<u8>, Vec<u8>);

/// What is restored: workers, and the environment of the daemon.
#[derive(Debug)]
pub struct ResumePlan {
    pub targets: Vec<ResumeTarget>,
    pub environment: Vec<Variable>,
}

/// The model of [`ResumeTarget`].
pub struct TargetView {
    pub app_type: AppType,
    pub fallback_provider_id: Option<Seq<char>>,
}

/// The model of [`ResumePlan`].
pub struct PlanView {
    pub targets: Seq<TargetView>,
    pub environment: Seq<(Seq<u8>, Seq<u8>)>,
}

/// The model of [`WorkerState`].
pub struct WorkerView {
    pub app_type: Option<AppType>,
    pub pid: Option<u32>,
    pub current_provider_id: Option<Seq<char>>,
}

impl View for ResumeTarget {
    type V = TargetView;

    open spec fn view(&self) -> TargetView {
        TargetView {
            app_type: self.app_type,
            fallback_provider_id: text::option_view(self.fallback_provider_id),
        }
    }
}

impl View for WorkerState {
    type V = WorkerView;

    open spec fn view(&self) -> WorkerView {
        WorkerView {
            app_type: self.app_type,
            pid: self.pid,
            current_provider_id: text::option_view(self.current_provider_id),
        }
    }
}

/// The models of workers.
pub open spec fn worker_views(workers: Seq<WorkerState>) -> Seq<WorkerView> {
    Seq::new(workers.len(), |i: int| workers[i]@)
}

/// The models of workers to restore.
pub open spec fn target_views(targets: Seq<ResumeTarget>) -> Seq<TargetView> {
    Seq::new(targets.len(), |i: int| targets[i]@)
}

/// The models of variables.
pub open spec fn variable_views(variables: Seq<Variable>) -> Seq<(Seq<u8>, Seq<u8>)> {
    Seq::new(variables.len(), |i: int| (variables[i].0@, variables[i].1@))
}

impl View for ResumePlan {
    type V = PlanView;

    open spec fn view(&self) -> PlanView {
        PlanView {
            targets: target_views(self.targets@),
            environment: variable_views(self.environment@),
        }
    }
}

/// Whether an application has a worker.
pub open spec fn has_worker(workers: Seq<WorkerView>, app: AppType) -> bool {
    exists|i: int| 0 <= i < workers.len() && (#[trigger] workers[i]).app_type == Some(app)
}

/// The first provider that a worker of an application uses.
pub open spec fn first_provider(workers: Seq<WorkerView>, app: AppType) -> Option<Seq<char>>
    decreases workers.len(),
{
    if workers.len() == 0 {
        None
    } else {
        let before = first_provider(workers.drop_last(), app);
        if before is None && workers.last().app_type == Some(app) {
            workers.last().current_provider_id
        } else {
            before
        }
    }
}

/// The worker to restore of an application that has been taken over or has a
/// worker.
pub open spec fn target_of(taken_over: bool, workers: Seq<WorkerView>, app: AppType) -> Seq<
    TargetView,
> {
    if taken_over || has_worker(workers, app) {
        seq![TargetView { app_type: app, fallback_provider_id: first_provider(workers, app) }]
    } else {
        seq![]
    }
}

/// The workers to restore, in the order of their names.
pub open spec fn targets_of(takeovers: TakeoverFlags, workers: Seq<WorkerView>) -> Seq<TargetView> {
    target_of(takeovers.claude, workers, AppType::Claude) + target_of(
        takeovers.codex,
        workers,
        AppType::Codex,
    ) + target_of(takeovers.gemini, workers, AppType::Gemini)
}

/// A copy of an optional text.
fn copy_option(t: &Option<String>) -> (r: Option<String>)
    ensures
        text::option_view(r) == text::option_view(*t),
{
    match t {
        Some(t) => Some(t.clone()),
        None => None,
    }
}

/// Adds the worker to restore of an application.
fn push_target(
    targets: &mut Vec<ResumeTarget>,
    taken_over: bool,
    workers: &Vec<WorkerState>,
    app: AppType,
)
    ensures
        target_views(final(targets)@) == target_views(old(targets)@) + target_of(
            taken_over,
            worker_views(workers@),
            app,
        ),
{
    let ghost all = worker_views(workers@);
    let ghost before = target_views(targets@);
    let mut present = false;
    let mut provider: Option<String> = None;
    let mut i: usize = 0;
    while i < workers.len()
        invariant
            i <= workers@.len() == all.len(),
            all == worker_views(workers@),
            *targets == *old(targets),
            present == has_worker(all.take(i as int), app),
            text::option_view(provider) == first_provider(all.take(i as int), app),
        decreases workers@.len() - i,
    {
        let ghost seen = all.take(i as int);
        let ghost more = all.take(i + 1);
        assert(more.drop_last() == seen);
        assert(more.last() == workers@[i as int]@);
        let ghost was_present = present;
        let serves = match workers[i].app_type {
            Some(served) => served == app,
            None => false,
        };
        if serves {
            present = true;
            if provider.is_none() {
                provider = copy_option(&workers[i].current_provider_id);
            }
        }
        assert(present == has_worker(more, app)) by {
            assert(more[i as int] == workers@[i as int]@);
            if was_present {
                let k = choose|k: int|
                    0 <= k < seen.len() && (#[trigger] seen[k]).app_type == Some(app);
                assert(more[k] == seen[k]);
            }
            if has_worker(more, app) {
                let k = choose|k: int|
                    0 <= k < more.len() && (#[trigger] more[k]).app_type == Some(app);
                if k < i {
                    assert(seen[k] == more[k]);
                }
            }
        }
        i = i + 1;
    }
    assert(all.take(i as int) == all);
    if taken_over || present {
        let target = ResumeTarget { app_type: app, fallback_provider_id: provider };
        let ghost added = target@;
        targets.push(target);
        assert(target_views(targets@) =~= before + seq![added]);
    } else {
        assert(before + seq![] =~= before);
    }
}

impl ResumePlan {
    /// What is restored of a daemon, by what it says of itself.
    pub fn from_status(
        takeovers: TakeoverFlags,
        workers: &Vec<WorkerState>,
        environment: Vec<Variable>,
    ) -> (r: ResumePlan)
        ensures
            r@ == (PlanView {
                targets: targets_of(takeovers, worker_views(workers@)),
                environment: variable_views(environment@),
            }),
    {
        let mut targets: Vec<ResumeTarget> = Vec::new();
        push_target(&mut targets, takeovers.claude, workers, AppType::Claude);
        push_target(&mut targets, takeovers.codex, workers, AppType::Codex);
        push_target(&mut targets, takeovers.gemini, workers, AppType::Gemini);
        assert(target_views(targets@) =~= targets_of(takeovers, worker_views(workers@)));
        ResumePlan { targets, environment }
    }
}

/// What a daemon answers to the request to restore a worker.
#[derive(Debug)]
pub enum WorkerReply {
    /// It has been restored.
    Restored,
    /// It has been refused.
    Refused(String),
    /// It was answered something else.
    Unexpected(String),
    /// There was no answer.
    Failed(String),
}

/// What is said of a worker that was not restored.
pub fn restore_warning(app_type: &str, reply: &WorkerReply) -> (r: Option<String>)
    ensures
        match *reply {
            WorkerReply::Restored => r is None,
            WorkerReply::Refused(message) => r matches Some(warning) && warning@
                == "Could not restore "@ + app_type@ + " daemon worker after migration: "@
                + message@,
            WorkerReply::Unexpected(other) => r matches Some(warning) && warning@
                == "Unexpected response restoring "@ + app_type@ + " daemon worker: "@ + other@,
            WorkerReply::Failed(error) => r matches Some(warning) && warning@
                == "Could not restore "@ + app_type@ + " daemon worker after migration: "@ + error@,
        },
{
    match reply {
        WorkerReply::Restored => None,
        WorkerReply::Refused(message) => {
            let head = text::concat3(
                "Could not restore ",
                app_type,
                " daemon worker after migration: ",
            );
            Some(text::concat2(head.as_str(), message.as_str()))
        },
        WorkerReply::Unexpected(other) => {
            let head = text::concat3("Unexpected response restoring ", app_type, " daemon worker: ");
            Some(text::concat2(head.as_str(), other.as_str()))
        },
        WorkerReply::Failed(error) => {
            let head = text::concat3(
                "Could not restore ",
                app_type,
                " daemon worker after migration: ",
            );
            Some(text::concat2(head.as_str(), error.as_str()))
        },
    }
}

/// Whether an application was taken over.
pub open spec fn was_taken_over(takeovers: TakeoverFlags, app: AppType) -> bool {
    match app {
        AppType::Claude => takeovers.claude,
        AppType::Codex => takeovers.codex,
        AppType::Gemini => takeovers.gemini,
        _ => false,
    }
}

/// Whether the daemon can take over an application.
pub open spec fn can_be_taken_over(app: AppType) -> bool {
    app == AppType::Claude || app == AppType::Codex || app == AppType::Gemini
}

/// Just the applications that were taken over or had a worker are restored, each with
/// the first provider that a worker of it used.
pub proof fn law_every_active_app_is_restored(
    takeovers: TakeoverFlags,
    workers: Seq<WorkerView>,
    target: TargetView,
)
    ensures
        targets_of(takeovers, workers).contains(target) <==> {
            &&& can_be_taken_over(target.app_type)
            &&& was_taken_over(takeovers, target.app_type) || has_worker(workers, target.app_type)
            &&& target.fallback_provider_id == first_provider(workers, target.app_type)
        },
{
    let all = targets_of(takeovers, workers);
    let claude = target_of(takeovers.claude, workers, AppType::Claude);
    let codex = target_of(takeovers.codex, workers, AppType::Codex);
    let gemini = target_of(takeovers.gemini, workers, AppType::Gemini);
    if all.contains(target) {
        let k = choose|k: int| 0 <= k < all.len() && all[k] == target;
        if k < claude.len() {
            assert(target == claude[k]);
        } else if k < claude.len() + codex.len() {
            assert(target == codex[k - claude.len()]);
        } else {
            assert(target == gemini[k - claude.len() - codex.len()]);
        }
    }
    if claude.len() > 0 {
        assert(all[0] == claude[0]);
    }
    if codex.len() > 0 {
        assert(all[claude.len() as int] == codex[0]);
    }
    if gemini.len() > 0 {
        assert(all[(claude.len() + codex.len()) as int] == gemini[0]);
    }
}

/// The provider with which a worker of an application is restored is that of the first worker
/// of the application that had one.
pub proof fn law_a_worker_is_restored_with_its_provider(
    workers: Seq<WorkerView>,
    app: AppType,
    k: int,
)
    requires
        0 <= k < workers.len(),
        workers[k].app_type == Some(app),
        workers[k].current_provider_id is Some,
        forall|i: int|
            0 <= i < k && (#[trigger] workers[i]).app_type == Some(app)
                ==> workers[i].current_provider_id is None,
    ensures
        first_provider(workers, app) == workers[k].current_provider_id,
    decreases workers.len(),
{
    let head = workers.drop_last();
    if k < workers.len() - 1 {
        assert(head[k] == workers[k]);
        assert forall|i: int| 0 <= i < k && (#[trigger] head[i]).app_type == Some(app) implies head[i].current_provider_id
            is None by {
            assert(head[i] == workers[i]);
        }
        law_a_worker_is_restored_with_its_provider(head, app, k);
    } else {
        lemma_no_provider(head, app);
    }
}

proof fn lemma_no_provider(workers: Seq<WorkerView>, app: AppType)
    requires
        forall|i: int|
            0 <= i < workers.len() && (#[trigger] workers[i]).app_type == Some(app)
                ==> workers[i].current_provider_id is None,
    ensures
        first_provider(workers, app) is None,
    decreases workers.len(),
{
    if workers.len() > 0 {
        let head = workers.drop_last();
        assert forall|i: int|
            0 <= i < head.len() && (#[trigger] head[i]).app_type == Some(app) implies head[i].current_provider_id
            is None by {
            assert(head[i] == workers[i]);
        }
        lemma_no_provider(head, app);
        assert(workers[workers.len() - 1] == workers.last());
    }
}

} // verus!
