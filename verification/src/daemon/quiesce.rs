//! Making a running daemon make way for a database migration.
//!
//! [`Quiesce`] decides; it does nothing by itself. It is asked for the first
//! action and then told what came of each, and gives the next one, until it gives
//! the outcome. The daemon is asked to shut down only when it has the very database
//! open, when no other process has it open but the daemon's own workers, and when a
//! backup has been made; where anything fails after that, the daemon is started
//! again.

use vstd::prelude::*;
use vstd::string::*;
use crate::daemon::holders;
use crate::daemon::pids::PidSet;
use crate::daemon::resume_plan;
use crate::daemon::resume_plan::{
    PlanView, ResumePlan, TakeoverFlags, Variable, WorkerState, WorkerView,
};
use crate::text;

verus! {

/// What is waited for.
#[derive(Debug, Clone, Copy, PartialEq, Eq, Structural)]
pub enum Stage {
    /// The processes that have the database open, to begin with.
    InitialHolders,
    /// The daemon's lease, to begin with.
    InitialLease,
    /// A backup where no daemon is in the way.
    InitialBackup { leased: bool },
    /// Whether the database still needs a migration.
    Top,
    /// The status of the daemon.
    Status,
    /// Whether the daemon that gave its status is the one with the lease.
    Identity,
    IdentityMigration,
    IdentityHolders,
    /// A backup where the daemon turned out to be that of another database.
    ForeignBackup,
    /// A backup while the daemon still serves.
    OnlineBackup,
    /// Whether the daemon is still the one with the lease, after the backup.
    AfterBackup,
    AfterBackupMigration,
    AfterBackupHolders,
    /// The environment of the daemon.
    Environment,
    /// The daemon's answer to the request to shut down.
    Shutdown,
    /// The daemon's lease, once it has been asked to shut down.
    Poll,
    PollMigration,
    /// The end of one of the daemon's workers.
    Waiting { worker: usize },
    /// The processes that still have the database open.
    Remaining,
    /// A backup, when all have made way.
    FinalBackup,
    /// Whether time has run out.
    Deadline,
    Finished,
}

/// What is done next.
#[derive(Debug)]
pub enum Action {
    /// List the processes that have the database open, but for this one.
    ListHolders,
    /// Try to acquire the daemon's lease.
    AcquireLease,
    CreateBackup,
    /// Look whether the database still needs a migration.
    CheckMigration,
    /// Ask the daemon for its status.
    QueryStatus,
    /// Read the environment of a process.
    ReadEnvironment { pid: u32 },
    /// Ask the daemon to shut down.
    RequestShutdown,
    /// Wait until a process has ended.
    AwaitExit { pid: u32 },
    /// Look whether time has run out, and wait a moment if it has not.
    CheckDeadline,
    /// The migration may begin, with the lease or without it.
    Ready { keeps_lease: bool },
    /// The migration may not begin. Where `resume` holds, the daemon is started
    /// again.
    Fail { message: String, resume: bool },
}

/// What is done next; the lease is given back before where `release_lease` holds.
#[derive(Debug)]
pub struct Step {
    pub release_lease: bool,
    pub action: Action,
}

/// The model of [`Action`].
pub enum ActionView {
    ListHolders,
    AcquireLease,
    CreateBackup,
    CheckMigration,
    QueryStatus,
    ReadEnvironment { pid: u32 },
    RequestShutdown,
    AwaitExit { pid: u32 },
    CheckDeadline,
    Ready { keeps_lease: bool },
    Fail { message: Seq<char>, resume: bool },
}

/// The model of [`Step`].
pub struct StepView {
    pub release_lease: bool,
    pub action: ActionView,
}

impl View for Action {
    type V = ActionView;

    open spec fn view(&self) -> ActionView {
        match *self {
            Action::ListHolders => ActionView::ListHolders,
            Action::AcquireLease => ActionView::AcquireLease,
            Action::CreateBackup => ActionView::CreateBackup,
            Action::CheckMigration => ActionView::CheckMigration,
            Action::QueryStatus => ActionView::QueryStatus,
            Action::ReadEnvironment { pid } => ActionView::ReadEnvironment { pid },
            Action::RequestShutdown => ActionView::RequestShutdown,
            Action::AwaitExit { pid } => ActionView::AwaitExit { pid },
            Action::CheckDeadline => ActionView::CheckDeadline,
            Action::Ready { keeps_lease } => ActionView::Ready { keeps_lease },
            Action::Fail { message, resume } => ActionView::Fail { message: message@, resume },
        }
    }
}

impl View for Step {
    type V = StepView;

    open spec fn view(&self) -> StepView {
        StepView { release_lease: self.release_lease, action: self.action@ }
    }
}

/// What came of the attempt to acquire the lease.
#[derive(Debug)]
pub enum LeaseReply {
    Acquired,
    /// A process has it, which may be known.
    Held(Option<u32>),
    Failed(String),
}

/// The model of [`LeaseReply`].
pub enum LeaseView {
    Acquired,
    Held(Option<u32>),
    Failed(Seq<char>),
}

impl View for LeaseReply {
    type V = LeaseView;

    open spec fn view(&self) -> LeaseView {
        match *self {
            LeaseReply::Acquired => LeaseView::Acquired,
            LeaseReply::Held(pid) => LeaseView::Held(pid),
            LeaseReply::Failed(error) => LeaseView::Failed(error@),
        }
    }
}

/// What the daemon answers when asked for its status.
#[derive(Debug)]
pub enum StatusReply {
    Status { takeovers: TakeoverFlags, workers: Vec<WorkerState> },
    Unexpected(String),
    Failed(String),
}

/// The model of [`StatusReply`].
pub enum StatusView {
    Status { takeovers: TakeoverFlags, workers: Seq<WorkerView> },
    Unexpected(Seq<char>),
    Failed(Seq<char>),
}

impl View for StatusReply {
    type V = StatusView;

    open spec fn view(&self) -> StatusView {
        match *self {
            StatusReply::Status { takeovers, workers } => StatusView::Status {
                takeovers,
                workers: resume_plan::worker_views(workers@),
            },
            StatusReply::Unexpected(other) => StatusView::Unexpected(other@),
            StatusReply::Failed(error) => StatusView::Failed(error@),
        }
    }
}

/// What the daemon answers when asked to shut down.
#[derive(Debug)]
pub enum ShutdownReply {
    Accepted,
    Refused(String),
    Unexpected(String),
    Failed(String),
}

/// The model of [`ShutdownReply`].
pub enum ShutdownView {
    Accepted,
    Refused(Seq<char>),
    Unexpected(Seq<char>),
    Failed(Seq<char>),
}

impl View for ShutdownReply {
    type V = ShutdownView;

    open spec fn view(&self) -> ShutdownView {
        match *self {
            ShutdownReply::Accepted => ShutdownView::Accepted,
            ShutdownReply::Refused(message) => ShutdownView::Refused(message@),
            ShutdownReply::Unexpected(other) => ShutdownView::Unexpected(other@),
            ShutdownReply::Failed(error) => ShutdownView::Failed(error@),
        }
    }
}

/// What is remembered.
pub struct QuiesceView {
    pub stage: Stage,
    pub database: Seq<char>,
    pub pidfile: Seq<char>,
    pub holders: Seq<u32>,
    pub owner: u32,
    pub takeovers: TakeoverFlags,
    pub workers: Seq<WorkerView>,
    pub worker_pids: Seq<u32>,
    pub resume: Option<PlanView>,
    pub shutdown_requested: bool,
    pub backup_created: bool,
    pub last_error: Seq<char>,
}

/// The result of an attempt.
pub enum Tried<T> {
    Done(T),
    Failed(Seq<char>),
}

/// The result of an attempt that gives a plain value.
pub open spec fn tried<T>(result: Result<T, String>) -> Tried<T> {
    match result {
        Ok(value) => Tried::Done(value),
        Err(error) => Tried::Failed(error@),
    }
}

/// The result of listing processes.
pub open spec fn tried_holders(result: Result<PidSet, String>) -> Tried<Seq<u32>> {
    match result {
        Ok(holders) => Tried::Done(holders@),
        Err(error) => Tried::Failed(error@),
    }
}

/// The result of reading an environment.
pub open spec fn tried_environment(result: Result<Vec<Variable>, String>) -> Tried<
    Seq<(Seq<u8>, Seq<u8>)>,
> {
    match result {
        Ok(environment) => Tried::Done(resume_plan::variable_views(environment@)),
        Err(error) => Tried::Failed(error@),
    }
}

/// Goes on to a stage by an action.
pub open spec fn go(s: QuiesceView, stage: Stage, action: ActionView) -> (QuiesceView, StepView) {
    (QuiesceView { stage, ..s }, StepView { release_lease: false, action })
}

/// Ends without a migration.
pub open spec fn fail(s: QuiesceView, release_lease: bool, message: Seq<char>, resume: bool) -> (
    QuiesceView,
    StepView,
) {
    (
        QuiesceView { stage: Stage::Finished, ..s },
        StepView { release_lease, action: ActionView::Fail { message, resume } },
    )
}

/// Ends with the migration.
pub open spec fn ready(s: QuiesceView, keeps_lease: bool) -> (QuiesceView, StepView) {
    go(s, Stage::Finished, ActionView::Ready { keeps_lease })
}

/// Goes back to looking whether the database still needs a migration.
pub open spec fn again(s: QuiesceView, release_lease: bool) -> (QuiesceView, StepView) {
    (
        QuiesceView { stage: Stage::Top, ..s },
        StepView { release_lease, action: ActionView::CheckMigration },
    )
}

/// Takes another process for the one with the lease.
pub open spec fn with_owner(s: QuiesceView, owner: u32) -> QuiesceView {
    QuiesceView { owner, worker_pids: Seq::empty(), ..s }
}

/// The processes among holders that are neither the owner nor one of its workers.
pub open spec fn uncoordinated(s: QuiesceView, found: Seq<u32>) -> Seq<u32> {
    found.filter(|p: u32| p != s.owner && !s.worker_pids.contains(p))
}

/// The process ids of workers.
pub open spec fn pids_of(workers: Seq<WorkerView>) -> Seq<u32>
    decreases workers.len(),
{
    if workers.len() == 0 {
        Seq::empty()
    } else {
        let before = pids_of(workers.drop_last());
        match workers.last().pid {
            Some(pid) => before.push(pid),
            None => before,
        }
    }
}

/// Waits for a worker of the daemon to end, or goes on where there is none left.
pub open spec fn await_worker(s: QuiesceView, worker: usize) -> (QuiesceView, StepView) {
    if worker < s.worker_pids.len() {
        go(
            s,
            Stage::Waiting { worker },
            ActionView::AwaitExit { pid: s.worker_pids[worker as int] },
        )
    } else {
        go(s, Stage::Remaining, ActionView::ListHolders)
    }
}

/// Goes on with a database that no daemon is in the way of, unless a process has
/// it open.
pub open spec fn without_daemon(s: QuiesceView, leased: bool) -> (QuiesceView, StepView) {
    if s.holders.len() > 0 {
        fail(s, leased, holders::holders_error(s.database, s.holders), false)
    } else {
        go(s, Stage::InitialBackup { leased }, ActionView::CreateBackup)
    }
}

/// The stages in which the processes that have the database open are waited for.
pub open spec fn awaits_holders(stage: Stage) -> bool {
    stage is InitialHolders || stage is IdentityHolders || stage is AfterBackupHolders
        || stage is Remaining
}

/// What is done when processes that have the database open have been listed.
pub open spec fn after_holders(s: QuiesceView, found: Tried<Seq<u32>>) -> (QuiesceView, StepView) {
    match (s.stage, found) {
        (Stage::InitialHolders, Tried::Done(list)) => go(
            QuiesceView { holders: list, ..s },
            Stage::InitialLease,
            ActionView::AcquireLease,
        ),
        (Stage::IdentityHolders, Tried::Done(list)) => if !list.contains(s.owner) {
            if list.len() > 0 {
                fail(s, false, holders::holders_error(s.database, list), false)
            } else if s.backup_created {
                ready(s, false)
            } else {
                go(s, Stage::ForeignBackup, ActionView::CreateBackup)
            }
        } else if uncoordinated(s, list).len() > 0 {
            fail(
                s,
                false,
                holders::holders_error(s.database, uncoordinated(s, list)),
                false,
            )
        } else if s.backup_created {
            go(s, Stage::AfterBackup, ActionView::AcquireLease)
        } else {
            go(s, Stage::OnlineBackup, ActionView::CreateBackup)
        },
        (Stage::AfterBackupHolders, Tried::Done(list)) => if !list.contains(s.owner) {
            again(s, false)
        } else if uncoordinated(s, list).len() > 0 {
            fail(
                s,
                false,
                holders::holders_error(s.database, uncoordinated(s, list)),
                false,
            )
        } else {
            go(s, Stage::Environment, ActionView::ReadEnvironment { pid: s.owner })
        },
        (Stage::Remaining, Tried::Done(list)) => if list.len() > 0 {
            fail(s, true, holders::holders_error(s.database, list), s.resume is Some)
        } else if s.backup_created {
            ready(s, true)
        } else {
            go(s, Stage::FinalBackup, ActionView::CreateBackup)
        },
        (Stage::Remaining, Tried::Failed(error)) => fail(s, true, error, s.resume is Some),
        (_, Tried::Failed(error)) => fail(s, false, error, false),
        (_, Tried::Done(_)) => (s, StepView { release_lease: false, action: ActionView::ListHolders }),
    }
}

/// The stages in which the lease is waited for.
pub open spec fn awaits_lease(stage: Stage) -> bool {
    stage is InitialLease || stage is Identity || stage is AfterBackup || stage is Poll
}

/// Whether the daemon that is to be resumed has been asked to shut down.
pub open spec fn resumes(s: QuiesceView) -> bool {
    s.shutdown_requested && s.resume is Some
}

/// What is done when it has been tried to acquire the lease while the daemon still
/// serves: only a lease that is still the same process's lets things go on.
pub open spec fn after_identity(
    s: QuiesceView,
    reply: LeaseView,
    next: Stage,
    changed: Seq<char>,
    unverified: Seq<char>,
) -> (QuiesceView, StepView) {
    match reply {
        LeaseView::Acquired => again(s, true),
        LeaseView::Held(Some(pid)) => if pid == s.owner {
            go(s, next, ActionView::CheckMigration)
        } else {
            again(with_owner(s, pid), false)
        },
        LeaseView::Held(None) => again(QuiesceView { last_error: changed, ..s }, false),
        LeaseView::Failed(error) => fail(
            s,
            false,
            "verify daemon migration lease "@ + s.pidfile + unverified + error,
            false,
        ),
    }
}

/// What is done when it has been tried to acquire the lease.
pub open spec fn after_lease(s: QuiesceView, reply: LeaseView) -> (QuiesceView, StepView) {
    match s.stage {
        Stage::InitialLease => match reply {
            LeaseView::Acquired => without_daemon(s, true),
            LeaseView::Held(Some(pid)) => if s.holders.contains(pid) {
                again(QuiesceView { owner: pid, ..s }, false)
            } else {
                without_daemon(s, false)
            },
            LeaseView::Held(None) => without_daemon(s, false),
            LeaseView::Failed(error) => fail(
                s,
                false,
                "acquire daemon migration lease "@ + s.pidfile + " failed: "@ + error,
                false,
            ),
        },
        Stage::Identity => after_identity(
            s,
            reply,
            Stage::IdentityMigration,
            "daemon pidfile owner changed during identity check"@,
            " failed: "@,
        ),
        Stage::AfterBackup => after_identity(
            s,
            reply,
            Stage::AfterBackupMigration,
            "daemon pidfile owner changed during backup"@,
            " after backup failed: "@,
        ),
        Stage::Poll => match reply {
            LeaseView::Acquired => go(s, Stage::PollMigration, ActionView::CheckMigration),
            LeaseView::Held(Some(pid)) => go(
                if pid == s.owner {
                    s
                } else {
                    QuiesceView { shutdown_requested: false, ..with_owner(s, pid) }
                },
                Stage::Deadline,
                ActionView::CheckDeadline,
            ),
            LeaseView::Held(None) => go(s, Stage::Deadline, ActionView::CheckDeadline),
            LeaseView::Failed(error) => fail(
                s,
                false,
                "acquire daemon migration lease "@ + s.pidfile + " failed: "@ + error,
                resumes(s),
            ),
        },
        _ => (s, StepView { release_lease: false, action: ActionView::AcquireLease }),
    }
}

/// The stages in which a backup is waited for.
pub open spec fn awaits_backup(stage: Stage) -> bool {
    stage is InitialBackup || stage is ForeignBackup || stage is OnlineBackup
        || stage is FinalBackup
}

/// What is done when it has been tried to make a backup.
pub open spec fn after_backup(s: QuiesceView, created: Tried<bool>) -> (QuiesceView, StepView) {
    match (s.stage, created) {
        (Stage::InitialBackup { leased }, Tried::Done(created)) => ready(
            QuiesceView { backup_created: created, ..s },
            leased,
        ),
        (Stage::InitialBackup { leased }, Tried::Failed(error)) => fail(s, leased, error, false),
        (Stage::ForeignBackup, Tried::Done(created)) => ready(
            QuiesceView { backup_created: created, ..s },
            false,
        ),
        (Stage::OnlineBackup, Tried::Done(created)) => go(
            QuiesceView { backup_created: created, ..s },
            Stage::AfterBackup,
            ActionView::AcquireLease,
        ),
        (Stage::FinalBackup, Tried::Done(created)) => ready(
            QuiesceView { backup_created: created, ..s },
            true,
        ),
        (Stage::FinalBackup, Tried::Failed(error)) => fail(s, true, error, resumes(s)),
        (_, Tried::Failed(error)) => fail(s, false, error, false),
        (_, Tried::Done(_)) => (
            s,
            StepView { release_lease: false, action: ActionView::CreateBackup },
        ),
    }
}

/// The stages in which it is waited for whether the database still needs a
/// migration.
pub open spec fn awaits_migration(stage: Stage) -> bool {
    stage is Top || stage is IdentityMigration || stage is AfterBackupMigration
        || stage is PollMigration
}

/// What is done when it is known whether the database still needs a migration.
/// Where it needs none, another process has made it, and nothing is left to do.
pub open spec fn after_migration(s: QuiesceView, needed: Tried<bool>) -> (QuiesceView, StepView) {
    match (s.stage, needed) {
        (Stage::Top, Tried::Failed(error)) => fail(s, false, error, resumes(s)),
        (Stage::PollMigration, Tried::Failed(error)) => fail(s, true, error, resumes(s)),
        (_, Tried::Failed(error)) => fail(s, false, error, false),
        (_, Tried::Done(false)) => ready(s, s.stage is PollMigration),
        (Stage::Top, Tried::Done(true)) => if s.shutdown_requested {
            go(s, Stage::Poll, ActionView::AcquireLease)
        } else {
            go(s, Stage::Status, ActionView::QueryStatus)
        },
        (Stage::IdentityMigration, Tried::Done(true)) => go(
            QuiesceView { worker_pids: pids_of(s.workers), ..s },
            Stage::IdentityHolders,
            ActionView::ListHolders,
        ),
        (Stage::AfterBackupMigration, Tried::Done(true)) => go(
            s,
            Stage::AfterBackupHolders,
            ActionView::ListHolders,
        ),
        (_, Tried::Done(true)) => await_worker(s, 0),
    }
}

/// What is done when the daemon has been asked for its status.
pub open spec fn after_status(s: QuiesceView, reply: StatusView) -> (QuiesceView, StepView) {
    match reply {
        StatusView::Status { takeovers, workers } => go(
            QuiesceView { takeovers, workers, ..s },
            Stage::Identity,
            ActionView::AcquireLease,
        ),
        StatusView::Unexpected(other) => go(
            QuiesceView { last_error: "unexpected daemon status response: "@ + other, ..s },
            Stage::Poll,
            ActionView::AcquireLease,
        ),
        StatusView::Failed(error) => go(
            QuiesceView { last_error: "query daemon status failed: "@ + error, ..s },
            Stage::Poll,
            ActionView::AcquireLease,
        ),
    }
}

/// What is done when it has been tried to read the environment of the daemon.
pub open spec fn after_environment(
    s: QuiesceView,
    environment: Tried<Seq<(Seq<u8>, Seq<u8>)>>,
) -> (QuiesceView, StepView) {
    match environment {
        Tried::Done(environment) => go(
            QuiesceView {
                resume: Some(
                    PlanView {
                        targets: resume_plan::targets_of(s.takeovers, s.workers),
                        environment,
                    },
                ),
                ..s
            },
            Stage::Shutdown,
            ActionView::RequestShutdown,
        ),
        Tried::Failed(error) => fail(
            s,
            false,
            "cannot safely preserve daemon environment before migrating "@ + s.database + " (PID "@
                + text::decimal(s.owner as nat) + "): "@ + error
                + "; stop the daemon manually and retry"@,
            false,
        ),
    }
}

/// What is done when the daemon has been asked to shut down.
pub open spec fn after_shutdown(s: QuiesceView, reply: ShutdownView) -> (QuiesceView, StepView) {
    match reply {
        ShutdownView::Accepted => go(
            QuiesceView { shutdown_requested: true, ..s },
            Stage::Poll,
            ActionView::AcquireLease,
        ),
        ShutdownView::Refused(message) => fail(
            s,
            false,
            "daemon refused shutdown before database migration: "@ + message,
            false,
        ),
        ShutdownView::Unexpected(other) => fail(
            s,
            false,
            "unexpected daemon shutdown response before migration: "@ + other,
            false,
        ),
        ShutdownView::Failed(error) => go(
            QuiesceView { last_error: "request daemon shutdown failed: "@ + error, ..s },
            Stage::Poll,
            ActionView::AcquireLease,
        ),
    }
}

/// What is done when it has been waited for a worker to end.
pub open spec fn after_exit(s: QuiesceView, exited: Tried<()>) -> (QuiesceView, StepView) {
    match (s.stage, exited) {
        (Stage::Waiting { worker }, Tried::Done(_)) => await_worker(s, (worker + 1) as usize),
        (_, Tried::Failed(error)) => fail(s, true, error, s.resume is Some),
        (_, Tried::Done(_)) => await_worker(s, 0),
    }
}

/// What is done when it is known whether time has run out.
pub open spec fn after_deadline(s: QuiesceView, passed: bool) -> (QuiesceView, StepView) {
    if passed {
        fail(
            s,
            false,
            "daemon did not quiesce within 30s before database migration"@ + if s.last_error.len()
                == 0 {
                Seq::empty()
            } else {
                ": "@ + s.last_error
            },
            resumes(s),
        )
    } else {
        again(s, false)
    }
}

/// The way of a database migration past a daemon.
pub struct Quiesce {
    stage: Stage,
    database: String,
    pidfile: String,
    holders: PidSet,
    owner: u32,
    takeovers: TakeoverFlags,
    workers: Vec<WorkerState>,
    worker_pids: Vec<u32>,
    resume: Option<ResumePlan>,
    shutdown_requested: bool,
    backup_created: bool,
    last_error: String,
}

/// The model of an optional plan.
pub open spec fn plan_view(plan: Option<ResumePlan>) -> Option<PlanView> {
    match plan {
        Some(plan) => Some(plan@),
        None => None,
    }
}

impl View for Quiesce {
    type V = QuiesceView;

    closed spec fn view(&self) -> QuiesceView {
        QuiesceView {
            stage: self.stage,
            database: self.database@,
            pidfile: self.pidfile@,
            holders: self.holders@,
            owner: self.owner,
            takeovers: self.takeovers,
            workers: resume_plan::worker_views(self.workers@),
            worker_pids: self.worker_pids@,
            resume: plan_view(self.resume),
            shutdown_requested: self.shutdown_requested,
            backup_created: self.backup_created,
            last_error: self.last_error@,
        }
    }
}

/// What is remembered to begin with.
pub open spec fn initial(database: Seq<char>, pidfile: Seq<char>) -> QuiesceView {
    QuiesceView {
        stage: Stage::InitialHolders,
        database,
        pidfile,
        holders: Seq::empty(),
        owner: 0,
        takeovers: TakeoverFlags { claude: false, codex: false, gemini: false },
        workers: Seq::empty(),
        worker_pids: Seq::empty(),
        resume: None,
        shutdown_requested: false,
        backup_created: false,
        last_error: Seq::empty(),
    }
}

/// A step that goes on by an action.
fn plain(action: Action) -> (r: Step)
    ensures
        r@ == (StepView { release_lease: false, action: action@ }),
{
    Step { release_lease: false, action }
}

impl Quiesce {
    /// Begins: the first action is to list the processes that have the database
    /// open.
    pub fn new(database: &str, pidfile: &str) -> (r: (Quiesce, Step))
        ensures
            r.0@ == initial(database@, pidfile@),
            r.1@ == (StepView { release_lease: false, action: ActionView::ListHolders }),
    {
        let quiesce = Quiesce {
            stage: Stage::InitialHolders,
            database: database.to_owned(),
            pidfile: pidfile.to_owned(),
            holders: PidSet::new(),
            owner: 0,
            takeovers: TakeoverFlags { claude: false, codex: false, gemini: false },
            workers: Vec::new(),
            worker_pids: Vec::new(),
            resume: None,
            shutdown_requested: false,
            backup_created: false,
            last_error: String::new(),
        };
        assert(resume_plan::worker_views(quiesce.workers@) =~= Seq::empty());
        (quiesce, plain(Action::ListHolders))
    }

    /// What is waited for.
    pub fn stage(&self) -> (r: Stage)
        ensures
            r == self@.stage,
    {
        self.stage
    }

    /// Whether a backup has been made.
    pub fn backup_created(&self) -> (r: bool)
        ensures
            r == self@.backup_created,
    {
        self.backup_created
    }

    /// What is restored when the daemon is started again.
    pub fn into_resume(self) -> (r: Option<ResumePlan>)
        ensures
            plan_view(r) == self@.resume,
    {
        self.resume
    }

    /// Goes on to a stage by an action.
    fn go(&mut self, stage: Stage, action: Action) -> (r: Step)
        ensures
            (final(self)@, r@) == go(old(self)@, stage, action@),
    {
        self.stage = stage;
        plain(action)
    }

    /// Ends without a migration.
    fn fail(&mut self, release_lease: bool, message: String, resume: bool) -> (r: Step)
        ensures
            (final(self)@, r@) == fail(old(self)@, release_lease, message@, resume),
    {
        self.stage = Stage::Finished;
        Step { release_lease, action: Action::Fail { message, resume } }
    }

    /// Ends with the migration.
    fn ready(&mut self, keeps_lease: bool) -> (r: Step)
        ensures
            (final(self)@, r@) == ready(old(self)@, keeps_lease),
    {
        self.go(Stage::Finished, Action::Ready { keeps_lease })
    }

    /// Goes back to looking whether the database still needs a migration.
    fn again(&mut self, release_lease: bool) -> (r: Step)
        ensures
            (final(self)@, r@) == again(old(self)@, release_lease),
    {
        self.stage = Stage::Top;
        Step { release_lease, action: Action::CheckMigration }
    }

    /// Takes another process for the one with the lease.
    fn set_owner(&mut self, owner: u32)
        ensures
            final(self)@ == with_owner(old(self)@, owner),
    {
        self.owner = owner;
        self.worker_pids = Vec::new();
    }

    /// Whether a daemon that has been asked to shut down is to be resumed.
    fn resumes(&self) -> (r: bool)
        ensures
            r == resumes(self@),
    {
        self.shutdown_requested && self.resume.is_some()
    }

    /// Goes on with a database that no daemon is in the way of.
    fn without_daemon(&mut self, leased: bool) -> (r: Step)
        ensures
            (final(self)@, r@) == without_daemon(old(self)@, leased),
    {
        if !self.holders.is_empty() {
            let message = holders::database_holders_error(self.database.as_str(), &self.holders);
            self.fail(leased, message, false)
        } else {
            self.go(Stage::InitialBackup { leased }, Action::CreateBackup)
        }
    }

    /// The processes among holders that are neither the owner nor its workers.
    fn uncoordinated(&self, found: &PidSet) -> (r: PidSet)
        ensures
            r@ == uncoordinated(self@, found@),
    {
        found.beyond(self.owner, &self.worker_pids)
    }

    /// Waits for a worker of the daemon to end.
    fn await_worker(&mut self, worker: usize) -> (r: Step)
        ensures
            (final(self)@, r@) == await_worker(old(self)@, worker),
    {
        if worker < self.worker_pids.len() {
            let pid: u32 = self.worker_pids[worker];
            self.go(Stage::Waiting { worker }, Action::AwaitExit { pid })
        } else {
            self.go(Stage::Remaining, Action::ListHolders)
        }
    }

    /// The processes that have the database open have been listed.
    pub fn on_holders(&mut self, found: Result<PidSet, String>) -> (r: Step)
        requires
            awaits_holders(old(self)@.stage),
        ensures
            (final(self)@, r@) == after_holders(old(self)@, tried_holders(found)),
    {
        let list = match found {
            Ok(list) => list,
            Err(error) => {
                return if let Stage::Remaining = self.stage {
                    let resume = self.resume.is_some();
                    self.fail(true, error, resume)
                } else {
                    self.fail(false, error, false)
                };
            },
        };
        match self.stage {
            Stage::InitialHolders => {
                self.holders = list;
                self.go(Stage::InitialLease, Action::AcquireLease)
            },
            Stage::IdentityHolders => {
                if !list.contains(self.owner) {
                    return if !list.is_empty() {
                        let message = holders::database_holders_error(
                            self.database.as_str(),
                            &list,
                        );
                        self.fail(false, message, false)
                    } else if self.backup_created {
                        self.ready(false)
                    } else {
                        self.go(Stage::ForeignBackup, Action::CreateBackup)
                    };
                }
                let others = self.uncoordinated(&list);
                if !others.is_empty() {
                    let message = holders::database_holders_error(self.database.as_str(), &others);
                    self.fail(false, message, false)
                } else if self.backup_created {
                    self.go(Stage::AfterBackup, Action::AcquireLease)
                } else {
                    self.go(Stage::OnlineBackup, Action::CreateBackup)
                }
            },
            Stage::AfterBackupHolders => {
                if !list.contains(self.owner) {
                    return self.again(false);
                }
                let others = self.uncoordinated(&list);
                if !others.is_empty() {
                    let message = holders::database_holders_error(self.database.as_str(), &others);
                    self.fail(false, message, false)
                } else {
                    let pid: u32 = self.owner;
                    self.go(Stage::Environment, Action::ReadEnvironment { pid })
                }
            },
            _ => {
                if !list.is_empty() {
                    let message = holders::database_holders_error(self.database.as_str(), &list);
                    let resume = self.resume.is_some();
                    self.fail(true, message, resume)
                } else if self.backup_created {
                    self.ready(true)
                } else {
                    self.go(Stage::FinalBackup, Action::CreateBackup)
                }
            },
        }
    }

    /// It has been tried to acquire the lease while the daemon still serves.
    fn on_identity(&mut self, reply: LeaseReply, next: Stage, changed: &str, unverified: &str) -> (r:
        Step)
        ensures
            (final(self)@, r@) == after_identity(
                old(self)@,
                reply@,
                next,
                changed@,
                unverified@,
            ),
    {
        match reply {
            LeaseReply::Acquired => self.again(true),
            LeaseReply::Held(Some(pid)) => {
                if pid == self.owner {
                    self.go(next, Action::CheckMigration)
                } else {
                    self.set_owner(pid);
                    self.again(false)
                }
            },
            LeaseReply::Held(None) => {
                self.last_error = changed.to_owned();
                self.again(false)
            },
            LeaseReply::Failed(error) => {
                let head = text::concat3(
                    "verify daemon migration lease ",
                    self.pidfile.as_str(),
                    unverified,
                );
                let message = text::concat2(head.as_str(), error.as_str());
                self.fail(false, message, false)
            },
        }
    }

    /// What is said when the lease could not be acquired.
    fn lease_error(&self, error: &str) -> (r: String)
        ensures
            r@ == "acquire daemon migration lease "@ + self@.pidfile + " failed: "@ + error@,
    {
        let head = text::concat3(
            "acquire daemon migration lease ",
            self.pidfile.as_str(),
            " failed: ",
        );
        text::concat2(head.as_str(), error)
    }

    /// It has been tried to acquire the lease.
    pub fn on_lease(&mut self, reply: LeaseReply) -> (r: Step)
        requires
            awaits_lease(old(self)@.stage),
        ensures
            (final(self)@, r@) == after_lease(old(self)@, reply@),
    {
        match self.stage {
            Stage::InitialLease => match reply {
                LeaseReply::Acquired => self.without_daemon(true),
                LeaseReply::Held(Some(pid)) => {
                    if self.holders.contains(pid) {
                        self.owner = pid;
                        self.again(false)
                    } else {
                        self.without_daemon(false)
                    }
                },
                LeaseReply::Held(None) => self.without_daemon(false),
                LeaseReply::Failed(error) => {
                    let message = self.lease_error(error.as_str());
                    self.fail(false, message, false)
                },
            },
            Stage::Identity => self.on_identity(
                reply,
                Stage::IdentityMigration,
                "daemon pidfile owner changed during identity check",
                " failed: ",
            ),
            Stage::AfterBackup => self.on_identity(
                reply,
                Stage::AfterBackupMigration,
                "daemon pidfile owner changed during backup",
                " after backup failed: ",
            ),
            _ => match reply {
                LeaseReply::Acquired => self.go(Stage::PollMigration, Action::CheckMigration),
                LeaseReply::Held(pid) => {
                    if let Some(pid) = pid {
                        if pid != self.owner {
                            self.set_owner(pid);
                            self.shutdown_requested = false;
                        }
                    }
                    self.go(Stage::Deadline, Action::CheckDeadline)
                },
                LeaseReply::Failed(error) => {
                    let message = self.lease_error(error.as_str());
                    let resume = self.resumes();
                    self.fail(false, message, resume)
                },
            },
        }
    }

    /// It has been tried to make a backup.
    pub fn on_backup(&mut self, created: Result<bool, String>) -> (r: Step)
        requires
            awaits_backup(old(self)@.stage),
        ensures
            (final(self)@, r@) == after_backup(old(self)@, tried(created)),
    {
        match created {
            Ok(created) => {
                self.backup_created = created;
                match self.stage {
                    Stage::InitialBackup { leased } => self.ready(leased),
                    Stage::ForeignBackup => self.ready(false),
                    Stage::OnlineBackup => self.go(Stage::AfterBackup, Action::AcquireLease),
                    _ => self.ready(true),
                }
            },
            Err(error) => match self.stage {
                Stage::InitialBackup { leased } => self.fail(leased, error, false),
                Stage::FinalBackup => {
                    let resume = self.resumes();
                    self.fail(true, error, resume)
                },
                _ => self.fail(false, error, false),
            },
        }
    }

    /// It is known whether the database still needs a migration.
    pub fn on_migration(&mut self, needed: Result<bool, String>) -> (r: Step)
        requires
            awaits_migration(old(self)@.stage),
        ensures
            (final(self)@, r@) == after_migration(old(self)@, tried(needed)),
    {
        let needed = match needed {
            Ok(needed) => needed,
            Err(error) => {
                let resume = self.resumes();
                return match self.stage {
                    Stage::Top => self.fail(false, error, resume),
                    Stage::PollMigration => self.fail(true, error, resume),
                    _ => self.fail(false, error, false),
                };
            },
        };
        if !needed {
            let keeps_lease = matches!(self.stage, Stage::PollMigration);
            return self.ready(keeps_lease);
        }
        match self.stage {
            Stage::Top => if self.shutdown_requested {
                self.go(Stage::Poll, Action::AcquireLease)
            } else {
                self.go(Stage::Status, Action::QueryStatus)
            },
            Stage::IdentityMigration => {
                self.worker_pids = worker_pids(&self.workers);
                self.go(Stage::IdentityHolders, Action::ListHolders)
            },
            Stage::AfterBackupMigration => self.go(Stage::AfterBackupHolders, Action::ListHolders),
            _ => self.await_worker(0),
        }
    }

    /// The daemon has been asked for its status.
    pub fn on_status(&mut self, reply: StatusReply) -> (r: Step)
        requires
            old(self)@.stage is Status,
        ensures
            (final(self)@, r@) == after_status(old(self)@, reply@),
    {
        match reply {
            StatusReply::Status { takeovers, workers } => {
                self.takeovers = takeovers;
                self.workers = workers;
                self.go(Stage::Identity, Action::AcquireLease)
            },
            StatusReply::Unexpected(other) => {
                self.last_error = text::concat2(
                    "unexpected daemon status response: ",
                    other.as_str(),
                );
                self.go(Stage::Poll, Action::AcquireLease)
            },
            StatusReply::Failed(error) => {
                self.last_error = text::concat2("query daemon status failed: ", error.as_str());
                self.go(Stage::Poll, Action::AcquireLease)
            },
        }
    }

    /// It has been tried to read the environment of the daemon.
    pub fn on_environment(&mut self, environment: Result<Vec<Variable>, String>) -> (r: Step)
        requires
            old(self)@.stage is Environment,
        ensures
            (final(self)@, r@) == after_environment(old(self)@, tried_environment(environment)),
    {
        match environment {
            Ok(environment) => {
                self.resume = Some(
                    ResumePlan::from_status(self.takeovers, &self.workers, environment),
                );
                self.go(Stage::Shutdown, Action::RequestShutdown)
            },
            Err(error) => {
                let mut message = text::concat3(
                    "cannot safely preserve daemon environment before migrating ",
                    self.database.as_str(),
                    " (PID ",
                );
                message.append(text::number_text(self.owner as u64).as_str());
                message.append("): ");
                message.append(error.as_str());
                message.append("; stop the daemon manually and retry");
                self.fail(false, message, false)
            },
        }
    }

    /// The daemon has been asked to shut down.
    pub fn on_shutdown(&mut self, reply: ShutdownReply) -> (r: Step)
        requires
            old(self)@.stage is Shutdown,
        ensures
            (final(self)@, r@) == after_shutdown(old(self)@, reply@),
    {
        match reply {
            ShutdownReply::Accepted => {
                self.shutdown_requested = true;
                self.go(Stage::Poll, Action::AcquireLease)
            },
            ShutdownReply::Refused(message) => {
                let text = text::concat2(
                    "daemon refused shutdown before database migration: ",
                    message.as_str(),
                );
                self.fail(false, text, false)
            },
            ShutdownReply::Unexpected(other) => {
                let text = text::concat2(
                    "unexpected daemon shutdown response before migration: ",
                    other.as_str(),
                );
                self.fail(false, text, false)
            },
            ShutdownReply::Failed(error) => {
                self.last_error = text::concat2("request daemon shutdown failed: ", error.as_str());
                self.go(Stage::Poll, Action::AcquireLease)
            },
        }
    }

    /// It has been waited for a worker to end.
    pub fn on_exit(&mut self, exited: Result<(), String>) -> (r: Step)
        requires
            old(self)@.stage is Waiting,
            old(self)@.stage->worker < usize::MAX,
        ensures
            (final(self)@, r@) == after_exit(old(self)@, tried(exited)),
    {
        match exited {
            Ok(_) => match self.stage {
                Stage::Waiting { worker } => self.await_worker(worker + 1),
                _ => self.await_worker(0),
            },
            Err(error) => {
                let resume = self.resume.is_some();
                self.fail(true, error, resume)
            },
        }
    }

    /// It is known whether time has run out.
    pub fn on_deadline(&mut self, passed: bool) -> (r: Step)
        requires
            old(self)@.stage is Deadline,
        ensures
            (final(self)@, r@) == after_deadline(old(self)@, passed),
    {
        if !passed {
            return self.again(false);
        }
        let mut message = "daemon did not quiesce within 30s before database migration".to_owned();
        assert(message@ + Seq::<char>::empty() =~= message@);
        if !self.last_error.as_str().is_empty() {
            let tail = text::concat2(": ", self.last_error.as_str());
            message.append(tail.as_str());
        }
        let resume = self.resumes();
        self.fail(false, message, resume)
    }
}

/// The process ids of workers.
fn worker_pids(workers: &Vec<WorkerState>) -> (r: Vec<u32>)
    ensures
        r@ == pids_of(resume_plan::worker_views(workers@)),
{
    let ghost all = resume_plan::worker_views(workers@);
    let mut r: Vec<u32> = Vec::new();
    let mut i: usize = 0;
    while i < workers.len()
        invariant
            i <= workers@.len() == all.len(),
            all == resume_plan::worker_views(workers@),
            r@ == pids_of(all.take(i as int)),
        decreases workers@.len() - i,
    {
        assert(all.take(i + 1).drop_last() == all.take(i as int));
        assert(all.take(i + 1).last() == workers@[i as int]@);
        if let Some(pid) = workers[i].pid {
            r.push(pid);
        }
        i = i + 1;
    }
    assert(all.take(i as int) == all);
    r
}

/// What is said when a worker has not ended in time.
pub fn worker_exit_error(pid: u32) -> (r: String)
    ensures
        r@ == "daemon worker process "@ + text::decimal(pid as nat)
            + " did not exit within 30s before database migration"@,
{
    text::concat3(
        "daemon worker process ",
        text::number_text(pid as u64).as_str(),
        " did not exit within 30s before database migration",
    )
}

/// What is said when a backup could not be made.
pub fn backup_error(error: &str) -> (r: String)
    ensures
        r@ == "Pre-migration backup failed; database migration was not started: "@ + error@,
{
    text::concat2("Pre-migration backup failed; database migration was not started: ", error)
}

/// What is said when it could not be told whether a database needs a migration.
pub fn recheck_error(database: &str, error: &str) -> (r: String)
    ensures
        r@ == "recheck database "@ + database@ + " before migration failed: "@ + error@,
{
    let head = text::concat3("recheck database ", database, " before migration failed: ");
    text::concat2(head.as_str(), error)
}

} // verus!
