//! What holds of every way of a database migration past a daemon.

use vstd::prelude::*;
#[allow(unused_imports)]
use crate::daemon::pids::PidSet;
use crate::daemon::quiesce;
use crate::daemon::quiesce::{
    ActionView, LeaseView, QuiesceView, ShutdownView, Stage, StatusView, StepView, Tried,
};
#[allow(unused_imports)]
use crate::daemon::resume_plan;
#[allow(unused_imports)]
use crate::daemon::resume_plan::Variable;

verus! {

/// What came of an action.
pub enum EventView {
    Holders(Tried<Seq<u32>>),
    Lease(LeaseView),
    Backup(Tried<bool>),
    Migration(Tried<bool>),
    Status(StatusView),
    Environment(Tried<Seq<(Seq<u8>, Seq<u8>)>>),
    Shutdown(ShutdownView),
    Exit(Tried<()>),
    Deadline(bool),
}

/// Whether an event is one that is waited for.
pub open spec fn is_awaited(stage: Stage, event: EventView) -> bool {
    match event {
        EventView::Holders(_) => quiesce::awaits_holders(stage),
        EventView::Lease(_) => quiesce::awaits_lease(stage),
        EventView::Backup(_) => quiesce::awaits_backup(stage),
        EventView::Migration(_) => quiesce::awaits_migration(stage),
        EventView::Status(_) => stage is Status,
        EventView::Environment(_) => stage is Environment,
        EventView::Shutdown(_) => stage is Shutdown,
        EventView::Exit(_) => stage is Waiting,
        EventView::Deadline(_) => stage is Deadline,
    }
}

/// What is done after an event.
pub open spec fn next(s: QuiesceView, event: EventView) -> (QuiesceView, StepView) {
    match event {
        EventView::Holders(found) => quiesce::after_holders(s, found),
        EventView::Lease(reply) => quiesce::after_lease(s, reply),
        EventView::Backup(created) => quiesce::after_backup(s, created),
        EventView::Migration(needed) => quiesce::after_migration(s, needed),
        EventView::Status(reply) => quiesce::after_status(s, reply),
        EventView::Environment(environment) => quiesce::after_environment(s, environment),
        EventView::Shutdown(reply) => quiesce::after_shutdown(s, reply),
        EventView::Exit(exited) => quiesce::after_exit(s, exited),
        EventView::Deadline(passed) => quiesce::after_deadline(s, passed),
    }
}

/// What is remembered after a list of events.
pub open spec fn after_all(s: QuiesceView, events: Seq<EventView>) -> QuiesceView
    decreases events.len(),
{
    if events.len() == 0 {
        s
    } else {
        next(after_all(s, events.drop_last()), events.last()).0
    }
}

/// Whether each of a list of events is one that is waited for.
pub open spec fn is_run(s: QuiesceView, events: Seq<EventView>) -> bool
    decreases events.len(),
{
    events.len() == 0 || {
        &&& is_run(s, events.drop_last())
        &&& is_awaited(after_all(s, events.drop_last()).stage, events.last())
    }
}

/// Whether a backup has been made among events.
pub open spec fn backed_up(events: Seq<EventView>) -> bool {
    exists|i: int| 0 <= i < events.len() && (#[trigger] events[i]) matches EventView::Backup(
        Tried::Done(_),
    )
}

/// The stages from a backup to the request to shut down.
pub open spec fn is_after_backup(stage: Stage) -> bool {
    stage is AfterBackup || stage is AfterBackupMigration || stage is AfterBackupHolders
        || stage is Environment || stage is Shutdown
}

/// The stages in which a daemon may have been asked to shut down.
pub open spec fn is_after_shutdown(stage: Stage) -> bool {
    stage is Top || stage is Poll || stage is PollMigration || stage is Waiting
        || stage is Remaining || stage is FinalBackup || stage is Deadline || stage is Finished
}

/// Whether a daemon that is asked to shut down, or has been asked, can be resumed.
pub open spec fn can_resume(s: QuiesceView) -> bool {
    &&& s.stage is Shutdown ==> s.resume is Some
    &&& s.shutdown_requested ==> s.resume is Some && is_after_shutdown(s.stage)
}

/// A daemon that has been asked to shut down can be resumed, whatever comes.
pub proof fn law_a_shut_down_daemon_can_be_resumed(s: QuiesceView, event: EventView)
    requires
        can_resume(s),
        is_awaited(s.stage, event),
    ensures
        can_resume(next(s, event).0),
        can_resume(quiesce::initial(s.database, s.pidfile)),
{
}

/// Where a daemon has been asked to shut down and the migration may not begin, the
/// daemon is started again.
pub proof fn law_failure_after_shutdown_resumes(s: QuiesceView, event: EventView)
    requires
        can_resume(s),
        s.shutdown_requested,
        is_awaited(s.stage, event),
    ensures
        next(s, event).1.action matches ActionView::Fail { resume, .. } ==> resume,
{
}

/// A daemon is started again only where it was about to be asked to shut down:
/// what is to be restored of it is known.
pub proof fn law_only_a_known_daemon_is_resumed(s: QuiesceView, event: EventView)
    requires
        is_awaited(s.stage, event),
    ensures
        next(s, event).1.action matches ActionView::Fail { resume, .. } ==> resume
            ==> s.resume is Some,
{
}

/// What holds between a backup and the request to shut down.
proof fn lemma_backup_comes_first(s: QuiesceView, events: Seq<EventView>)
    requires
        s.stage is InitialHolders,
        !s.backup_created,
        is_run(s, events),
    ensures
        is_after_backup(after_all(s, events).stage) ==> backed_up(events),
        after_all(s, events).backup_created ==> backed_up(events),
    decreases events.len(),
{
    if events.len() > 0 {
        let before = events.drop_last();
        lemma_backup_comes_first(s, before);
        if backed_up(before) {
            let i = choose|i: int|
                0 <= i < before.len() && (#[trigger] before[i]) matches EventView::Backup(
                    Tried::Done(_),
                );
            assert(events[i] == before[i]);
        }
        if events.last() matches EventView::Backup(Tried::Done(_)) {
            assert(events[events.len() - 1] == events.last());
        }
    }
}

/// No daemon is asked to shut down before a backup has been made.
pub proof fn law_no_shutdown_before_a_backup(
    database: Seq<char>,
    pidfile: Seq<char>,
    events: Seq<EventView>,
)
    requires
        events.len() > 0,
        is_run(quiesce::initial(database, pidfile), events),
        next(
            after_all(quiesce::initial(database, pidfile), events.drop_last()),
            events.last(),
        ).1.action is RequestShutdown,
    ensures
        backed_up(events.drop_last()),
{
    let before = events.drop_last();
    let s = after_all(quiesce::initial(database, pidfile), before);
    lemma_backup_comes_first(quiesce::initial(database, pidfile), before);
    assert(s.stage is Environment);
}

/// A backup that fails while the daemon still serves leaves the daemon alone: it
/// has not been asked to shut down, and is not asked.
pub proof fn law_failed_backup_leaves_the_daemon_alone(s: QuiesceView, error: Seq<char>)
    requires
        can_resume(s),
        s.stage is OnlineBackup,
    ensures
        !s.shutdown_requested,
        quiesce::after_backup(s, Tried::Failed(error)).1.action == (ActionView::Fail {
            message: error,
            resume: false,
        }),
{
}

/// Whether the lease was seen with the owner, and processes were listed of which
/// all were the owner or one of its workers, with nothing but a look at the
/// database between.
pub open spec fn is_coordinated(s: QuiesceView, found: Seq<u32>) -> bool {
    &&& found.contains(s.owner)
    &&& forall|p: u32| found.contains(p) ==> p == s.owner || s.worker_pids.contains(p)
}

/// The environment of a daemon is read, after which it is asked to shut down, only
/// where it has the database open and no other process has but its own workers.
pub proof fn law_only_a_coordinated_daemon_is_shut_down(s: QuiesceView, event: EventView)
    requires
        is_awaited(s.stage, event),
        next(s, event).1.action is ReadEnvironment,
    ensures
        event matches EventView::Holders(Tried::Done(found)) && is_coordinated(s, found),
        next(s, event).1.action == (ActionView::ReadEnvironment { pid: s.owner }),
        next(s, event).0.owner == s.owner,
{
    if let EventView::Holders(Tried::Done(found)) = event {
        let others = quiesce::uncoordinated(s, found);
        assert(found.contains(s.owner));
        assert forall|p: u32| found.contains(p) implies p == s.owner || s.worker_pids.contains(
            p,
        ) by {
            if p != s.owner && !s.worker_pids.contains(p) {
                let keep = |q: u32| q != s.owner && !s.worker_pids.contains(q);
                let i = choose|i: int| 0 <= i < found.len() && found[i] == p;
                found.lemma_filter_contains(keep, i);
                assert(others.contains(p));
            }
        }
    }
}

/// The request to shut down follows the reading of the environment, and nothing
/// else.
pub proof fn law_shutdown_follows_the_environment(s: QuiesceView, event: EventView)
    requires
        is_awaited(s.stage, event),
        next(s, event).1.action is RequestShutdown,
    ensures
        s.stage is Environment,
        event matches EventView::Environment(Tried::Done(_)),
        next(s, event).0.resume is Some,
        next(s, event).0.owner == s.owner,
{
}

/// Once the daemon has made way, the migration begins only when no process has the
/// database open, or when another process has made it.
pub proof fn law_migration_waits_for_everyone(s: QuiesceView, event: EventView)
    requires
        is_awaited(s.stage, event),
        s.stage is PollMigration || s.stage is Waiting || s.stage is Remaining,
        next(s, event).1.action is Ready || next(s, event).1.action is CreateBackup,
    ensures
        match event {
            EventView::Holders(Tried::Done(found)) => found.len() == 0,
            EventView::Migration(Tried::Done(needed)) => !needed,
            _ => false,
        },
{
}

/// Whether two ways remember the same, but for what they wait for.
pub open spec fn same_but_stage(a: QuiesceView, b: QuiesceView) -> bool {
    QuiesceView { stage: a.stage, ..b } == a
}

/// A wait ends for lack of time just when time has run out: until then it goes on with
/// another look at the database and nothing is forgotten, and then it always fails.
pub proof fn law_a_wait_ends_when_time_has_run_out(s: QuiesceView, passed: bool)
    requires
        s.stage is Deadline,
    ensures
        is_awaited(s.stage, EventView::Deadline(passed)),
        next(s, EventView::Deadline(passed)).1.action is Fail <==> passed,
        !passed ==> {
            &&& next(s, EventView::Deadline(passed)).1.action is CheckMigration
            &&& next(s, EventView::Deadline(passed)).0.stage is Top
            &&& same_but_stage(next(s, EventView::Deadline(passed)).0, s)
        },
        passed ==> {
            &&& next(s, EventView::Deadline(passed)).0.stage is Finished
            &&& next(s, EventView::Deadline(passed)).1.action matches ActionView::Fail {
                message,
                resume,
            } && {
                &&& resume == (s.shutdown_requested && s.resume is Some)
                &&& message == "daemon did not quiesce within 30s before database migration"@ + if s.last_error
                    == Seq::<char>::empty() {
                    Seq::empty()
                } else {
                    ": "@ + s.last_error
                }
            }
        },
        !next(s, EventView::Deadline(passed)).1.release_lease,
{
    assert(s.last_error.len() == 0 ==> s.last_error =~= Seq::<char>::empty());
}

/// A daemon that has been asked to shut down and still holds the lease is waited for: as long
/// as there is time and the migration is still needed, its lease is tried again, with all
/// that was known before.
pub proof fn law_an_ending_daemon_is_waited_for(s: QuiesceView)
    requires
        s.stage is Poll,
        s.shutdown_requested,
    ensures
        ({
            let held = next(s, EventView::Lease(LeaseView::Held(Some(s.owner))));
            let waited = next(held.0, EventView::Deadline(false));
            let looked = next(waited.0, EventView::Migration(Tried::Done(true)));
            &&& held.1.action is CheckDeadline
            &&& waited.1.action is CheckMigration
            &&& looked.1.action is AcquireLease
            &&& looked.0 == s
        }),
        next(s, EventView::Lease(LeaseView::Held(None))).1.action is CheckDeadline,
{
}

/// Once the lease is free the database is looked at with it. Where the migration has been
/// made by then, it is over; where it is still needed, the daemon's workers are waited for,
/// one after the other, and then the processes are listed once more.
pub proof fn law_a_free_lease_leads_to_the_workers(s: QuiesceView)
    requires
        s.stage is Poll,
    ensures
        ({
            let free = next(s, EventView::Lease(LeaseView::Acquired));
            let needed = next(free.0, EventView::Migration(Tried::Done(true)));
            let made = next(free.0, EventView::Migration(Tried::Done(false)));
            &&& free.1.action is CheckMigration
            &&& !free.1.release_lease
            &&& made.1.action == (ActionView::Ready { keeps_lease: true })
            &&& needed.1.action == if s.worker_pids.len() > 0 {
                ActionView::AwaitExit { pid: s.worker_pids[0] }
            } else {
                ActionView::ListHolders
            }
            &&& needed.0.stage == if s.worker_pids.len() > 0 {
                Stage::Waiting { worker: 0 }
            } else {
                Stage::Remaining
            }
        }),
{
}

/// After a worker has ended the next one is waited for; after the last one the processes are
/// listed. A worker that does not end is a failure, with which the lease is given back.
pub proof fn law_workers_are_waited_for_in_order(s: QuiesceView, worker: usize, error: Seq<char>)
    requires
        s.stage == (Stage::Waiting { worker }),
        worker < usize::MAX,
    ensures
        next(s, EventView::Exit(Tried::Done(()))).1.action == if worker + 1 < s.worker_pids.len() {
            ActionView::AwaitExit { pid: s.worker_pids[worker + 1] }
        } else {
            ActionView::ListHolders
        },
        same_but_stage(next(s, EventView::Exit(Tried::Done(()))).0, s),
        next(s, EventView::Exit(Tried::Failed(error))).1 == (StepView {
            release_lease: true,
            action: ActionView::Fail { message: error, resume: s.resume is Some },
        }),
{
}

/// When all have made way, the migration begins with the lease, after a backup where none
/// has been made; any process that still has the database open stops it, and the lease is
/// given back.
pub proof fn law_who_is_left_decides(s: QuiesceView, found: Seq<u32>)
    requires
        s.stage is Remaining,
    ensures
        ({
            let then = next(s, EventView::Holders(Tried::Done(found)));
            if found.len() > 0 {
                then.1.release_lease && (then.1.action matches ActionView::Fail { resume, .. }
                    && resume == s.resume is Some)
            } else if s.backup_created {
                then.1 == (StepView {
                    release_lease: false,
                    action: ActionView::Ready { keeps_lease: true },
                })
            } else {
                then.1.action is CreateBackup && then.0.stage is FinalBackup
            }
        }),
{
}

/// The answer to the request to shut down decides: a daemon that accepts, or of which nobody
/// knows whether it heard, is waited for; one that refuses is left running.
pub proof fn law_a_refusal_leaves_the_daemon_running(s: QuiesceView, text: Seq<char>)
    requires
        s.stage is Shutdown,
    ensures
        ({
            let accepted = next(s, EventView::Shutdown(ShutdownView::Accepted));
            let refused = next(s, EventView::Shutdown(ShutdownView::Refused(text)));
            let unexpected = next(s, EventView::Shutdown(ShutdownView::Unexpected(text)));
            let unheard = next(s, EventView::Shutdown(ShutdownView::Failed(text)));
            &&& accepted.1.action is AcquireLease && accepted.0.stage is Poll
            &&& accepted.0.shutdown_requested
            &&& refused.1.action == (ActionView::Fail {
                message: "daemon refused shutdown before database migration: "@ + text,
                resume: false,
            })
            &&& unexpected.1.action matches ActionView::Fail { resume, .. } && !resume
            &&& unheard.1.action is AcquireLease && unheard.0.stage is Poll
            &&& unheard.0.shutdown_requested == s.shutdown_requested
        }),
{
}

/// A daemon is in the way only where the process with the lease has the database open.
/// Otherwise no process may have it open, and a backup is made first; the lease is kept only
/// where it was acquired.
pub proof fn law_a_daemon_is_one_that_has_the_database_open(s: QuiesceView, reply: LeaseView)
    requires
        s.stage is InitialLease,
        !(reply is Failed),
    ensures
        ({
            let then = next(s, EventView::Lease(reply));
            if reply matches LeaseView::Held(Some(pid)) && s.holders.contains(pid) {
                &&& then.1.action is CheckMigration
                &&& then.0.stage is Top
                &&& reply == LeaseView::Held(Some(then.0.owner))
            } else if s.holders.len() > 0 {
                &&& then.1.release_lease == (reply is Acquired)
                &&& then.1.action matches ActionView::Fail { resume, .. } && !resume
            } else {
                &&& then.1.action is CreateBackup
                &&& then.0.stage == (Stage::InitialBackup { leased: reply is Acquired })
                &&& next(then.0, EventView::Backup(Tried::Done(true))).1.action == (
                ActionView::Ready { keeps_lease: reply is Acquired })
            }
        }),
{
}

/// Where the database needs no migration any more, there is nothing left to do, whatever is
/// waited for; where it does, a daemon that has not been asked to shut down is asked for its
/// status, and one that has been is waited for.
pub proof fn law_the_database_is_asked_first(s: QuiesceView)
    requires
        awaits_migration_of(s.stage),
    ensures
        next(s, EventView::Migration(Tried::Done(false))).1.action == (ActionView::Ready {
            keeps_lease: s.stage is PollMigration,
        }),
        s.stage is Top ==> next(s, EventView::Migration(Tried::Done(true))).1.action
            == if s.shutdown_requested {
            ActionView::AcquireLease
        } else {
            ActionView::QueryStatus
        },
        s.stage is IdentityMigration || s.stage is AfterBackupMigration ==> next(
            s,
            EventView::Migration(Tried::Done(true)),
        ).1.action is ListHolders,
        next(s, EventView::Migration(Tried::Done(true))).0.owner == s.owner,
{
}

/// The stages in which it is waited for whether the database needs a migration.
pub open spec fn awaits_migration_of(stage: Stage) -> bool {
    stage is Top || stage is IdentityMigration || stage is AfterBackupMigration
        || stage is PollMigration
}

/// A lease that turns out to be free, or with another process, while the daemon is looked at
/// starts the look anew: a free one is given back, and another process takes the place of
/// the daemon, with no workers known. Only one that is still the daemon's lets things go on.
pub proof fn law_only_the_same_daemon_goes_on(s: QuiesceView, pid: u32)
    requires
        s.stage is Identity || s.stage is AfterBackup,
    ensures
        ({
            let free = next(s, EventView::Lease(LeaseView::Acquired));
            let held = next(s, EventView::Lease(LeaseView::Held(Some(pid))));
            let unknown = next(s, EventView::Lease(LeaseView::Held(None)));
            &&& free.1.release_lease && free.1.action is CheckMigration && free.0.stage is Top
            &&& held.1.action is CheckMigration && !held.1.release_lease
            &&& held.0.owner == pid
            &&& held.0.stage is Top <==> pid != s.owner
            &&& pid != s.owner ==> held.0.worker_pids.len() == 0
            &&& pid == s.owner ==> same_but_stage(held.0, s)
            &&& unknown.1.action is CheckMigration && unknown.0.stage is Top
        }),
{
}

/// A lease that another process holds once the daemon has been asked to shut down is that of
/// a new daemon, which has not been asked.
pub proof fn law_a_new_daemon_has_not_been_asked(s: QuiesceView, pid: u32)
    requires
        s.stage is Poll,
        pid != s.owner,
    ensures
        ({
            let then = next(s, EventView::Lease(LeaseView::Held(Some(pid)))).0;
            &&& then.owner == pid
            &&& !then.shutdown_requested
            &&& then.worker_pids.len() == 0
            &&& then.stage is Deadline
        }),
{
}

/// A daemon that does not have the database open is that of another database: it is left
/// alone, and the migration begins without its lease, after a backup, where no other process
/// has the database open.
pub proof fn law_the_daemon_of_another_database_is_left_alone(s: QuiesceView, found: Seq<u32>)
    requires
        s.stage is IdentityHolders,
        !found.contains(s.owner),
    ensures
        ({
            let then = next(s, EventView::Holders(Tried::Done(found)));
            &&& !then.1.release_lease
            &&& if found.len() > 0 {
                then.1.action matches ActionView::Fail { resume, .. } && !resume
            } else if s.backup_created {
                then.1.action == (ActionView::Ready { keeps_lease: false })
            } else {
                &&& then.1.action is CreateBackup
                &&& next(then.0, EventView::Backup(Tried::Done(true))).1.action == (
                ActionView::Ready { keeps_lease: false })
            }
        }),
{
}

/// A coordinated daemon is shut down only after a backup, of which it is remembered whether
/// one was made; where one has been made before, it is not made again.
pub proof fn law_a_backup_is_made_once(s: QuiesceView, found: Seq<u32>, created: bool)
    requires
        s.stage is IdentityHolders,
        is_coordinated(s, found),
    ensures
        ({
            let then = next(s, EventView::Holders(Tried::Done(found)));
            let made = next(then.0, EventView::Backup(Tried::Done(created)));
            &&& s.backup_created ==> then.1.action is AcquireLease && then.0.stage is AfterBackup
            &&& !s.backup_created ==> {
                &&& then.1.action is CreateBackup
                &&& made.1.action is AcquireLease
                &&& made.0.stage is AfterBackup
                &&& made.0.backup_created == created
            }
        }),
{
    let others = quiesce::uncoordinated(s, found);
    let keep = |q: u32| q != s.owner && !s.worker_pids.contains(q);
    if others.len() > 0 {
        found.lemma_filter_contains_rev(keep, others[0]);
        assert(others.contains(others[0]));
    }
}

/// What a daemon says of itself is what is restored of it: the plan for bringing it back is
/// made of its status and of its environment.
pub proof fn law_the_plan_is_made_of_what_the_daemon_said(
    s: QuiesceView,
    environment: Seq<(Seq<u8>, Seq<u8>)>,
    takeovers: resume_plan::TakeoverFlags,
    workers: Seq<resume_plan::WorkerView>,
)
    requires
        s.stage is Environment,
        s.takeovers == takeovers,
        s.workers == workers,
    ensures
        next(s, EventView::Environment(Tried::Done(environment))).0.resume matches Some(plan) && {
            &&& plan.environment == environment
            &&& plan.targets == resume_plan::targets_of(takeovers, workers)
        },
        next(s, EventView::Environment(Tried::Done(environment))).1.action is RequestShutdown,
        forall|error: Seq<char>|
            (#[trigger] next(s, EventView::Environment(Tried::Failed(error)))).1.action
                matches ActionView::Fail { resume, .. } && !resume,
{
}

/// What the daemon says of itself is remembered, and only then is it looked whether it is
/// still the one with the lease.
pub proof fn law_the_status_is_remembered(
    s: QuiesceView,
    takeovers: resume_plan::TakeoverFlags,
    workers: Seq<resume_plan::WorkerView>,
)
    requires
        s.stage is Status,
    ensures
        ({
            let then = next(s, EventView::Status(StatusView::Status { takeovers, workers }));
            &&& then.0.takeovers == takeovers
            &&& then.0.workers == workers
            &&& then.0.stage is Identity
            &&& then.1.action is AcquireLease
        }),
        forall|error: Seq<char>| {
            let then = #[trigger] next(s, EventView::Status(StatusView::Failed(error)));
            then.0.stage is Poll && then.1.action is AcquireLease && !(then.1.release_lease)
        },
{
}

/// What was tried is done, with what it gave, or failed, with what went wrong.
pub proof fn law_what_was_tried_is_done_or_failed(
    pids: PidSet,
    environment: Vec<Variable>,
    error: String,
)
    ensures
        quiesce::tried_holders(Ok(pids)) == Tried::Done(pids@),
        quiesce::tried_holders(Err(error)) == Tried::<Seq<u32>>::Failed(error@),
        quiesce::tried_environment(Ok(environment)) == Tried::Done(
            resume_plan::variable_views(environment@),
        ),
        quiesce::tried_environment(Err(error)) == Tried::<Seq<(Seq<u8>, Seq<u8>)>>::Failed(error@),
{
}

} // verus!
