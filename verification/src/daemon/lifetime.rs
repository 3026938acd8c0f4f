//! Who may run: the daemon's lease, what is held while a database is migrated, and
//! what a daemon that may not be there is told.

use vstd::prelude::*;
use vstd::string::*;
use crate::daemon::quiesce;
use crate::daemon::quiesce::{LeaseReply, LeaseView};
use crate::daemon::resume_plan::{PlanView, ResumePlan};
use crate::text;

verus! {

/// Whether the daemon may run: it may where it acquired its lease, and not where
/// another one has it.
pub fn acquire_lifetime_pidfile(reply: &LeaseReply, pidfile: &str) -> (r: Result<bool, String>)
    ensures
        match reply@ {
            LeaseView::Acquired => r == Ok::<bool, String>(true),
            LeaseView::Held(_) => r == Ok::<bool, String>(false),
            LeaseView::Failed(error) => r matches Err(message) && message@ == "acquire pidfile "@
                + pidfile@ + " failed: "@ + error,
        },
{
    match reply {
        LeaseReply::Acquired => Ok(true),
        LeaseReply::Held(_) => Ok(false),
        LeaseReply::Failed(error) => {
            let head = text::concat3("acquire pidfile ", pidfile, " failed: ");
            Err(text::concat2(head.as_str(), error.as_str()))
        },
    }
}

/// What a daemon answers when told of a change of the global switch.
#[derive(Debug)]
pub enum SwitchReply {
    Accepted,
    Refused(String),
    Unexpected(String),
    /// Nobody listens on its socket.
    NobodyThere,
    Failed(String),
}

/// What comes of telling a daemon of a change of the global switch.
#[derive(Debug)]
pub struct SwitchOutcome {
    pub result: Result<(), String>,
    /// Whether the socket is one that a daemon left behind, and is removed.
    pub remove_socket: bool,
}

/// What comes of telling a daemon of a change of the global switch; `reply` is its
/// answer where there is a socket. A daemon that is not there has nothing to be
/// told.
pub fn notify_global_switch(reply: Option<SwitchReply>) -> (r: SwitchOutcome)
    ensures
        r.remove_socket == (reply matches Some(SwitchReply::NobodyThere)),
        match reply {
            None => r.result is Ok,
            Some(SwitchReply::Accepted) => r.result is Ok,
            Some(SwitchReply::NobodyThere) => r.result is Ok,
            Some(SwitchReply::Refused(message)) => r.result matches Err(error) && error@
                == message@,
            Some(SwitchReply::Unexpected(other)) => r.result matches Err(error) && error@
                == "unexpected daemon response: "@ + other@,
            Some(SwitchReply::Failed(failure)) => r.result matches Err(error) && error@ == failure@,
        },
{
    match reply {
        None => SwitchOutcome { result: Ok(()), remove_socket: false },
        Some(SwitchReply::Accepted) => SwitchOutcome { result: Ok(()), remove_socket: false },
        Some(SwitchReply::NobodyThere) => SwitchOutcome { result: Ok(()), remove_socket: true },
        Some(SwitchReply::Refused(message)) => SwitchOutcome {
            result: Err(message),
            remove_socket: false,
        },
        Some(SwitchReply::Unexpected(other)) => SwitchOutcome {
            result: Err(text::concat2("unexpected daemon response: ", other.as_str())),
            remove_socket: false,
        },
        Some(SwitchReply::Failed(error)) => SwitchOutcome {
            result: Err(error),
            remove_socket: false,
        },
    }
}

/// What is held while a database is migrated.
#[derive(Debug)]
pub struct DaemonMigrationGuard {
    has_lease: bool,
    resume: Option<ResumePlan>,
    backup_created: bool,
    resume_on_safe_abort: bool,
}

/// The model of [`DaemonMigrationGuard`].
pub struct GuardView {
    pub has_lease: bool,
    pub resume: Option<PlanView>,
    pub backup_created: bool,
    pub resume_on_safe_abort: bool,
}

impl View for DaemonMigrationGuard {
    type V = GuardView;

    closed spec fn view(&self) -> GuardView {
        GuardView {
            has_lease: self.has_lease,
            resume: quiesce::plan_view(self.resume),
            backup_created: self.backup_created,
            resume_on_safe_abort: self.resume_on_safe_abort,
        }
    }
}

/// What is given back: the lease, and after it the daemon.
#[derive(Debug)]
pub struct Release {
    pub release_lease: bool,
    pub resume: Option<ResumePlan>,
}

impl DaemonMigrationGuard {
    /// What is held when a migration may begin.
    pub fn new(has_lease: bool, resume: Option<ResumePlan>, backup_created: bool) -> (r:
        DaemonMigrationGuard)
        ensures
            r@ == (GuardView {
                has_lease,
                resume: quiesce::plan_view(resume),
                backup_created,
                resume_on_safe_abort: true,
            }),
    {
        DaemonMigrationGuard { has_lease, resume, backup_created, resume_on_safe_abort: true }
    }

    /// Whether a backup has been made.
    pub fn backup_created(&self) -> (r: bool)
        ensures
            r == self@.backup_created,
    {
        self.backup_created
    }

    /// Takes note that the database is being changed: from here on a daemon of the
    /// binary before is not started again when the migration breaks off.
    pub fn suppress_safe_abort_resume(&mut self)
        ensures
            final(self)@ == (GuardView { resume_on_safe_abort: false, ..old(self)@ }),
    {
        self.resume_on_safe_abort = false;
    }

    /// Gives everything back, once.
    fn release_and_resume(&mut self) -> (r: Release)
        ensures
            r.release_lease == old(self)@.has_lease,
            quiesce::plan_view(r.resume) == old(self)@.resume,
            final(self)@ == (GuardView { has_lease: false, resume: None, ..old(self)@ }),
    {
        let release_lease = self.has_lease;
        let mut resume: Option<ResumePlan> = None;
        std::mem::swap(&mut resume, &mut self.resume);
        self.has_lease = false;
        Release { release_lease, resume }
    }

    /// The migration is over, or broke off before the database was changed:
    /// everything is given back, and nothing a second time.
    pub fn finish(&mut self) -> (r: Release)
        ensures
            r.release_lease == old(self)@.has_lease,
            quiesce::plan_view(r.resume) == old(self)@.resume,
            final(self)@ == (GuardView {
                has_lease: false,
                resume: None,
                resume_on_safe_abort: false,
                ..old(self)@
            }),
    {
        self.resume_on_safe_abort = false;
        self.release_and_resume()
    }

    /// The guard goes away: where the database has not been changed, everything is
    /// given back; otherwise nothing is resumed.
    pub fn on_drop(&mut self) -> (r: Release)
        ensures
            old(self)@.resume_on_safe_abort ==> r.release_lease == old(self)@.has_lease
                && quiesce::plan_view(r.resume) == old(self)@.resume && final(self)@
                == (GuardView { has_lease: false, resume: None, ..old(self)@ }),
            !old(self)@.resume_on_safe_abort ==> !r.release_lease && r.resume is None
                && final(self)@ == old(self)@,
    {
        if self.resume_on_safe_abort {
            self.release_and_resume()
        } else {
            Release { release_lease: false, resume: None }
        }
    }
}

/// What came of starting a daemon again.
#[derive(Debug)]
pub enum StartReply {
    Started,
    /// It ended with this status.
    Exited(String),
    Failed(String),
    /// It was started, and could not be reached in time.
    Unreachable,
}

/// What is said of a daemon that was not started again.
pub fn restart_warning(reply: &StartReply) -> (r: Option<String>)
    ensures
        match *reply {
            StartReply::Started => r is None,
            StartReply::Exited(status) => r matches Some(warning) && warning@
                == "Could not restart daemon after database migration: exit status "@ + status@,
            StartReply::Failed(error) => r matches Some(warning) && warning@
                == "Could not restart daemon after database migration: "@ + error@,
            StartReply::Unreachable => r matches Some(warning) && warning@
                == "Daemon did not become reachable within 10s after database migration"@,
        },
{
    match reply {
        StartReply::Started => None,
        StartReply::Exited(status) => Some(
            text::concat2(
                "Could not restart daemon after database migration: exit status ",
                status.as_str(),
            ),
        ),
        StartReply::Failed(error) => Some(
            text::concat2("Could not restart daemon after database migration: ", error.as_str()),
        ),
        StartReply::Unreachable => Some(
            "Daemon did not become reachable within 10s after database migration".to_owned(),
        ),
    }
}

} // verus!
