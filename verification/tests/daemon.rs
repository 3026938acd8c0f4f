use cc_switch::app_type::AppType;
use cc_switch::daemon::holders::{
    ensure_no_external_database_holders, lsof_database_holder_pids, lsof_holder_pids,
    lsof_succeeded, LsofOutput,
    parse_nul_separated_environment, parse_pid, process_holds,
};
use cc_switch::daemon::lifetime::{
    acquire_lifetime_pidfile, notify_global_switch, restart_warning, DaemonMigrationGuard,
    StartReply, SwitchReply,
};
use cc_switch::daemon::pids::PidSet;
use cc_switch::daemon::quiesce::{
    backup_error, Action, LeaseReply, Quiesce, ShutdownReply, StatusReply,
};
use cc_switch::daemon::resume_plan::{
    restore_warning, ResumePlan, TakeoverFlags, WorkerReply, WorkerState,
};

fn worker(app_type: Option<AppType>, pid: u32, provider: Option<&str>) -> WorkerState {
    WorkerState {
        app_type,
        pid: Some(pid),
        current_provider_id: provider.map(|id| id.to_string()),
    }
}

fn variable(name: &str, value: &str) -> (Vec<u8>, Vec<u8>) {
    (name.as_bytes().to_vec(), value.as_bytes().to_vec())
}

#[test]
fn resume_plan_unions_takeovers_and_workers_with_provider_fallbacks() {
    let plan = ResumePlan::from_status(
        TakeoverFlags { claude: true, codex: false, gemini: false },
        &vec![worker(Some(AppType::Codex), 42, Some("provider-a"))],
        vec![variable("HOME", "/tmp/daemon-home")],
    );
    assert_eq!(plan.targets.len(), 2);
    assert_eq!(plan.targets[0].app_type, AppType::Claude);
    assert_eq!(plan.targets[0].fallback_provider_id, None);
    assert_eq!(plan.targets[1].app_type, AppType::Codex);
    assert_eq!(plan.targets[1].fallback_provider_id.as_deref(), Some("provider-a"));
    assert_eq!(plan.environment, vec![variable("HOME", "/tmp/daemon-home")]);
}

#[test]
fn workers_of_unknown_applications_are_not_restored() {
    let plan = ResumePlan::from_status(
        TakeoverFlags { claude: false, codex: false, gemini: false },
        &vec![worker(None, 1, Some("x")), worker(Some(AppType::Hermes), 2, Some("y"))],
        vec![],
    );
    assert!(plan.targets.is_empty());
}

/// What there is around a database that is to be migrated.
struct Machine {
    holders: Vec<u32>,
    daemon: Option<u32>,
    workers: Vec<u32>,
    backup: Result<bool, String>,
    environment: Result<Vec<(Vec<u8>, Vec<u8>)>, String>,
    shut_down: bool,
    deadline: bool,
    log: Vec<&'static str>,
}

impl Machine {
    fn new() -> Machine {
        Machine {
            holders: vec![],
            daemon: None,
            workers: vec![],
            backup: Ok(true),
            environment: Ok(vec![variable("HOME", "/home/d")]),
            shut_down: false,
            deadline: false,
            log: vec![],
        }
    }

    fn run(&mut self) -> (Quiesce, Action) {
        let (mut quiesce, mut step) = Quiesce::new("/db", "/pid");
        for _ in 0..200 {
            step = match step.action {
                Action::ListHolders => {
                    quiesce.on_holders(Ok(PidSet::from_list(&self.holders)))
                }
                Action::AcquireLease => quiesce.on_lease(match self.daemon {
                    Some(pid) => LeaseReply::Held(Some(pid)),
                    None => LeaseReply::Acquired,
                }),
                Action::CreateBackup => {
                    self.log.push("backup");
                    quiesce.on_backup(self.backup.clone())
                }
                Action::CheckMigration => quiesce.on_migration(Ok(true)),
                Action::QueryStatus => {
                    self.log.push("status");
                    quiesce.on_status(StatusReply::Status {
                        takeovers: TakeoverFlags { claude: true, codex: false, gemini: false },
                        workers: self
                            .workers
                            .iter()
                            .map(|pid| worker(Some(AppType::Codex), *pid, None))
                            .collect(),
                    })
                }
                Action::ReadEnvironment { .. } => {
                    self.log.push("environment");
                    quiesce.on_environment(self.environment.clone())
                }
                Action::RequestShutdown => {
                    self.log.push("shutdown");
                    self.shut_down = true;
                    self.daemon = None;
                    self.holders.clear();
                    quiesce.on_shutdown(ShutdownReply::Accepted)
                }
                Action::AwaitExit { .. } => {
                    self.log.push("wait");
                    quiesce.on_exit(Ok(()))
                }
                Action::CheckDeadline => quiesce.on_deadline(self.deadline),
                last => return (quiesce, last),
            };
        }
        panic!("no end");
    }
}

#[test]
fn a_database_that_nobody_uses_is_ready() {
    let mut machine = Machine::new();
    let (quiesce, end) = machine.run();
    assert!(matches!(end, Action::Ready { keeps_lease: true }), "{end:?}");
    assert!(quiesce.backup_created());
    assert!(quiesce.into_resume().is_none());
    assert_eq!(machine.log, vec!["backup"]);
}

#[test]
fn pre_shutdown_failures_do_not_shutdown_a_running_daemon() {
    let mut machine = Machine::new();
    machine.daemon = Some(42);
    machine.holders = vec![42];
    machine.backup = Err(backup_error("not a directory"));
    let (_, end) = machine.run();
    match end {
        Action::Fail { message, resume } => {
            assert!(message.contains("Pre-migration backup failed"), "{message}");
            assert!(!resume);
        }
        other => panic!("blocked backup directory must fail migration, not {other:?}"),
    }
    assert!(!machine.shut_down, "daemon received Shutdown despite backup failure");

    let mut machine = Machine::new();
    machine.daemon = Some(42);
    machine.holders = vec![42];
    machine.environment = Err("cannot reliably recover".to_string());
    let (_, end) = machine.run();
    match end {
        Action::Fail { message, .. } => {
            assert!(message.contains("cannot safely preserve daemon environment"), "{message}");
        }
        other => panic!("unrecoverable daemon environment must fail migration, not {other:?}"),
    }
    assert!(!machine.shut_down);
}

#[test]
fn a_daemon_makes_way_and_can_be_resumed() {
    let mut machine = Machine::new();
    machine.daemon = Some(42);
    machine.workers = vec![50];
    machine.holders = vec![42, 50];
    let (quiesce, end) = machine.run();
    assert!(matches!(end, Action::Ready { keeps_lease: true }), "{end:?}");
    assert!(quiesce.backup_created());
    let shutdown = machine.log.iter().position(|entry| *entry == "shutdown").unwrap();
    assert!(machine.log[..shutdown].contains(&"backup"));
    assert!(machine.log[..shutdown].contains(&"environment"));
    let plan = quiesce.into_resume().expect("a daemon to resume");
    assert_eq!(plan.targets.len(), 2);
    assert_eq!(plan.environment, vec![variable("HOME", "/home/d")]);
}

#[test]
fn a_stranger_stands_in_the_way() {
    let mut machine = Machine::new();
    machine.holders = vec![99];
    let (_, end) = machine.run();
    assert!(
        matches!(&end, Action::Fail { message, resume: false } if message.contains("PID: 99")),
        "{end:?}"
    );
    assert!(machine.log.is_empty());
}

#[test]
fn a_guard_gives_back_what_it_holds() {
    let plan = || ResumePlan { targets: vec![], environment: vec![] };
    let mut finished = DaemonMigrationGuard::new(true, Some(plan()), true);
    assert!(finished.backup_created());
    let release = finished.finish();
    assert!(release.release_lease && release.resume.is_some());
    let after = finished.on_drop();
    assert!(!after.release_lease && after.resume.is_none());

    let mut aborted = DaemonMigrationGuard::new(true, Some(plan()), false);
    let release = aborted.on_drop();
    assert!(release.release_lease && release.resume.is_some());

    let mut suppressed = DaemonMigrationGuard::new(true, Some(plan()), false);
    suppressed.suppress_safe_abort_resume();
    let release = suppressed.on_drop();
    assert!(!release.release_lease && release.resume.is_none());
}

#[test]
fn environments_are_parsed() {
    let variables = parse_nul_separated_environment(b"HOME=/h\0EMPTY=\0=x\0bad\0EQ=a=b\0");
    assert_eq!(
        variables,
        vec![variable("HOME", "/h"), variable("EMPTY", ""), variable("EQ", "a=b")]
    );
    assert_eq!(parse_pid("17"), Some(17));
    assert_eq!(parse_pid("self"), None);
    assert_eq!(parse_pid("4294967296"), None);
}

#[test]
fn holders_are_found() {
    let found = lsof_holder_pids("p12\nf3\np7\npx\np12\n99\np99\n", 99);
    assert!(found.contains(12) && found.contains(7) && !found.contains(99));
    assert!(lsof_succeeded(true, Some(0)));
    assert!(lsof_succeeded(false, Some(1)));
    assert!(!lsof_succeeded(false, Some(2)));
    assert!(!lsof_succeeded(false, None));
    let ran = |success: bool, code: i32, stdout: &[u8]| {
        let output = LsofOutput {
            success,
            code: Some(code),
            status: format!("exit status: {code}"),
            stdout: stdout.to_vec(),
        };
        lsof_database_holder_pids("/d", &Ok(output), 99)
    };
    let found = ran(true, 0, b"p12\n\xff\np7\np99\n").expect("listed");
    assert_eq!(found.text(), "7, 12");
    assert!(ran(false, 1, b"").expect("nobody").is_empty());
    assert_eq!(
        ran(false, 2, b"p12\n").err().as_deref(),
        Some("cannot verify whether another process is using database /d: lsof exited with exit status: 2")
    );
    assert_eq!(
        lsof_database_holder_pids("/d", &Err("not found".to_string()), 99).err().as_deref(),
        Some("cannot verify whether another process is using database /d: not found")
    );
    assert_eq!(process_holds("31", &vec![(1, 2), (3, 4)], (3, 4), 99), Some(31));
    assert_eq!(process_holds("31", &vec![(1, 2)], (3, 4), 99), None);
    assert_eq!(process_holds("99", &vec![(3, 4)], (3, 4), 99), None);
    assert!(ensure_no_external_database_holders("/db", &PidSet::new()).is_ok());
    let error = ensure_no_external_database_holders("/db", &PidSet::from_list(&vec![9, 3]))
        .expect_err("held");
    assert_eq!(
        error,
        "cannot safely migrate database /db while another process has it open (PID: 3, 9); close all older cc-switch TUI/proxy processes and retry"
    );
}

#[test]
fn a_lease_may_be_held() {
    assert_eq!(acquire_lifetime_pidfile(&LeaseReply::Acquired, "/pid"), Ok(true));
    assert_eq!(acquire_lifetime_pidfile(&LeaseReply::Held(Some(3)), "/pid"), Ok(false));
    assert!(acquire_lifetime_pidfile(&LeaseReply::Failed("io".to_string()), "/pid").is_err());
}

#[test]
fn replies_are_told() {
    assert!(notify_global_switch(None).result.is_ok());
    let gone = notify_global_switch(Some(SwitchReply::NobodyThere));
    assert!(gone.result.is_ok() && gone.remove_socket);
    let refused = notify_global_switch(Some(SwitchReply::Refused("no".to_string())));
    assert!(refused.result.is_err() && !refused.remove_socket);
    let name = format!("{:?}", AppType::Codex).to_lowercase();
    assert_eq!(restore_warning(&name, &WorkerReply::Restored), None);
    assert_eq!(
        restore_warning(&name, &WorkerReply::Failed("x".to_string())).unwrap(),
        "Could not restore codex daemon worker after migration: x"
    );
    assert_eq!(restart_warning(&StartReply::Started), None);
    assert!(restart_warning(&StartReply::Unreachable).is_some());
}
