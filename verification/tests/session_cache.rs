use cc_switch::session_manager::cache::{
    chunk_size, collect_action, mix_sibling_into_fingerprint, revalidate, scan_provider_cached,
    targets_to_parse, CachedScanRow, CollectAction, FileScanTarget, ScanDelta, SessionMeta,
    SCAN_CACHE_VERSION,
};

const PROVIDER: &str = "codex";

fn sample_meta(session_id: &str) -> SessionMeta {
    SessionMeta {
        provider_id: PROVIDER.to_string(),
        session_id: session_id.to_string(),
        title: Some("title".to_string()),
        summary: Some("summary".to_string()),
        project_dir: Some("/tmp/project".to_string()),
        created_at: Some(1_000),
        last_active_at: Some(2_000),
        source_path: Some(format!("/tmp/{session_id}.jsonl")),
        resume_command: Some(format!("resume {session_id}")),
    }
}

fn target(path: &str, mtime_ns: i64, size: i64) -> FileScanTarget {
    FileScanTarget { path: path.to_string(), mtime_ns, size }
}

fn cached_row(target: &FileScanTarget, id: &str, version: i64) -> CachedScanRow {
    CachedScanRow {
        file_path: target.path.clone(),
        mtime_ns: target.mtime_ns,
        size: target.size,
        cache_version: version,
        meta: Some(sample_meta(id)),
    }
}

fn stem(path: &str) -> &str {
    path.rsplit('/').next().unwrap().trim_end_matches(".jsonl")
}

/// Parses what has to be parsed, and counts it.
fn scan(
    targets: &Vec<FileScanTarget>,
    cached: &Vec<CachedScanRow>,
    force: bool,
) -> (usize, ScanDelta) {
    let parsed: Vec<Option<SessionMeta>> = targets_to_parse(targets, cached, force)
        .iter()
        .map(|i| Some(sample_meta(stem(&targets[*i].path))))
        .collect();
    (parsed.len(), revalidate(PROVIDER, targets, cached, force, &parsed))
}

#[test]
fn revalidate_reuses_unchanged_and_reparses_changed() {
    let unchanged = target("/tmp/a.jsonl", 100, 10);
    let changed = target("/tmp/b.jsonl", 200, 20);
    let cached = vec![
        cached_row(&unchanged, "a", SCAN_CACHE_VERSION),
        CachedScanRow { size: 999, ..cached_row(&changed, "b-old", SCAN_CACHE_VERSION) },
    ];
    let (parsed, delta) = scan(&vec![unchanged, changed], &cached, false);
    assert_eq!(parsed, 1);
    assert_eq!(delta.upserts.len(), 1);
    assert_eq!(delta.upserts[0].file_path, "/tmp/b.jsonl");
    assert!(delta.deletes.is_empty());
    assert_eq!(delta.sessions.len(), 2);
}

#[test]
fn revalidate_deletes_vanished_files() {
    let present = target("/tmp/a.jsonl", 100, 10);
    let cached = vec![
        cached_row(&present, "a", SCAN_CACHE_VERSION),
        CachedScanRow {
            file_path: "/tmp/gone.jsonl".to_string(),
            ..cached_row(&present, "gone", SCAN_CACHE_VERSION)
        },
    ];
    let (_, delta) = scan(&vec![present], &cached, false);
    assert_eq!(delta.deletes, vec!["/tmp/gone.jsonl".to_string()]);
    assert_eq!(delta.sessions.len(), 1);
}

#[test]
fn revalidate_reparses_when_cache_version_mismatches() {
    let one = target("/tmp/a.jsonl", 100, 10);
    let cached = vec![cached_row(&one, "a", SCAN_CACHE_VERSION - 1)];
    let (parsed, delta) = scan(&vec![one], &cached, false);
    assert_eq!(parsed, 1);
    assert_eq!(delta.upserts.len(), 1);
    assert_eq!(delta.upserts[0].cache_version, SCAN_CACHE_VERSION);
    assert!(delta.deletes.is_empty());
}

#[test]
fn revalidate_force_reparses_everything() {
    let one = target("/tmp/a.jsonl", 100, 10);
    let cached = vec![cached_row(&one, "a", SCAN_CACHE_VERSION)];
    let (parsed, delta) = scan(&vec![one], &cached, true);
    assert_eq!(parsed, 1);
    assert_eq!(delta.upserts.len(), 1);
}

#[test]
fn cache_lifecycle_seed_reuse_change_and_delete() {
    let file = target("/tmp/id-001.jsonl", 1, 7);
    let (parsed, first) = scan(&vec![file], &vec![], false);
    assert_eq!(parsed, 1);
    assert_eq!(first.sessions.len(), 1);
    assert_eq!(first.sessions[0].session_id, "id-001");

    // What is kept is used again while the time and the size stay the same.
    let kept: Vec<CachedScanRow> = first
        .upserts
        .iter()
        .map(|entry| CachedScanRow {
            file_path: entry.file_path.clone(),
            mtime_ns: entry.mtime_ns,
            size: entry.size,
            cache_version: entry.cache_version,
            meta: Some(entry.meta.duplicate()),
        })
        .collect();
    let (parsed, second) = scan(&vec![target("/tmp/id-001.jsonl", 1, 7)], &kept, false);
    assert_eq!(parsed, 0, "unchanged file must not re-parse");
    assert_eq!(second.sessions[0].session_id, "id-001");
    assert!(second.upserts.is_empty());

    let (parsed, _) = scan(&vec![target("/tmp/id-001.jsonl", 2, 13)], &kept, false);
    assert_eq!(parsed, 1, "changed file must re-parse");

    let (_, fourth) = scan(&vec![], &kept, false);
    assert!(fourth.sessions.is_empty());
    assert_eq!(fourth.deletes, vec!["/tmp/id-001.jsonl".to_string()]);
}

#[test]
fn force_reload_reparses_even_when_unchanged() {
    let one = target("/tmp/s.jsonl", 1, 5);
    let cached = vec![cached_row(&one, "s", SCAN_CACHE_VERSION)];
    let targets = vec![one];
    assert_eq!(targets_to_parse(&targets, &cached, false).len(), 0);
    assert_eq!(targets_to_parse(&targets, &cached, true).len(), 1);
}

#[test]
fn a_cache_that_cannot_be_read_is_no_cache() {
    let targets = vec![target("/tmp/a.jsonl", 1, 5)];
    let parsed = vec![Some(sample_meta("a"))];
    let delta = scan_provider_cached(
        PROVIDER,
        &targets,
        &Err("locked".to_string()),
        false,
        &parsed,
    );
    assert_eq!(delta.sessions.len(), 1);
    assert_eq!(delta.upserts[0].provider, PROVIDER);
    let unreadable = vec![CachedScanRow {
        meta: None,
        ..cached_row(&targets[0], "a", SCAN_CACHE_VERSION)
    }];
    assert_eq!(targets_to_parse(&targets, &unreadable, false), vec![0]);
}

#[test]
fn a_sibling_counts_towards_the_fingerprint() {
    let mut one = target("/tmp/a.jsonl", 100, 10);
    mix_sibling_into_fingerprint(&mut one, None);
    assert_eq!((one.mtime_ns, one.size), (100, 10));
    mix_sibling_into_fingerprint(&mut one, Some((300, 4)));
    assert_eq!((one.mtime_ns, one.size), (300, 15));
}

#[test]
fn an_empty_old_sibling_counts_when_it_appears() {
    let mut one = target("/tmp/a.jsonl", 100, 10);
    mix_sibling_into_fingerprint(&mut one, Some((50, 0)));
    assert_eq!((one.mtime_ns, one.size), (100, 11));
    let mut largest = target("/tmp/a.jsonl", 100, i64::MAX);
    mix_sibling_into_fingerprint(&mut largest, Some((50, 0)));
    assert_eq!(largest.size, i64::MIN);
}

#[test]
fn a_changed_sibling_counts() {
    let mixed = |sibling: (i64, i64)| {
        let mut one = target("/tmp/a.jsonl", 100, 10);
        mix_sibling_into_fingerprint(&mut one, Some(sibling));
        (one.mtime_ns, one.size)
    };
    assert_ne!(mixed((50, 4)), mixed((50, 5)));
    assert_ne!(mixed((50, 4)), mixed((101, 4)));
    assert_ne!(mixed((200, 4)), mixed((201, 4)));
}

#[test]
fn an_unreadable_time_is_always_parsed_again() {
    let targets = vec![target("/tmp/a.jsonl", 0, 10)];
    let cached = vec![cached_row(&targets[0], "a", SCAN_CACHE_VERSION)];
    let (parses, delta) = scan(&targets, &cached, false);
    assert_eq!(parses, 1);
    assert_eq!(delta.upserts.len(), 1);
    let mut mixed = target("/tmp/a.jsonl", 0, 10);
    mix_sibling_into_fingerprint(&mut mixed, Some((300, 4)));
    assert_eq!(mixed.mtime_ns, 0);
}

#[test]
fn a_second_scan_changes_nothing() {
    let targets = vec![
        target("/tmp/a.jsonl", 100, 10),
        target("/tmp/b.jsonl", 200, 20),
        target("/tmp/empty.jsonl", 300, 0),
    ];
    let gone = target("/tmp/gone.jsonl", 1, 1);
    let cached = vec![
        cached_row(&targets[0], "a", SCAN_CACHE_VERSION),
        cached_row(&gone, "gone", SCAN_CACHE_VERSION),
        CachedScanRow { size: 5, ..cached_row(&targets[2], "old", SCAN_CACHE_VERSION) },
    ];
    let parse = |rows: &Vec<CachedScanRow>, force: bool| {
        let due = targets_to_parse(&targets, rows, force);
        let parsed: Vec<Option<SessionMeta>> = due
            .iter()
            .map(|i| {
                let id = stem(&targets[*i].path);
                if id == "empty" { None } else { Some(sample_meta(id)) }
            })
            .collect();
        (due, revalidate(PROVIDER, &targets, rows, force, &parsed))
    };
    let (due, first) = parse(&cached, true);
    assert_eq!(due, vec![0, 1, 2]);
    let mut after: Vec<CachedScanRow> = Vec::new();
    for row in cached {
        if !first.deletes.contains(&row.file_path) {
            after.push(row);
        }
    }
    for entry in &first.upserts {
        after.push(CachedScanRow {
            file_path: entry.file_path.clone(),
            mtime_ns: entry.mtime_ns,
            size: entry.size,
            cache_version: SCAN_CACHE_VERSION,
            meta: Some(sample_meta(stem(&entry.file_path))),
        });
    }
    let (due, second) = parse(&after, false);
    assert_eq!(due, vec![2]);
    assert!(second.upserts.is_empty());
    assert!(second.deletes.is_empty());
    let ids = |delta: &ScanDelta| {
        let mut ids: Vec<String> =
            delta.sessions.iter().map(|meta| meta.session_id.clone()).collect();
        ids.sort();
        ids
    };
    assert_eq!(ids(&first), ids(&second));
}

#[test]
fn files_are_collected_by_extension() {
    assert!(matches!(collect_action(true, Some("dir.jsonl"), "jsonl"), CollectAction::Descend));
    assert!(matches!(collect_action(false, Some("a.jsonl"), "jsonl"), CollectAction::Take));
    assert!(matches!(collect_action(false, Some("a.json"), "jsonl"), CollectAction::Ignore));
    assert_eq!(chunk_size(10, Some(8)), 10);
    assert_eq!(chunk_size(100, Some(8)), 25);
    assert_eq!(chunk_size(101, Some(6)), 34);
    assert_eq!(chunk_size(100, None), 50);
    assert_eq!(chunk_size(100, Some(1)), 100);
}
