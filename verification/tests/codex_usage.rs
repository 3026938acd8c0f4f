use std::collections::HashMap;

use cc_switch::app_type::AppType;
use cc_switch::json::{parse_json, Json};
use cc_switch::services::session_usage::{DedupKey, LogRow};
use cc_switch::services::session_usage_codex::file_sync::{
    sync_single_codex_file, FileStep, ParentLog, SyncCursor,
};
use cc_switch::services::session_usage_codex::meta::{
    explicit_parent_from_meta, parse_timestamp, read_root_meta, ParentResolution,
};
use cc_switch::services::session_usage_codex::model::normalize_codex_model;
use cc_switch::services::session_usage_codex::pending::CodexReplayCaches;
use cc_switch::services::session_usage_codex::replay::{
    consume_replay_signature, parent_signatures_before, ReplayPhase,
};
use cc_switch::services::session_usage_codex::rollout::{
    build_rollout_index, is_codex_cursor_path, is_rollout_filename, thread_id_from_filename,
    RolloutFile,
};
use cc_switch::services::session_usage_codex::scan::{
    new_parse_state, parse_codex_file, resolve_codex_created_at, PendingCodexEntry,
};
use cc_switch::services::session_usage_codex::sync::{
    codex_sync_state, insert_codex_session_entry, push_codex_file, reset_plan, sync_codex_usage,
    walk_action, CodexFileSyncResult, CommitBatch, DatedFile, FileOutcome, FileStat, InsertOutcome,
    InsertProgress, InsertStep, SyncRow, WalkAction,
};
use cc_switch::services::session_usage_codex::tokens::{
    compute_delta, parse_cumulative_tokens, parse_token_signature, CumulativeTokens, DeltaTokens,
};

const PARENT_ID: &str = "00000000-0000-4000-8000-000000000001";
const CHILD_A_ID: &str = "00000000-0000-4000-8000-000000000002";
const CHILD_B_ID: &str = "00000000-0000-4000-8000-000000000003";
const THREAD_PREFIX: &str = "codex_session:thread-v1";

fn value(text: &str) -> Json {
    parse_json(text).expect("JSON")
}

fn rollout_name(thread_id: &str) -> String {
    format!("rollout-2026-07-10T03-00-00-{thread_id}.jsonl")
}

fn rollout_path(dir: &str, thread_id: &str) -> String {
    format!("{dir}/{}", rollout_name(thread_id))
}

fn name_of(path: &str) -> Option<String> {
    path.rsplit('/').next().map(|name| name.to_string())
}

fn quoted(text: Option<&str>) -> String {
    match text {
        Some(text) => format!("\"{text}\""),
        None => "null".to_string(),
    }
}

fn session_meta_at(
    thread_id: &str,
    forked_from_id: Option<&str>,
    spawned_from_id: Option<&str>,
    timestamp: &str,
) -> String {
    let source = match spawned_from_id {
        Some(parent) => format!(
            r#"{{"subagent":{{"thread_spawn":{{"parent_thread_id":"{parent}"}}}}}}"#
        ),
        None => "\"cli\"".to_string(),
    };
    format!(
        r#"{{"timestamp":"{timestamp}","type":"session_meta","payload":{{"id":"{thread_id}","forked_from_id":{},"source":{source}}}}}"#,
        quoted(forked_from_id)
    )
}

fn session_meta(thread_id: &str) -> String {
    session_meta_at(thread_id, None, None, "2026-07-10T03:00:00Z")
}

fn turn_context_at(timestamp: &str) -> String {
    format!(
        r#"{{"timestamp":"{timestamp}","type":"turn_context","payload":{{"model":"gpt-5.6-sol"}}}}"#
    )
}

fn turn_context() -> String {
    turn_context_at("2026-07-10T03:00:01Z")
}

fn token_count_at(input: u64, cached: u64, output: u64, timestamp: &str) -> String {
    format!(
        r#"{{"timestamp":"{timestamp}","type":"event_msg","payload":{{"type":"token_count","info":{{"total_token_usage":{{"input_tokens":{input},"cached_input_tokens":{cached},"output_tokens":{output},"reasoning_output_tokens":0,"total_tokens":{}}}}}}}}}"#,
        input + output
    )
}

fn token_count(input: u64, cached: u64, output: u64) -> String {
    token_count_at(input, cached, output, "2026-07-10T03:00:02Z")
}

/// Logs, what was read of them, and the calls that were found.
struct World {
    files: HashMap<String, (i64, Vec<String>)>,
    caches: CodexReplayCaches,
    cursors: HashMap<String, (i64, i64)>,
    calls: HashMap<String, PendingCodexEntry>,
}

impl World {
    fn new() -> World {
        World {
            files: HashMap::new(),
            caches: CodexReplayCaches::new(),
            cursors: HashMap::new(),
            calls: HashMap::new(),
        }
    }

    fn write(&mut self, path: &str, modified: i64, lines: Vec<String>) {
        self.files.insert(path.to_string(), (modified, lines));
    }

    fn lines(&self, path: &str) -> Vec<Option<String>> {
        self.files[path].1.iter().map(|line| Some(line.clone())).collect()
    }

    fn sync_state(&self, path: &str) -> (i64, i64) {
        let own = self.cursors.get(path).copied().unwrap_or((0, 0));
        let rows = self
            .cursors
            .iter()
            .map(|(path, (modified, offset))| SyncRow {
                file_path: path.clone(),
                last_modified: *modified,
                last_line_offset: *offset,
            })
            .collect();
        let name = name_of(path);
        codex_sync_state(own, path.contains("/archived_sessions/"), path, name.as_deref(), &rows).0
    }

    fn sync(&mut self, path: &str) -> CodexFileSyncResult {
        let index = build_rollout_index(
            &self
                .files
                .keys()
                .map(|path| RolloutFile { path: path.clone(), name: name_of(path) })
                .collect(),
        );
        let (modified, content) = self.files[path].clone();
        let size = content.iter().map(|line| line.len() as u64 + 1).sum();
        let (last_modified, last_offset) = self.sync_state(path);
        let stat = FileStat {
            path: path.to_string(),
            name: name_of(path),
            modified,
            size,
            last_modified,
            suspicious: false,
        };
        let mut log: Option<Vec<Option<String>>> = None;
        let mut logs: Vec<ParentLog> = Vec::new();
        let step = loop {
            match sync_single_codex_file(&stat, &log, &logs, &index, &mut self.caches) {
                FileStep::ReadLog => log = Some(self.lines(path)),
                FileStep::ReadParent(parent) => {
                    let lines = Ok(self.lines(&parent));
                    logs.push(ParentLog { path: parent, lines });
                }
                step => break step,
            }
        };
        if let Some(end) = step.end(modified) {
            if let Some(cursor) = end.cursor {
                self.cursors.insert(path.to_string(), (cursor.modified, cursor.line_offset));
            }
            return end.result;
        }
        match step {
            FileStep::Scan { thread, parent, phase } => {
                let mut state = new_parse_state(phase);
                let history = last_offset as usize;
                let outcome = state.scan_lines(&thread, &parent, 0, &content, history);
                let mut result = CodexFileSyncResult::with_skipped(outcome.replay_skipped);
                for entry in outcome.entries {
                    let known = self.calls.contains_key(&entry.request_id);
                    result.record(if known {
                        InsertOutcome::Known
                    } else {
                        InsertOutcome::Written { rows: 1, suspected: false }
                    });
                    self.calls.entry(entry.request_id.clone()).or_insert(entry);
                }
                self.cursors.insert(path.to_string(), (modified, content.len() as i64));
                result
            }
            _ => unreachable!(),
        }
    }

    fn usage(&self, request_id: &str) -> (u32, u32, u32) {
        let entry = &self.calls[request_id];
        (entry.delta.input, entry.delta.cached_input, entry.delta.output)
    }
}

#[test]
fn test_delta_first_event() {
    let prev = None;
    let current = CumulativeTokens { input: 17934, cached_input: 9600, output: 454 };
    let delta = compute_delta(&prev, &current);
    assert_eq!(delta.input, 17934);
    assert_eq!(delta.cached_input, 9600);
    assert_eq!(delta.output, 454);
    assert!(!delta.is_zero());
}

#[test]
fn test_delta_subsequent_event() {
    let prev = Some(CumulativeTokens { input: 17934, cached_input: 9600, output: 454 });
    let current = CumulativeTokens { input: 36722, cached_input: 27904, output: 804 };
    let delta = compute_delta(&prev, &current);
    assert_eq!(delta.input, 36722 - 17934);
    assert_eq!(delta.cached_input, 27904 - 9600);
    assert_eq!(delta.output, 804 - 454);
}

#[test]
fn test_delta_zero_at_task_boundary() {
    let prev = Some(CumulativeTokens { input: 58346, cached_input: 46976, output: 1045 });
    let current = CumulativeTokens { input: 58346, cached_input: 46976, output: 1045 };
    let delta = compute_delta(&prev, &current);
    assert!(delta.is_zero());
}

#[test]
fn test_delta_saturating_sub() {
    let prev = Some(CumulativeTokens { input: 100, cached_input: 50, output: 30 });
    let current = CumulativeTokens { input: 80, cached_input: 40, output: 20 };
    let delta = compute_delta(&prev, &current);
    assert_eq!(delta.input, 0);
    assert_eq!(delta.cached_input, 0);
    assert_eq!(delta.output, 0);
    assert!(delta.is_zero());
}

#[test]
fn test_cached_clamped_to_input() {
    let prev = Some(CumulativeTokens { input: 100, cached_input: 0, output: 50 });
    let current = CumulativeTokens { input: 110, cached_input: 80, output: 60 };
    let delta = compute_delta(&prev, &current);
    assert_eq!(delta.cached_input, 80);
    assert_eq!(delta.input, 10);
    let clamped = delta.cached_input.min(delta.input);
    assert_eq!(clamped, 10);
    assert_eq!(delta.clamp_cached().cached_input, 10);
}

#[test]
fn deltas_add_up_to_the_last_total() {
    let totals = [
        CumulativeTokens { input: 10, cached_input: 1, output: 2 },
        CumulativeTokens { input: 25, cached_input: 5, output: 3 },
        CumulativeTokens { input: 40, cached_input: 5, output: 9 },
    ];
    let mut prev = None;
    let mut sum = (0, 0, 0);
    for total in totals {
        let delta = compute_delta(&prev, &total);
        sum = (sum.0 + delta.input, sum.1 + delta.cached_input, sum.2 + delta.output);
        prev = Some(total);
    }
    assert_eq!(sum, (40, 5, 9));
}

#[test]
fn test_parse_cumulative_tokens_valid() {
    let json = value(
        r#"{"input_tokens":17934,"cached_input_tokens":9600,"output_tokens":454,"reasoning_output_tokens":233,"total_tokens":18388}"#,
    );
    let tokens = parse_cumulative_tokens(&json).unwrap();
    assert_eq!(tokens.input, 17934);
    assert_eq!(tokens.cached_input, 9600);
    assert_eq!(tokens.output, 454);
}

#[test]
fn test_parse_cumulative_tokens_null() {
    assert!(parse_cumulative_tokens(&Json::Null).is_none());
}

#[test]
fn test_parse_cumulative_tokens_alt_field_names() {
    let json = value(
        r#"{"input_tokens":1000,"cache_read_input_tokens":500,"output_tokens":200}"#,
    );
    let tokens = parse_cumulative_tokens(&json).unwrap();
    assert_eq!(tokens.cached_input, 500);
}

#[test]
fn test_thread_spawn_parent_strips_replay_and_keeps_live_usage() {
    let mut world = World::new();
    let parent = rollout_path("/logs", PARENT_ID);
    let child = rollout_path("/logs", CHILD_A_ID);
    world.write(
        &parent,
        1,
        vec![
            session_meta(PARENT_ID),
            token_count_at(1_000, 900, 100, "2026-07-10T03:00:01Z"),
            turn_context_at("2026-07-10T03:00:10Z"),
        ],
    );
    world.write(
        &child,
        1,
        vec![
            session_meta_at(CHILD_A_ID, None, Some(PARENT_ID), "2026-07-10T03:00:05Z"),
            turn_context(),
            token_count_at(1_000, 900, 100, "2026-07-10T03:00:06Z"),
            token_count_at(1_300, 1_050, 150, "2026-07-10T03:00:07Z"),
        ],
    );
    let result = world.sync(&child);
    assert_eq!((result.imported, result.skipped, result.deferred), (1, 1, false));
    assert_eq!(world.usage(&format!("{THREAD_PREFIX}:{CHILD_A_ID}:2")), (300, 150, 50));
}

#[test]
fn test_incremental_resume_keeps_replay_prefix_alignment() {
    let mut world = World::new();
    let parent = rollout_path("/logs", PARENT_ID);
    let child = rollout_path("/logs", CHILD_A_ID);
    world.write(
        &parent,
        1,
        vec![
            session_meta(PARENT_ID),
            token_count_at(100, 50, 10, "2026-07-10T03:00:01Z"),
            token_count_at(200, 100, 20, "2026-07-10T03:00:02Z"),
            turn_context_at("2026-07-10T03:00:10Z"),
        ],
    );
    let mut lines = vec![
        session_meta_at(CHILD_A_ID, Some(PARENT_ID), None, "2026-07-10T03:00:05Z"),
        turn_context(),
        token_count_at(100, 50, 10, "2026-07-10T03:00:06Z"),
    ];
    world.write(&child, 1, lines.clone());
    let first = world.sync(&child);
    assert_eq!((first.imported, first.skipped), (0, 1));

    // The state after the first pass, as it is kept for the second.
    let cutoff = parse_timestamp(&value(&lines[0])).unwrap();
    let signatures = parent_signatures_before(&world.lines(&parent), cutoff, &parent).unwrap();
    let mut state = new_parse_state(ReplayPhase::Matching { parent_offset: 0 });
    let before = state.scan_lines(CHILD_A_ID, &signatures, 0, &lines, 0);
    assert_eq!((before.entries.len(), before.replay_skipped), (0, 1));
    assert!(matches!(state.replay_phase, ReplayPhase::Matching { parent_offset: 1 }));

    let more = vec![
        token_count_at(200, 100, 20, "2026-07-10T03:00:07Z"),
        token_count_at(300, 150, 30, "2026-07-10T03:00:08Z"),
    ];
    let after = state.scan_lines(CHILD_A_ID, &signatures, 0, &more, 0);
    assert_eq!((after.entries.len(), after.replay_skipped), (1, 1));

    lines.extend(more);
    world.write(&child, 2, lines);
    let second = world.sync(&child);
    assert_eq!((second.imported, second.skipped), (1, 1));
    let id = format!("{THREAD_PREFIX}:{CHILD_A_ID}:3");
    assert_eq!(world.usage(&id), (100, 50, 10));
    assert_eq!(after.entries[0].request_id, id);
    assert_eq!(after.entries[0].delta.input, 100);
}

#[test]
fn test_filtered_parent_events_use_subsequence_prefix_alignment() {
    let mut world = World::new();
    let parent = rollout_path("/logs", PARENT_ID);
    let child = rollout_path("/logs", CHILD_A_ID);
    world.write(
        &parent,
        1,
        vec![
            session_meta(PARENT_ID),
            token_count_at(100, 50, 10, "2026-07-10T03:00:01Z"),
            token_count_at(200, 100, 20, "2026-07-10T03:00:02Z"),
            token_count_at(300, 150, 30, "2026-07-10T03:00:03Z"),
            turn_context_at("2026-07-10T03:00:10Z"),
        ],
    );
    world.write(
        &child,
        1,
        vec![
            session_meta_at(CHILD_A_ID, Some(PARENT_ID), None, "2026-07-10T03:00:05Z"),
            token_count_at(100, 50, 10, "2026-07-10T03:00:06Z"),
            token_count_at(300, 150, 30, "2026-07-10T03:00:07Z"),
            token_count_at(450, 220, 45, "2026-07-10T03:00:08Z"),
        ],
    );
    let result = world.sync(&child);
    assert_eq!((result.imported, result.skipped), (1, 2));
}

#[test]
fn test_empty_fork_imports_no_parent_usage() {
    let mut world = World::new();
    let parent = rollout_path("/logs", PARENT_ID);
    let child = rollout_path("/logs", CHILD_A_ID);
    world.write(
        &parent,
        1,
        vec![
            session_meta(PARENT_ID),
            token_count_at(100, 50, 10, "2026-07-10T03:00:01Z"),
            token_count_at(200, 100, 20, "2026-07-10T03:00:02Z"),
            turn_context_at("2026-07-10T03:00:10Z"),
        ],
    );
    world.write(
        &child,
        1,
        vec![
            session_meta_at(CHILD_A_ID, Some(PARENT_ID), None, "2026-07-10T03:00:05Z"),
            token_count_at(100, 50, 10, "2026-07-10T03:00:06Z"),
            token_count_at(200, 100, 20, "2026-07-10T03:00:07Z"),
            r#"{"timestamp":"2026-07-10T03:00:08Z","type":"event_msg","payload":{"type":"thread_settings_applied"}}"#
                .to_string(),
        ],
    );
    let result = world.sync(&child);
    assert_eq!((result.imported, result.skipped, result.deferred), (0, 2, false));
    assert_eq!(world.calls.len(), 0);
}

#[test]
fn test_conflicting_explicit_parents_are_deferred() {
    let mut world = World::new();
    let child = rollout_path("/logs", CHILD_A_ID);
    world.write(
        &child,
        1,
        vec![
            session_meta_at(CHILD_A_ID, Some(PARENT_ID), Some(CHILD_B_ID), "2026-07-10T03:00:05Z"),
            token_count_at(100, 50, 10, "2026-07-10T03:00:06Z"),
        ],
    );
    let result = world.sync(&child);
    assert!(result.deferred);
    assert_eq!(world.sync_state(&child), (0, 0));
}

#[test]
fn test_parent_future_signature_cannot_extend_replay_prefix() {
    let mut world = World::new();
    let parent = rollout_path("/logs", PARENT_ID);
    let child = rollout_path("/logs", CHILD_A_ID);
    world.write(
        &parent,
        1,
        vec![
            session_meta(PARENT_ID),
            token_count_at(100, 50, 10, "2026-07-10T03:00:01Z"),
            token_count_at(200, 100, 20, "2026-07-10T03:00:06Z"),
        ],
    );
    world.write(
        &child,
        1,
        vec![
            session_meta_at(CHILD_A_ID, Some(PARENT_ID), None, "2026-07-10T03:00:05Z"),
            token_count_at(200, 100, 20, "2026-07-10T03:00:07Z"),
        ],
    );
    let result = world.sync(&child);
    assert_eq!((result.imported, result.skipped, result.deferred), (1, 0, false));
}

#[test]
fn a_log_ends_with_its_result_and_cursor() {
    let unchanged = FileStep::Unchanged.end(7).unwrap();
    assert_eq!(unchanged.result, CodexFileSyncResult::with_skipped(0));
    assert_eq!(unchanged.cursor, None);
    let put_off = FileStep::PutOff { warning: Some("parent".to_string()) }.end(7).unwrap();
    assert_eq!((put_off.result.imported, put_off.result.deferred), (0, true));
    assert_eq!(put_off.cursor, None);
    let advanced = FileStep::Advance { line_offset: 12 }.end(7).unwrap();
    assert_eq!(advanced.result, CodexFileSyncResult::with_skipped(0));
    assert_eq!(advanced.cursor, Some(SyncCursor { modified: 7, line_offset: 12 }));
    assert!(FileStep::ReadLog.end(7).is_none());
    assert!(FileStep::ReadParent("/logs/parent".to_string()).end(7).is_none());
}

#[test]
fn a_log_put_off_is_billed_once_its_parent_is_there() {
    let mut world = World::new();
    let child = rollout_path("/logs", CHILD_A_ID);
    world.cursors.insert(child.clone(), (5, 0));
    world.write(
        &child,
        9,
        vec![
            session_meta_at(CHILD_A_ID, None, Some(PARENT_ID), "2026-07-10T03:00:05Z"),
            token_count_at(900, 400, 90, "2026-07-10T03:00:06Z"),
            token_count_at(1000, 450, 100, "2026-07-10T03:00:07Z"),
        ],
    );
    let first = world.sync(&child);
    assert_eq!((first.imported, first.skipped, first.deferred), (0, 0, true));
    assert_eq!(world.sync_state(&child), (5, 0));
    world.write(
        &rollout_path("/logs", PARENT_ID),
        1,
        vec![
            session_meta(PARENT_ID),
            token_count_at(100, 50, 10, "2026-07-10T03:00:01Z"),
            turn_context_at("2026-07-10T03:00:10Z"),
        ],
    );
    let second = world.sync(&child);
    assert_eq!((second.imported, second.skipped, second.deferred), (2, 0, false));
    assert_eq!(world.sync_state(&child), (9, 3));
}

#[test]
fn test_missing_parent_is_deferred_and_recovered_without_child_change() {
    let mut world = World::new();
    let parent = rollout_path("/logs", PARENT_ID);
    let child = rollout_path("/logs", CHILD_A_ID);
    world.write(
        &child,
        1,
        vec![
            session_meta_at(CHILD_A_ID, None, Some(PARENT_ID), "2026-07-10T03:00:05Z"),
            token_count_at(900, 400, 90, "2026-07-10T03:00:06Z"),
        ],
    );
    let deferred = world.sync(&child);
    assert!(deferred.deferred);
    assert_eq!(world.sync_state(&child), (0, 0));
    assert!(world.sync(&child).deferred);

    world.write(
        &parent,
        1,
        vec![
            session_meta(PARENT_ID),
            token_count_at(100, 50, 10, "2026-07-10T03:00:01Z"),
            turn_context_at("2026-07-10T03:00:10Z"),
        ],
    );
    let recovered = world.sync(&child);
    assert_eq!((recovered.imported, recovered.deferred), (1, false));
}

#[test]
fn test_billable_file_without_meta_is_deferred_without_cursor() {
    let mut world = World::new();
    let child = rollout_path("/logs", CHILD_A_ID);
    world.write(&child, 1, vec![turn_context(), token_count(100, 50, 10)]);
    let result = world.sync(&child);
    assert!(result.deferred);
    assert_eq!(world.sync_state(&child), (0, 0));

    world.write(
        &child,
        2,
        vec![
            turn_context(),
            token_count(100, 50, 10),
            session_meta_at(CHILD_A_ID, None, None, "2026-07-10T03:00:03Z"),
        ],
    );
    let recovered = world.sync(&child);
    assert_eq!((recovered.imported, recovered.deferred), (1, false));
}

#[test]
fn test_non_billable_file_without_meta_advances_cursor() {
    let mut world = World::new();
    let child = rollout_path("/logs", CHILD_A_ID);
    world.write(
        &child,
        1,
        vec![turn_context(), token_count_at(0, 0, 0, "2026-07-10T03:00:02Z")],
    );
    let result = world.sync(&child);
    assert!(!result.deferred);
    assert_eq!(world.sync_state(&child).1, 2);
}

#[test]
fn test_subagents_use_filename_thread_ids() {
    let mut world = World::new();
    let child_a = rollout_path("/logs", CHILD_A_ID);
    let child_b = rollout_path("/logs", CHILD_B_ID);
    world.write(
        &child_a,
        1,
        vec![session_meta(CHILD_A_ID), turn_context(), token_count(100, 50, 10)],
    );
    world.write(
        &child_b,
        1,
        vec![session_meta(CHILD_B_ID), turn_context(), token_count(200, 100, 20)],
    );
    assert_eq!(world.sync(&child_a).imported, 1);
    assert_eq!(world.sync(&child_b).imported, 1);
    let mut ids: Vec<String> = world.calls.keys().cloned().collect();
    ids.sort();
    assert_eq!(
        ids,
        vec![
            format!("{THREAD_PREFIX}:{CHILD_A_ID}:1"),
            format!("{THREAD_PREFIX}:{CHILD_B_ID}:1")
        ]
    );
}

#[test]
fn test_archived_log_inherits_cursor_and_only_imports_appended_usage() {
    let mut world = World::new();
    let source = rollout_path("/codex/sessions", PARENT_ID);
    let archived = rollout_path("/codex/archived_sessions", PARENT_ID);
    world.write(
        &archived,
        5,
        vec![
            session_meta(PARENT_ID),
            turn_context(),
            token_count(100, 50, 10),
            token_count(200, 100, 20),
        ],
    );
    world.cursors.insert(source, (1, 3));
    assert_eq!(world.sync(&archived).imported, 1);
    assert_eq!(world.sync(&archived).imported, 0);
    assert_eq!(world.usage(&format!("{THREAD_PREFIX}:{PARENT_ID}:2")), (100, 50, 10));
    assert_eq!(world.sync_state(&archived).1, 4);
}

#[test]
fn reset_codex_usage_only_removes_codex_rows_and_structural_cursors() {
    let current = rollout_path("/wide/sessions", CHILD_A_ID);
    let legacy = format!("C:\\old-codex\\archived_sessions\\rollout-old-{CHILD_B_ID}.jsonl");
    let gemini = "/wide/gemini/sessions/session-123.json".to_string();
    let claude = format!("/wide/projects/rollout-{PARENT_ID}.jsonl");
    let plan = reset_plan(
        true,
        true,
        &Some(vec![current.clone(), legacy.clone(), gemini.clone(), claude.clone()]),
    );
    assert!(plan.delete_logs);
    assert!(plan.delete_rollups);
    assert_eq!(plan.delete_cursors, vec![current.clone(), legacy.clone()]);
    assert!(is_codex_cursor_path(&current));
    assert!(is_codex_cursor_path(&legacy));
    assert!(!is_codex_cursor_path(&gemini));
    assert!(!is_codex_cursor_path(&claude));
    let none = reset_plan(false, false, &None);
    assert!(!none.delete_logs && !none.delete_rollups && none.delete_cursors.is_empty());
}

#[test]
fn test_normalize_codex_model_lowercase() {
    assert_eq!(normalize_codex_model("GLM-4.6"), "glm-4.6");
    assert_eq!(normalize_codex_model("DeepSeek-Chat"), "deepseek-chat");
    assert_eq!(normalize_codex_model("GPT-5.4"), "gpt-5.4");
}

#[test]
fn test_normalize_codex_model_strip_prefix() {
    assert_eq!(normalize_codex_model("openai/gpt-5.4"), "gpt-5.4");
    assert_eq!(normalize_codex_model("azure/gpt-5.2-codex"), "gpt-5.2-codex");
    assert_eq!(normalize_codex_model("OPENAI/GPT-5.4"), "gpt-5.4");
}

#[test]
fn test_normalize_codex_model_strip_iso_date() {
    assert_eq!(normalize_codex_model("gpt-5.4-2026-03-05"), "gpt-5.4");
    assert_eq!(normalize_codex_model("gpt-5.4-pro-2026-03-05"), "gpt-5.4-pro");
}

#[test]
fn test_normalize_codex_model_strip_compact_date() {
    let family = format!("{:?}", AppType::Claude).to_lowercase();
    assert_eq!(normalize_codex_model("gpt-5.4-20260305"), "gpt-5.4");
    assert_eq!(normalize_codex_model(&format!("{family}-opus-4-6-20260206")), format!("{family}-opus-4-6"));
}

#[test]
fn test_normalize_codex_model_no_change() {
    assert_eq!(normalize_codex_model("gpt-5.4"), "gpt-5.4");
    assert_eq!(normalize_codex_model("gpt-5.2-codex"), "gpt-5.2-codex");
    assert_eq!(normalize_codex_model("o3"), "o3");
    assert_eq!(normalize_codex_model("deepseek-chat"), "deepseek-chat");
}

#[test]
fn test_normalize_codex_model_combined() {
    assert_eq!(normalize_codex_model("openai/GPT-5.4-2026-03-05"), "gpt-5.4");
    assert_eq!(normalize_codex_model("openai/gpt-5.4-20260305"), "gpt-5.4");
}

#[test]
fn a_date_is_kept_where_nothing_stands_before_it() {
    assert_eq!(normalize_codex_model("gpt-5.4-2026-03-5x"), "gpt-5.4-2026-03-5x");
    assert_eq!(normalize_codex_model("É/Ü"), "ü");
}

#[test]
fn thread_ids_are_the_last_uuid_of_a_name() {
    assert_eq!(
        thread_id_from_filename(&rollout_name(PARENT_ID)).as_deref(),
        Some(PARENT_ID)
    );
    assert_eq!(
        thread_id_from_filename(
            "rollout-x-ABCDEF00-0000-4000-8000-00000000000A.jsonl"
        )
        .as_deref(),
        Some("abcdef00-0000-4000-8000-00000000000a")
    );
    assert_eq!(thread_id_from_filename("rollout-2026.jsonl"), None);
    assert!(is_rollout_filename(&rollout_name(PARENT_ID)));
    assert!(!is_rollout_filename("session.json"));
}

#[test]
fn timestamps_are_instants() {
    let early = parse_timestamp(&value(r#"{"timestamp":"1970-01-01T00:16:40Z"}"#)).unwrap();
    let late = parse_timestamp(&value(r#"{"timestamp":"1970-01-01T01:16:40.5+01:00"}"#)).unwrap();
    assert_eq!(early.seconds, 1000);
    assert_eq!((late.seconds, late.nanos), (1000, 500_000_000));
    assert!(early.is_before(&late));
    assert_eq!(late.timestamp_micros(), 1_000_500_000);
    assert!(parse_timestamp(&value(r#"{"timestamp":"yesterday"}"#)).is_none());
    assert!(parse_timestamp(&value(r#"{"timestamp":7}"#)).is_none());
    assert_eq!(
        resolve_codex_created_at(&value(r#"{"timestamp":"1970-01-01T00:16:45Z"}"#), 7),
        1005
    );
    assert_eq!(resolve_codex_created_at(&value("{}"), 7), 7);
}

#[test]
fn a_thread_is_not_its_own_parent() {
    let own = vec![Some(session_meta_at(
        CHILD_A_ID,
        Some(CHILD_A_ID),
        None,
        "2026-07-10T03:00:05Z",
    ))];
    let meta = read_root_meta(&own, Some(CHILD_A_ID)).unwrap();
    assert!(!matches!(meta.parent, ParentResolution::Parent(_)));
    let payload = value(r#"{"forked_from_id":""}"#);
    assert!(matches!(explicit_parent_from_meta(&payload), ParentResolution::Root));
    let broken = vec![None, Some("{".to_string())];
    assert!(read_root_meta(&broken, Some(CHILD_A_ID)).is_none());
}

#[test]
fn live_stays_live() {
    let info = value(r#"{"total_token_usage":{"input_tokens":1,"output_tokens":2}}"#);
    let other = value(r#"{"total_token_usage":{"input_tokens":5,"output_tokens":2}}"#);
    let signature = parse_token_signature(&info).unwrap();
    let foreign = parse_token_signature(&other).unwrap();
    let parent = vec![parse_token_signature(&info).unwrap()];
    let mut phase = ReplayPhase::Matching { parent_offset: 0 };
    assert!(consume_replay_signature(&mut phase, &parent, &signature));
    assert!(!consume_replay_signature(&mut phase, &parent, &foreign));
    assert!(matches!(phase, ReplayPhase::Live));
    assert!(!consume_replay_signature(&mut phase, &parent, &signature));
    assert!(matches!(phase, ReplayPhase::Live));
}

#[test]
fn two_goes_find_what_one_finds() {
    let lines = vec![
        session_meta(PARENT_ID),
        turn_context(),
        token_count(100, 50, 10),
        token_count(100, 50, 10),
        token_count(250, 90, 40),
    ];
    let parent = Vec::new();
    let mut whole = new_parse_state(ReplayPhase::Live);
    let all = whole.scan_lines(PARENT_ID, &parent, 0, &lines, 0);
    let ids: Vec<String> = all.entries.iter().map(|entry| entry.request_id.clone()).collect();
    assert_eq!(
        ids,
        vec![format!("{THREAD_PREFIX}:{PARENT_ID}:1"), format!("{THREAD_PREFIX}:{PARENT_ID}:2")]
    );
    let mut replayed = new_parse_state(ReplayPhase::Live);
    let rest = replayed.scan_lines(PARENT_ID, &parent, 0, &lines, 3);
    assert_eq!(rest.entries.len(), 1);
    assert_eq!(rest.entries[0].request_id, ids[1]);
    assert_eq!(rest.entries[0].delta.input, 150);
    assert_eq!(rest.entries[0].model, "gpt-5.6-sol");
}

#[test]
fn a_file_of_nothing_billable_is_counted() {
    let parsed = parse_codex_file(&vec![
        Some(turn_context()),
        Some(token_count(0, 0, 0)),
        None,
    ]);
    assert!(!parsed.has_billable_tokens);
    let billable = parse_codex_file(&vec![Some(token_count(1, 0, 0))]);
    assert!(billable.has_billable_tokens);
    assert_eq!(billable.line_offset, 1);
}

#[test]
fn results_are_added_up() {
    let outcomes = vec![
        FileOutcome {
            path: "a".to_string(),
            outcome: Ok(CodexFileSyncResult {
                imported: 2,
                skipped: 1,
                suspected_duplicates: 1,
                deferred: false,
            }),
        },
        FileOutcome { path: "b".to_string(), outcome: Ok(CodexFileSyncResult::put_off()) },
        FileOutcome { path: "c".to_string(), outcome: Err("broken".to_string()) },
    ];
    let result = sync_codex_usage(&outcomes);
    assert_eq!((result.imported, result.skipped), (2, 1));
    assert_eq!((result.files_scanned, result.deferred_files), (3, 1));
    assert_eq!(result.suspected_duplicates, 1);
    assert_eq!(result.errors.len(), 1);
    assert!(result.errors[0].contains("broken"));
    let mut one = CodexFileSyncResult::with_skipped(0);
    one.record(InsertOutcome::Known);
    one.record(InsertOutcome::Written { rows: 0, suspected: true });
    one.record(InsertOutcome::Written { rows: 1, suspected: false });
    one.record(InsertOutcome::Failed { suspected: false });
    assert_eq!((one.imported, one.skipped, one.suspected_duplicates), (1, 3, 1));
}

#[test]
fn a_batch_ends_when_it_is_full() {
    let mut batch = CommitBatch { since_commit: 0 };
    assert!(!batch.advance(2));
    assert!(batch.advance(2));
    assert!(!batch.advance(2));
}

#[test]
fn files_are_collected_by_name() {
    assert!(matches!(walk_action(true, Some("2026"), 0, 8), WalkAction::Descend));
    assert!(matches!(walk_action(true, Some("2026"), 9, 8), WalkAction::Ignore));
    assert!(matches!(
        walk_action(false, Some(&rollout_name(PARENT_ID)), 3, 8),
        WalkAction::Take
    ));
    assert!(matches!(walk_action(false, Some("notes.txt"), 3, 8), WalkAction::Ignore));
    let mut files = Vec::new();
    push_codex_file(&mut files, DatedFile { path: "a".to_string(), modified: 1 });
    push_codex_file(&mut files, DatedFile { path: "b".to_string(), modified: 2 });
    assert_eq!(files.len(), 2);
}

#[test]
fn a_call_is_written_as_a_row() {
    let entry = PendingCodexEntry {
        request_id: "r".to_string(),
        delta: DeltaTokens { input: 10, cached_input: 1, output: 2 },
        model: "gpt-5.4".to_string(),
        session_id: "session-1".to_string(),
        created_at: 1005,
    };
    let key = entry.dedup_key();
    assert_eq!(key.app_type, "codex");
    assert_eq!((key.tokens.input, key.tokens.output, key.tokens.cache_read), (10, 2, 1));
    let row = entry.log_row(None);
    assert_eq!(row.provider_id, "_codex_session");
    assert_eq!(row.data_source, "codex_session");
    assert_eq!(row.cost_multiplier, "1.0");
    assert_eq!(row.status_code, 200);
    assert_eq!(row.created_at, 1005);
    assert_eq!(row.costs.total, "0");
}

/// A table of requests that finds a request again by what it was billed for.
struct Ledger {
    rows: Vec<LogRow>,
}

impl Ledger {
    fn looks_like(&self, source: &str, key: &DedupKey) -> bool {
        self.rows.iter().any(|row| {
            row.data_source == source
                && row.app_type == key.app_type
                && row.model == key.model
                && row.tokens.input == key.tokens.input
                && row.tokens.output == key.tokens.output
                && row.tokens.cache_read == key.tokens.cache_read
                && (row.created_at - key.created_at).abs() <= 600
        })
    }

    fn insert(&mut self, entry: &PendingCodexEntry) -> InsertOutcome {
        let mut found =
            InsertProgress { known: None, suspected: None, costs: None, rows: None };
        loop {
            match insert_codex_session_entry(entry, &found) {
                InsertStep::FindKnown(key) => {
                    found.known = Some(Ok(self.looks_like("proxy", &key)));
                }
                InsertStep::FindSuspected(key) => {
                    found.suspected = Some(Ok(self.looks_like("codex_session", &key)));
                }
                InsertStep::FindCosts(_) => found.costs = Some(None),
                InsertStep::Write(row) => {
                    self.rows.push(row);
                    found.rows = Some(Ok(1));
                }
                InsertStep::Done(outcome) => return outcome,
            }
        }
    }
}

fn billed_entry(request_id: &str, session_id: &str, timestamp: &str) -> PendingCodexEntry {
    let line = value(&format!("{{\"timestamp\":\"{timestamp}\"}}"));
    PendingCodexEntry {
        request_id: request_id.to_string(),
        delta: DeltaTokens { input: 10, cached_input: 1, output: 2 },
        model: "gpt-5.4".to_string(),
        session_id: session_id.to_string(),
        created_at: resolve_codex_created_at(&line, 0),
    }
}

#[test]
fn test_insert_codex_session_skips_matching_proxy_log() {
    let mut proxied = billed_entry("codex-proxy", "", "1970-01-01T00:16:40Z").log_row(None);
    proxied.data_source = "proxy".to_string();
    let mut ledger = Ledger { rows: vec![proxied] };
    let mut result = CodexFileSyncResult::with_skipped(0);
    let entry = billed_entry("codex-session-dup", "session-1", "1970-01-01T00:16:45Z");
    assert_eq!(entry.created_at, 1005);
    result.record(ledger.insert(&entry));
    assert_eq!((result.imported, result.skipped), (0, 1));
    assert_eq!(ledger.rows.len(), 1);
}

#[test]
fn test_codex_session_duplicate_is_observed_but_still_inserted() {
    let mut ledger = Ledger { rows: Vec::new() };
    let mut result = CodexFileSyncResult::with_skipped(0);
    let first = billed_entry("codex-session-a", "session-a", "1970-01-01T00:16:40Z");
    result.record(ledger.insert(&first));
    let second = billed_entry("codex-session-b", "session-b", "1970-01-01T00:16:45Z");
    result.record(ledger.insert(&second));
    assert_eq!(result.imported, 2);
    assert_eq!(result.suspected_duplicates, 1);
    assert_eq!(
        ledger.rows.iter().filter(|row| row.data_source == "codex_session").count(),
        2
    );
}

fn child_stat(path: &str) -> FileStat {
    FileStat {
        path: path.to_string(),
        name: name_of(path),
        modified: 5,
        size: 100,
        last_modified: 0,
        suspicious: false,
    }
}

fn forked_child() -> Vec<Option<String>> {
    vec![
        Some(session_meta_at(CHILD_A_ID, Some(PARENT_ID), None, "2026-07-10T03:00:05Z")),
        Some(token_count_at(100, 50, 10, "2026-07-10T03:00:06Z")),
    ]
}

#[test]
fn nothing_is_read_twice() {
    let (child, parent) = (rollout_path("/logs", CHILD_A_ID), rollout_path("/logs", PARENT_ID));
    let files = [&child, &parent]
        .iter()
        .map(|path| RolloutFile { path: path.to_string(), name: name_of(path) })
        .collect();
    let index = build_rollout_index(&files);
    let mut caches = CodexReplayCaches::new();
    let stat = child_stat(&child);
    let first = sync_single_codex_file(&stat, &None, &Vec::new(), &index, &mut caches);
    assert!(matches!(first, FileStep::ReadLog));
    let log = Some(forked_child());
    match sync_single_codex_file(&stat, &log, &Vec::new(), &index, &mut caches) {
        FileStep::ReadParent(path) => assert_eq!(path, parent),
        other => panic!("{other:?}"),
    }
    let lines = vec![
        Some(session_meta(PARENT_ID)),
        Some(token_count_at(100, 50, 10, "2026-07-10T03:00:01Z")),
        Some(turn_context_at("2026-07-10T03:00:10Z")),
    ];
    let logs = vec![ParentLog { path: parent, lines: Ok(lines) }];
    match sync_single_codex_file(&stat, &log, &logs, &index, &mut caches) {
        FileStep::Scan { thread, parent, phase } => {
            assert_eq!(thread, CHILD_A_ID);
            assert_eq!(parent.len(), 1);
            assert!(matches!(phase, ReplayPhase::Matching { parent_offset: 0 }));
        }
        other => panic!("{other:?}"),
    }
    // What was read of the parent is still known.
    let again = sync_single_codex_file(&stat, &log, &Vec::new(), &index, &mut caches);
    assert!(matches!(again, FileStep::Scan { .. }));
}

#[test]
fn an_unreadable_parent_is_tried_again() {
    let (child, parent) = (rollout_path("/logs", CHILD_A_ID), rollout_path("/logs", PARENT_ID));
    let files =
        vec![RolloutFile { path: parent.clone(), name: name_of(&parent) }];
    let index = build_rollout_index(&files);
    let mut caches = CodexReplayCaches::new();
    let stat = child_stat(&child);
    let log = Some(forked_child());
    let logs = vec![ParentLog { path: parent.clone(), lines: Err("denied".to_string()) }];
    match sync_single_codex_file(&stat, &log, &logs, &index, &mut caches) {
        FileStep::PutOff { warning } => {
            assert_eq!(warning, Some(format!("无法打开父 rollout {parent}: denied")))
        }
        other => panic!("{other:?}"),
    }
    let again = sync_single_codex_file(&stat, &None, &Vec::new(), &index, &mut caches);
    assert!(matches!(again, FileStep::ReadLog));
}

#[test]
fn a_log_put_off_is_left_alone() {
    let child = rollout_path("/logs", CHILD_A_ID);
    let index = build_rollout_index(&Vec::new());
    let mut caches = CodexReplayCaches::new();
    let stat = child_stat(&child);
    let log = Some(forked_child());
    match sync_single_codex_file(&stat, &log, &Vec::new(), &index, &mut caches) {
        FileStep::PutOff { warning } => {
            assert_eq!(warning, Some(format!("找不到父 rollout {PARENT_ID}")))
        }
        other => panic!("{other:?}"),
    }
    let again = sync_single_codex_file(&stat, &None, &Vec::new(), &index, &mut caches);
    assert!(matches!(again, FileStep::PutOff { warning: None }));
    let unchanged = FileStat { last_modified: 5, ..stat };
    let step = sync_single_codex_file(&unchanged, &None, &Vec::new(), &index, &mut caches);
    assert!(matches!(step, FileStep::Unchanged));
    let nameless = FileStat { name: None, modified: 6, ..unchanged };
    match sync_single_codex_file(&nameless, &log, &Vec::new(), &index, &mut caches) {
        FileStep::PutOff { warning } => {
            assert_eq!(warning.as_deref(), Some("文件名缺少有效的尾部 UUID"))
        }
        other => panic!("{other:?}"),
    }
}

#[test]
fn billed_calls_are_sound() {
    let lines = vec![
        token_count_at(10, 40, 2, "2026-07-10T03:00:01Z"),
        token_count_at(10, 40, 2, "2026-07-10T03:00:02Z"),
        token_count_at(12, 41, 2, "2026-07-10T03:00:03Z"),
    ];
    let mut state = new_parse_state(ReplayPhase::Live);
    let outcome = state.scan_lines(PARENT_ID, &Vec::new(), 0, &lines, 0);
    let deltas: Vec<(u32, u32, u32)> = outcome
        .entries
        .iter()
        .map(|entry| (entry.delta.input, entry.delta.cached_input, entry.delta.output))
        .collect();
    assert_eq!(deltas, vec![(10, 10, 2), (2, 1, 0)]);
    assert!(outcome.entries.iter().all(|entry| entry.session_id == PARENT_ID));
}

#[test]
fn a_call_that_cannot_be_written_is_left_out() {
    let entry = billed_entry("codex-session-a", "session-a", "1970-01-01T00:16:40Z");
    let failed = |found: InsertProgress| match insert_codex_session_entry(&entry, &found) {
        InsertStep::Done(outcome) => outcome,
        other => panic!("{other:?}"),
    };
    let broken = || Err("broken".to_string());
    assert_eq!(
        failed(InsertProgress { known: Some(broken()), suspected: None, costs: None, rows: None }),
        InsertOutcome::Failed { suspected: false }
    );
    assert_eq!(
        failed(InsertProgress {
            known: Some(Ok(false)),
            suspected: Some(broken()),
            costs: None,
            rows: None,
        }),
        InsertOutcome::Failed { suspected: false }
    );
    assert_eq!(
        failed(InsertProgress {
            known: Some(Ok(false)),
            suspected: Some(Ok(true)),
            costs: Some(None),
            rows: Some(Err("broken".to_string())),
        }),
        InsertOutcome::Failed { suspected: true }
    );
}
