use std::collections::HashMap;

use cc_switch::json::{parse_json, Json};
use cc_switch::services::session_usage::{SessionSyncResult, SESSION_LOG_COMMIT_BATCH};
use cc_switch::services::session_usage_opencode::batch::{
    session_sync_key, FlushAction, OpenCodeBatch, PendingOpenCodeItem,
};
use cc_switch::services::session_usage_opencode::message::{
    insert_opencode_message, parse_message_data, query_assistant_messages, InsertProgress,
    InsertStep,
};
use cc_switch::services::session_usage_opencode::sessions::{
    needs_sync, query_sessions, sync_opencode_usage, OpenCodeStart, SessionTime,
};
use cc_switch::services::session_usage_opencode::sync::{OpenCodeSync, SyncEvent, SyncStep};

fn value(text: &str) -> Json {
    parse_json(text).expect("JSON")
}

fn time(session_id: &str, time: i64) -> SessionTime {
    SessionTime { session_id: session_id.to_string(), time }
}

#[test]
fn test_parse_message_data_full() {
    let json = value(
        r#"{"role":"assistant","cost":0.0023113,"tokens":{"total":56554,"input":3272,"output":383,"reasoning":419,"cache":{"write":0,"read":52480}},"modelID":"deepseek-v4-pro","providerID":"deepseek","time":{"created":1779755333700,"completed":1779755350639}}"#,
    );
    let data = parse_message_data(&json, 0).unwrap();
    assert_eq!(data.input_tokens, 3272);
    assert_eq!(data.output_tokens, 383);
    assert_eq!(data.reasoning_tokens, 419);
    assert_eq!(data.cache_read_tokens, 52480);
    assert_eq!(data.cache_write_tokens, 0);
    let cost: f64 = data.cost.parse().unwrap();
    assert!((cost - 0.0023113).abs() < 1e-10);
    assert_eq!(data.model_id, "deepseek-v4-pro");
    assert_eq!(data.created_at, 1_779_755_333);
}

#[test]
fn test_parse_message_data_missing_timestamp_falls_back_to_now() {
    let json = value(r#"{"role":"assistant","tokens":{"input":10,"output":5},"modelID":"m"}"#);
    let data = parse_message_data(&json, 1_700_000_000).unwrap();
    assert_eq!(data.created_at, 1_700_000_000);
}

#[test]
fn test_parse_message_data_missing_cache() {
    let json = value(
        r#"{"role":"assistant","cost":0.0,"tokens":{"input":1000,"output":200},"modelID":"mimo-v2.5-pro","time":{"created":1779755333700}}"#,
    );
    let data = parse_message_data(&json, 0).unwrap();
    assert_eq!(data.input_tokens, 1000);
    assert_eq!(data.output_tokens, 200);
    assert_eq!(data.reasoning_tokens, 0);
    assert_eq!(data.cache_read_tokens, 0);
    assert_eq!(data.cache_write_tokens, 0);
    assert!(!data.gives_cost());
}

#[test]
fn test_parse_message_data_skips_zero_tokens() {
    let json = value(
        r#"{"role":"assistant","tokens":{"input":0,"output":0,"reasoning":0,"cache":{"read":0,"write":0}},"modelID":"test"}"#,
    );
    assert!(parse_message_data(&json, 0).is_none());
}

#[test]
fn test_parse_message_data_ignores_role() {
    let json = value(r#"{"role":"user","tokens":{"input":100,"output":0}}"#);
    let data = parse_message_data(&json, 0).unwrap();
    assert_eq!(data.input_tokens, 100);
}

fn done() -> String {
    r#"{"role":"assistant","tokens":{"input":1000,"output":200},"modelID":"m","time":{"created":1,"completed":2}}"#
        .to_string()
}

fn in_progress() -> String {
    r#"{"role":"assistant","tokens":{"input":500,"output":0},"modelID":"m","time":{"created":3}}"#
        .to_string()
}

#[test]
fn test_query_assistant_messages_skips_incomplete() {
    let rows = vec![("done".to_string(), done()), ("wip".to_string(), in_progress())];
    let result = query_assistant_messages(&rows, 0);
    assert_eq!(result.messages.len(), 1);
    assert_eq!(result.messages[0].0, "done");
    assert!(result.has_incomplete_usage);
}

#[test]
fn test_query_sessions_uses_message_update_watermark() {
    let sessions = query_sessions(&vec![time("s1", 100)], &vec![time("s1", 200)]);
    assert_eq!(sessions.len(), 1);
    assert_eq!((sessions[0].session_id.as_str(), sessions[0].time), ("s1", 200));
}

#[test]
fn test_query_sessions_orders_newest_first() {
    let sessions =
        query_sessions(&vec![time("old", 100), time("new", 300), time("mid", 200)], &vec![]);
    let order: Vec<(&str, i64)> =
        sessions.iter().map(|s| (s.session_id.as_str(), s.time)).collect();
    assert_eq!(order, vec![("new", 300), ("mid", 200), ("old", 100)]);
}

/// Runs a synchronisation on rows in memory: what was written, and how far it got.
fn sync(
    sessions: &Vec<SessionTime>,
    messages: &HashMap<String, Vec<(String, String)>>,
    states: &mut HashMap<String, i64>,
    file_modified: i64,
    failing: Option<&str>,
) -> (SessionSyncResult, usize, usize) {
    let path = "/tmp/opencode.db";
    let mut sync = OpenCodeSync::new(path, file_modified, query_sessions(sessions, &vec![]));
    let (mut written, mut in_batch, mut largest) = (0, 0, 0);
    let mut step = sync.next(SyncEvent::Start);
    loop {
        let event = match step {
            SyncStep::FindState { sync_key } => {
                SyncEvent::State { last_modified: states.get(&sync_key).copied().unwrap_or(0) }
            }
            SyncStep::ReadMessages { session_id } => match messages.get(&session_id) {
                Some(rows) => SyncEvent::Messages { rows: Ok(rows.clone()), now: 0 },
                None => SyncEvent::Messages { rows: Err("no such table".to_string()), now: 0 },
            },
            SyncStep::Begin => {
                in_batch = 0;
                SyncEvent::Begun(Ok(()))
            }
            SyncStep::Insert { item } => match sync.item(item) {
                PendingOpenCodeItem::Message { request_id, .. } => {
                    assert!(sync.can_count());
                    in_batch += 1;
                    largest = largest.max(in_batch);
                    if failing.map(|id| request_id.contains(id)).unwrap_or(false) {
                        SyncEvent::Inserted(Err("disk full".to_string()))
                    } else {
                        written += 1;
                        SyncEvent::Inserted(Ok(true))
                    }
                }
                _ => panic!("not a message"),
            },
            SyncStep::Advance { item } => match sync.item(item) {
                PendingOpenCodeItem::SessionFinalize { sync_key, time_updated, .. } => {
                    states.insert(sync_key.clone(), *time_updated);
                    SyncEvent::Advanced(Ok(()))
                }
                _ => panic!("not the end of a session"),
            },
            SyncStep::AdvanceFile { file_modified } => {
                states.insert(path.to_string(), file_modified);
                SyncEvent::FileAdvanced(Ok(()))
            }
            SyncStep::Commit => SyncEvent::Committed(Ok(())),
            SyncStep::Done => break,
            SyncStep::Fail { message } => panic!("{message}"),
        };
        step = sync.next(event);
    }
    (sync.into_result(), written, largest)
}

fn many(count: usize) -> Vec<(String, String)> {
    (0..count)
        .map(|i| {
            (
                format!("msg-{i}"),
                format!(
                    r#"{{"role":"assistant","tokens":{{"input":{},"output":5}},"modelID":"m","time":{{"created":{},"completed":{}}}}}"#,
                    10 + i,
                    1000 + i,
                    2000 + i
                ),
            )
        })
        .collect()
}

#[test]
fn test_sync_opencode_large_session_chunks_and_advances_state() {
    let count = SESSION_LOG_COMMIT_BATCH as usize + 1;
    let sessions = vec![time("s1", 100)];
    let messages = HashMap::from([("s1".to_string(), many(count))]);
    let mut states = HashMap::new();
    let (result, written, largest) = sync(&sessions, &messages, &mut states, 999, None);
    assert_eq!(result.imported, count as u32);
    assert_eq!(result.skipped, 0);
    assert!(result.errors.is_empty());
    assert_eq!(written, count);
    assert_eq!(largest, SESSION_LOG_COMMIT_BATCH as usize);
    assert_eq!(states.get("/tmp/opencode.db:s1").copied(), Some(100));
    assert_eq!(states.get("/tmp/opencode.db").copied(), Some(999));

    let (again, written, _) = sync(&sessions, &messages, &mut states, 999, None);
    assert_eq!((again.imported, again.skipped), (0, 0));
    assert_eq!(written, 0);
}

#[test]
fn test_sync_opencode_incomplete_usage_does_not_advance_file_state() {
    let sessions = vec![time("s1", 100)];
    let messages = HashMap::from([(
        "s1".to_string(),
        vec![("done".to_string(), done()), ("wip".to_string(), in_progress())],
    )]);
    let mut states = HashMap::new();
    let (result, _, _) = sync(&sessions, &messages, &mut states, 999, None);
    assert_eq!(result.imported, 1);
    assert!(result.errors.is_empty());
    assert!(states.is_empty());
}

#[test]
fn a_failed_session_is_not_advanced() {
    let sessions = vec![time("s1", 100), time("s2", 90)];
    let messages = HashMap::from([
        ("s1".to_string(), vec![("broken".to_string(), done())]),
        ("s2".to_string(), vec![("fine".to_string(), done())]),
    ]);
    let mut states = HashMap::new();
    let (result, _, _) = sync(&sessions, &messages, &mut states, 999, Some("broken"));
    assert_eq!(result.imported, 1);
    assert_eq!(result.errors.len(), 1);
    assert!(result.errors[0].contains("disk full"));
    assert_eq!(states.get("/tmp/opencode.db:s1"), None);
    assert_eq!(states.get("/tmp/opencode.db:s2").copied(), Some(90));
    assert_eq!(states.get("/tmp/opencode.db"), None);
}

#[test]
fn a_session_that_cannot_be_read_is_noted() {
    let sessions = vec![time("s9", 100), time("s2", 90)];
    let messages = HashMap::from([("s2".to_string(), vec![("fine".to_string(), done())])]);
    let mut states = HashMap::new();
    let (result, written, _) = sync(&sessions, &messages, &mut states, 999, None);
    assert_eq!(result.errors, vec!["OpenCode 会话消息查询失败 s9: no such table".to_string()]);
    assert_eq!(written, 1);
    assert_eq!(states.get("/tmp/opencode.db:s2").copied(), Some(90));
    assert_eq!(states.get("/tmp/opencode.db:s9"), None);
    assert_eq!(states.get("/tmp/opencode.db"), None);
}

#[test]
fn a_session_that_fails_in_one_batch_is_not_advanced_in_the_next() {
    let size = SESSION_LOG_COMMIT_BATCH as usize;
    let sessions = vec![time("s1", 100)];
    let messages = HashMap::from([("s1".to_string(), many(2 * size))]);
    let mut states = HashMap::new();
    let (result, written, largest) = sync(&sessions, &messages, &mut states, 999, Some(":msg-7"));
    assert_eq!(largest, size);
    assert_eq!(written + result.errors.len(), 2 * size);
    assert!(states.is_empty());
}

#[test]
fn a_transaction_that_fails_ends_the_synchronisation() {
    let mut sync = OpenCodeSync::new("/tmp/opencode.db", 999, vec![]);
    assert!(matches!(sync.next(SyncEvent::Start), SyncStep::Begin));
    match sync.next(SyncEvent::Begun(Err("locked".to_string()))) {
        SyncStep::Fail { message } => assert_eq!(message, "开启事务失败: locked"),
        other => panic!("{other:?}"),
    }
    let mut sync = OpenCodeSync::new("/tmp/opencode.db", 999, vec![]);
    assert!(matches!(sync.next(SyncEvent::Start), SyncStep::Begin));
    assert!(matches!(
        sync.next(SyncEvent::Begun(Ok(()))),
        SyncStep::AdvanceFile { file_modified: 999 }
    ));
    assert!(matches!(sync.next(SyncEvent::FileAdvanced(Ok(()))), SyncStep::Commit));
    match sync.next(SyncEvent::Committed(Err("locked".to_string()))) {
        SyncStep::Fail { message } => assert_eq!(message, "提交事务失败: locked"),
        other => panic!("{other:?}"),
    }
    let mut sync = OpenCodeSync::new("/tmp/opencode.db", 999, vec![]);
    sync.next(SyncEvent::Start);
    sync.next(SyncEvent::Begun(Ok(())));
    match sync.next(SyncEvent::FileAdvanced(Err("read only".to_string()))) {
        SyncStep::Fail { message } => assert_eq!(message, "read only"),
        other => panic!("{other:?}"),
    }
}

#[test]
fn a_session_state_that_cannot_be_written_holds_the_database_back() {
    let mut sync = OpenCodeSync::new("/tmp/o.db", 999, vec![time("s1", 100)]);
    match sync.next(SyncEvent::Start) {
        SyncStep::FindState { sync_key } => assert_eq!(sync_key, "/tmp/o.db:s1"),
        other => panic!("{other:?}"),
    }
    assert!(matches!(
        sync.next(SyncEvent::State { last_modified: 99 }),
        SyncStep::ReadMessages { session_id } if session_id == "s1"
    ));
    assert!(matches!(
        sync.next(SyncEvent::Messages { rows: Ok(vec![]), now: 0 }),
        SyncStep::Begin
    ));
    assert!(matches!(sync.next(SyncEvent::Begun(Ok(()))), SyncStep::Advance { item: 0 }));
    assert!(matches!(
        sync.next(SyncEvent::Advanced(Err("locked".to_string()))),
        SyncStep::Commit
    ));
    assert!(matches!(sync.next(SyncEvent::Committed(Ok(()))), SyncStep::Done));
    assert_eq!(
        sync.into_result().errors,
        vec!["OpenCode 会话同步状态更新失败 /tmp/o.db:s1: locked".to_string()]
    );
}

#[test]
fn a_batch_is_written_item_by_item() {
    let mut batch = OpenCodeBatch::new();
    let data = parse_message_data(&value(&done()), 0).unwrap();
    assert!(batch.push_message("s1", "m1", data, 1));
    batch.finish_session("s1", session_sync_key("db", "s1"), 100, false);
    assert_eq!(batch.batch_len(), 2);
    assert_eq!(batch.flush_action(0), FlushAction::Insert);
    batch.inserted(0, Err("disk full".to_string()));
    assert_eq!(batch.flush_action(1), FlushAction::Nothing);
    batch.end_flush();
    assert_eq!(batch.batch_len(), 0);
    assert!(!batch.advances_file());
}

#[test]
fn messages_are_written_in_the_order_in_which_they_are_found() {
    let mut sync = OpenCodeSync::new("db", 9, vec![time("s2", 20), time("s1", 10)]);
    let mut written: Vec<String> = Vec::new();
    let mut step = sync.next(SyncEvent::Start);
    loop {
        let event = match step {
            SyncStep::FindState { .. } => SyncEvent::State { last_modified: 0 },
            SyncStep::ReadMessages { .. } => SyncEvent::Messages { rows: Ok(many(300)), now: 0 },
            SyncStep::Begin => SyncEvent::Begun(Ok(())),
            SyncStep::Insert { item } => {
                if let PendingOpenCodeItem::Message { request_id, .. } = sync.item(item) {
                    written.push(request_id.clone());
                }
                SyncEvent::Inserted(Ok(written.len() % 2 == 0))
            }
            SyncStep::Advance { .. } => SyncEvent::Advanced(Ok(())),
            SyncStep::Commit => SyncEvent::Committed(Ok(())),
            SyncStep::AdvanceFile { .. } => SyncEvent::FileAdvanced(Ok(())),
            SyncStep::Done => break,
            SyncStep::Fail { message } => panic!("{message}"),
        };
        step = sync.next(event);
    }
    let expected: Vec<String> = ["s2", "s1"]
        .iter()
        .flat_map(|session| {
            (0..300).map(move |i| format!("opencode_session:{session}:msg-{i}"))
        })
        .collect();
    assert_eq!(written, expected);
    let result = sync.into_result();
    assert_eq!((result.imported, result.skipped), (300, 300));
}

#[test]
fn a_session_with_two_rows_is_read_once() {
    let found = query_sessions(
        &vec![time("s1", 100), time("s2", 300), time("s1", 150)],
        &vec![time("s1", 120), time("s3", 900)],
    );
    let order: Vec<(&str, i64)> = found.iter().map(|s| (s.session_id.as_str(), s.time)).collect();
    assert_eq!(order, vec![("s2", 300), ("s1", 150)]);
}

#[test]
fn an_unchanged_database_is_not_read() {
    assert!(matches!(
        sync_opencode_usage(Some(5), Some(3), 5),
        OpenCodeStart::Skip(result) if result.imported == 0 && result.errors.is_empty()
    ));
    assert!(matches!(
        sync_opencode_usage(Some(5), Some(8), 5),
        OpenCodeStart::Read { file_modified: 8 }
    ));
    assert!(matches!(sync_opencode_usage(Some(6), None, 5), OpenCodeStart::Read { file_modified: 6 }));
}

#[test]
fn messages_are_written_as_rows() {
    let data = parse_message_data(&value(&done()), 0).unwrap();
    assert!(data.output_fits());
    let key = data.dedup_key();
    assert_eq!((key.tokens.input, key.tokens.output), (1000, 200));
    let row = data.log_row("r", "s1", None);
    assert_eq!(row.provider_id, "_opencode_session");
    assert_eq!(row.data_source, "opencode_session");
    assert_eq!(row.session_id, "s1");
}

#[test]
fn a_price_is_asked_for_only_where_no_cost_is_given() {
    let free = parse_message_data(&value(&done()), 0).unwrap();
    let mut found = InsertProgress { known: None, priced: None, rows: None };
    assert!(matches!(
        insert_opencode_message("r", "s1", &free, &found),
        InsertStep::FindKnown(key) if key.app_type == "opencode"
    ));
    found.known = Some(Ok(false));
    let asks = matches!(
        insert_opencode_message("r", "s1", &free, &found),
        InsertStep::FindCosts(_)
    );
    assert_eq!(asks, !free.gives_cost());
    found.priced = Some(None);
    assert!(matches!(insert_opencode_message("r", "s1", &free, &found), InsertStep::Write(_)));
    found.rows = Some(Ok(0));
    assert!(matches!(
        insert_opencode_message("r", "s1", &free, &found),
        InsertStep::Done(Ok(false))
    ));
    found.rows = Some(Err("full".to_string()));
    match insert_opencode_message("r", "s1", &free, &found) {
        InsertStep::Done(Err(error)) => assert_eq!(error, "插入 OpenCode 会话日志失败: full"),
        other => panic!("{other:?}"),
    }
    found.known = Some(Ok(true));
    assert!(matches!(
        insert_opencode_message("r", "s1", &free, &found),
        InsertStep::Done(Ok(false))
    ));
}
