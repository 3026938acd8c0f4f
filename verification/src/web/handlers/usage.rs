//! Commands on usage.

use vstd::prelude::*;
use vstd::string::*;
use crate::services::session_usage::SessionSyncResult;
use crate::text;
use crate::web::handlers::common;
use crate::web::handlers::common::{ArgKind, CommandPlan, Shape};
#[allow(unused_imports)]
use crate::web::handlers::common::PlanView;

verus! {

/// What a command does, if it is one of these.
pub open spec fn plan_of(command: Seq<char>) -> Option<PlanView> {
    if command == "queryProviderUsage"@ {
        Some(
            common::calls("usage.query_provider"@, Shape::Value)
                .takes(ArgKind::App, "app"@)
                .takes(ArgKind::Text, "providerId"@),
        )
    } else if command == "testUsageScript"@ {
        Some(
            common::calls("usage.test_script"@, Shape::Value)
                .takes(ArgKind::App, "app"@)
                .takes(ArgKind::Text, "providerId"@)
                .takes(ArgKind::Text, "scriptCode"@)
                .takes(ArgKind::Count(10), "timeout"@)
                .takes(ArgKind::OptionalText, "apiKey"@)
                .takes(ArgKind::OptionalText, "baseUrl"@)
                .takes(ArgKind::OptionalText, "accessToken"@)
                .takes(ArgKind::OptionalText, "userId"@)
                .takes(ArgKind::OptionalText, "templateType"@),
        )
    } else if command == "get_usage_summary"@ {
        Some(
            common::calls("usage.summary"@, Shape::Value)
                .takes(ArgKind::OptionalSigned, "startDate"@)
                .takes(ArgKind::OptionalSigned, "endDate"@)
                .takes(ArgKind::OptionalText, "appType"@),
        )
    } else if command == "get_usage_summary_by_app"@ {
        Some(
            common::calls("usage.summary_by_app"@, Shape::Value)
                .takes(ArgKind::OptionalSigned, "startDate"@)
                .takes(ArgKind::OptionalSigned, "endDate"@),
        )
    } else if command == "get_usage_trends"@ {
        Some(
            common::calls("usage.daily_trends"@, Shape::Value)
                .takes(ArgKind::OptionalSigned, "startDate"@)
                .takes(ArgKind::OptionalSigned, "endDate"@)
                .takes(ArgKind::OptionalText, "appType"@),
        )
    } else if command == "get_provider_stats"@ {
        Some(
            common::calls("usage.provider_stats"@, Shape::Value)
                .takes(ArgKind::OptionalSigned, "startDate"@)
                .takes(ArgKind::OptionalSigned, "endDate"@)
                .takes(ArgKind::OptionalText, "appType"@),
        )
    } else if command == "get_model_stats"@ {
        Some(
            common::calls("usage.model_stats"@, Shape::Value)
                .takes(ArgKind::OptionalSigned, "startDate"@)
                .takes(ArgKind::OptionalSigned, "endDate"@)
                .takes(ArgKind::OptionalText, "appType"@),
        )
    } else if command == "get_request_logs"@ {
        Some(
            common::calls("usage.request_logs"@, Shape::Value)
                .takes(ArgKind::Typed, "filters"@)
                .takes(ArgKind::Page(0), "page"@)
                .takes(ArgKind::Page(20), "pageSize"@),
        )
    } else if command == "get_request_detail"@ {
        Some(
            common::calls("usage.request_detail"@, Shape::Value)
                .takes(ArgKind::Text, "requestId"@),
        )
    } else if command == "update_model_pricing"@ {
        Some(
            common::calls("pricing.upsert_model"@, Shape::Null)
                .then_tries("pricing.backfill_missing_costs"@)
                .takes(ArgKind::Text, "modelId"@)
                .takes(ArgKind::Text, "displayName"@)
                .takes(ArgKind::Text, "inputCost"@)
                .takes(ArgKind::Text, "outputCost"@)
                .takes(ArgKind::Text, "cacheReadCost"@)
                .takes(ArgKind::Text, "cacheCreationCost"@),
        )
    } else if command == "delete_model_pricing"@ {
        Some(common::calls("pricing.delete_model"@, Shape::Null).takes(ArgKind::Text, "modelId"@))
    } else if command == "check_provider_limits"@ {
        Some(
            common::calls("usage.check_provider_limits"@, Shape::Value)
                .takes(ArgKind::Text, "providerId"@)
                .takes(ArgKind::Text, "appType"@),
        )
    } else if command == "sync_session_usage"@ {
        Some(common::calls("usage.sync_claude"@, Shape::Value).then_calls("usage.sync_others"@))
    } else if command == "get_usage_data_sources"@ {
        Some(common::calls("usage.data_sources"@, Shape::Value))
    } else {
        None
    }
}

/// What a command does, if it is one of these.
pub fn dispatch(command: &str) -> (r: Option<CommandPlan>)
    ensures
        common::plan_view(r) == plan_of(command@),
{
    if text::same_text(command, "queryProviderUsage") {
        Some(
            CommandPlan::calls("usage.query_provider", Shape::Value)
                .takes(ArgKind::App, "app")
                .takes(ArgKind::Text, "providerId"),
        )
    } else if text::same_text(command, "testUsageScript") {
        Some(
            CommandPlan::calls("usage.test_script", Shape::Value)
                .takes(ArgKind::App, "app")
                .takes(ArgKind::Text, "providerId")
                .takes(ArgKind::Text, "scriptCode")
                .takes(ArgKind::Count(10), "timeout")
                .takes(ArgKind::OptionalText, "apiKey")
                .takes(ArgKind::OptionalText, "baseUrl")
                .takes(ArgKind::OptionalText, "accessToken")
                .takes(ArgKind::OptionalText, "userId")
                .takes(ArgKind::OptionalText, "templateType"),
        )
    } else if text::same_text(command, "get_usage_summary") {
        Some(
            CommandPlan::calls("usage.summary", Shape::Value)
                .takes(ArgKind::OptionalSigned, "startDate")
                .takes(ArgKind::OptionalSigned, "endDate")
                .takes(ArgKind::OptionalText, "appType"),
        )
    } else if text::same_text(command, "get_usage_summary_by_app") {
        Some(
            CommandPlan::calls("usage.summary_by_app", Shape::Value)
                .takes(ArgKind::OptionalSigned, "startDate")
                .takes(ArgKind::OptionalSigned, "endDate"),
        )
    } else if text::same_text(command, "get_usage_trends") {
        Some(
            CommandPlan::calls("usage.daily_trends", Shape::Value)
                .takes(ArgKind::OptionalSigned, "startDate")
                .takes(ArgKind::OptionalSigned, "endDate")
                .takes(ArgKind::OptionalText, "appType"),
        )
    } else if text::same_text(command, "get_provider_stats") {
        Some(
            CommandPlan::calls("usage.provider_stats", Shape::Value)
                .takes(ArgKind::OptionalSigned, "startDate")
                .takes(ArgKind::OptionalSigned, "endDate")
                .takes(ArgKind::OptionalText, "appType"),
        )
    } else if text::same_text(command, "get_model_stats") {
        Some(
            CommandPlan::calls("usage.model_stats", Shape::Value)
                .takes(ArgKind::OptionalSigned, "startDate")
                .takes(ArgKind::OptionalSigned, "endDate")
                .takes(ArgKind::OptionalText, "appType"),
        )
    } else if text::same_text(command, "get_request_logs") {
        Some(
            CommandPlan::calls("usage.request_logs", Shape::Value)
                .takes(ArgKind::Typed, "filters")
                .takes(ArgKind::Page(0), "page")
                .takes(ArgKind::Page(20), "pageSize"),
        )
    } else if text::same_text(command, "get_request_detail") {
        Some(
            CommandPlan::calls("usage.request_detail", Shape::Value)
                .takes(ArgKind::Text, "requestId"),
        )
    } else if text::same_text(command, "update_model_pricing") {
        Some(
            CommandPlan::calls("pricing.upsert_model", Shape::Null)
                .then_tries("pricing.backfill_missing_costs")
                .takes(ArgKind::Text, "modelId")
                .takes(ArgKind::Text, "displayName")
                .takes(ArgKind::Text, "inputCost")
                .takes(ArgKind::Text, "outputCost")
                .takes(ArgKind::Text, "cacheReadCost")
                .takes(ArgKind::Text, "cacheCreationCost"),
        )
    } else if text::same_text(command, "delete_model_pricing") {
        Some(
            CommandPlan::calls("pricing.delete_model", Shape::Null)
                .takes(ArgKind::Text, "modelId"),
        )
    } else if text::same_text(command, "check_provider_limits") {
        Some(
            CommandPlan::calls("usage.check_provider_limits", Shape::Value)
                .takes(ArgKind::Text, "providerId")
                .takes(ArgKind::Text, "appType"),
        )
    } else if text::same_text(command, "sync_session_usage") {
        Some(CommandPlan::calls("usage.sync_claude", Shape::Value).then_calls("usage.sync_others"))
    } else if text::same_text(command, "get_usage_data_sources") {
        Some(CommandPlan::calls("usage.data_sources", Shape::Value))
    } else {
        None
    }
}

/// A kind of session log that is synchronised after the first one.
#[derive(Debug, Clone, Copy, PartialEq, Eq, Structural)]
pub enum UsageSource {
    Codex,
    Gemini,
    OpenCode,
}

/// What is noted where a synchronisation failed.
pub open spec fn sync_note(source: UsageSource, error: Seq<char>) -> Seq<char> {
    (match source {
        UsageSource::Codex => "Codex sync failed: "@,
        UsageSource::Gemini => "Gemini sync failed: "@,
        UsageSource::OpenCode => "OpenCode sync failed: "@,
    }) + error
}

/// What is noted where a synchronisation failed: the others go on.
pub fn sync_failure(source: UsageSource, error: &str) -> (r: String)
    ensures
        r@ == sync_note(source, error@),
{
    match source {
        UsageSource::Codex => text::concat2("Codex sync failed: ", error),
        UsageSource::Gemini => text::concat2("Gemini sync failed: ", error),
        UsageSource::OpenCode => text::concat2("OpenCode sync failed: ", error),
    }
}

/// What is done with what came of synchronising a source.
#[derive(Debug)]
pub enum UsageStep {
    /// It is added to the result.
    Merge(SessionSyncResult),
    /// It failed, which is added to the errors of the result.
    Note(String),
}

/// What is done with what came of synchronising a source.
pub open spec fn is_step(step: UsageStep, source: UsageSource, outcome: Result<
    SessionSyncResult,
    String,
>) -> bool {
    match outcome {
        Ok(result) => step == UsageStep::Merge(result),
        Err(error) => step matches UsageStep::Note(note) && note@ == sync_note(source, error@),
    }
}

/// What is done with what came of synchronising a source.
fn usage_step(source: UsageSource, outcome: Result<SessionSyncResult, String>) -> (r: UsageStep)
    ensures
        is_step(r, source, outcome),
{
    match outcome {
        Ok(result) => UsageStep::Merge(result),
        Err(error) => UsageStep::Note(sync_failure(source, error.as_str())),
    }
}

/// What is done, one after the other, with what came of synchronising the sources after
/// the first. One that failed does not keep the others back.
pub fn sync_session_usage(
    codex: Result<SessionSyncResult, String>,
    gemini: Result<SessionSyncResult, String>,
    opencode: Result<SessionSyncResult, String>,
) -> (r: Vec<UsageStep>)
    ensures
        r@.len() == 3,
        is_step(r@[0], UsageSource::Codex, codex),
        is_step(r@[1], UsageSource::Gemini, gemini),
        is_step(r@[2], UsageSource::OpenCode, opencode),
{
    let mut r: Vec<UsageStep> = Vec::new();
    r.push(usage_step(UsageSource::Codex, codex));
    r.push(usage_step(UsageSource::Gemini, gemini));
    r.push(usage_step(UsageSource::OpenCode, opencode));
    r
}

} // verus!
