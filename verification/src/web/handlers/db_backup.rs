//! Commands on backups.

use vstd::prelude::*;
use vstd::string::*;
use crate::json::Json;
use crate::json::JsonView;
use crate::web::handlers::common::WebError;
use crate::web::handlers::common::ErrorView;
use crate::text;
use crate::web::handlers::common;
use crate::web::handlers::common::{CommandPlan, Shape};
#[allow(unused_imports)]
use crate::web::handlers::common::PlanView;

verus! {

/// What a command does, if it is one of these.
pub open spec fn plan_of(command: Seq<char>) -> Option<PlanView> {
    if command == "create_db_backup"@ {
        Some(common::calls("database.backup_file"@, Shape::Value))
    } else if command == "has_codex_unify_history_backup"@ {
        Some(common::calls("codex_history.has_backup"@, Shape::Value))
    } else if command == "restore_codex_unified_history"@ {
        Some(common::calls("codex_history.restore"@, Shape::Value))
    } else {
        None
    }
}

/// What a command does, if it is one of these.
pub fn dispatch(command: &str) -> (r: Option<CommandPlan>)
    ensures
        common::plan_view(r) == plan_of(command@),
{
    if text::same_text(command, "create_db_backup") {
        Some(CommandPlan::calls("database.backup_file", Shape::Value))
    } else if text::same_text(command, "has_codex_unify_history_backup") {
        Some(CommandPlan::calls("codex_history.has_backup", Shape::Value))
    } else if text::same_text(command, "restore_codex_unified_history") {
        Some(CommandPlan::calls("codex_history.restore", Shape::Value))
    } else {
        None
    }
}

/// What is sent for a backup of the database; there is none where the database has no
/// file.
pub fn backup_answer(file_name: Option<String>) -> (r: Result<Json, WebError>)
    ensures
        match file_name {
            Some(name) => r is Ok && r->Ok_0@ == JsonView::Text(name@),
            None => r is Err && r->Err_0@ == ErrorView::Domain(
                "Database file not found, backup skipped"@,
            ),
        },
{
    match file_name {
        Some(name) => Ok(Json::Text(name)),
        None => Err(WebError::Domain("Database file not found, backup skipped".to_owned())),
    }
}

/// What is sent once a history has been restored.
pub open spec fn restored(files: JsonView, rows: JsonView, skipped: Option<Seq<char>>) -> JsonView {
    let value = JsonView::empty_object().with("restoredJsonlFiles"@, files).with(
        "restoredStateRows"@,
        rows,
    );
    match skipped {
        Some(reason) => value.with("skippedReason"@, JsonView::Text(reason)),
        None => value,
    }
}

/// What is sent once a history has been restored: the numbers of files and rows, and
/// why it was left out where it was.
pub fn restore_answer(files: Json, rows: Json, skipped: &Option<String>) -> (r: Json)
    ensures
        r@ == restored(files@, rows@, text::option_view(*skipped)),
{
    let value = Json::empty_object().with("restoredJsonlFiles", files).with("restoredStateRows", rows);
    match skipped {
        Some(reason) => value.with("skippedReason", Json::from_text(reason.as_str())),
        None => value,
    }
}

} // verus!
