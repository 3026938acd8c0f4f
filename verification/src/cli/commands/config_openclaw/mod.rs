//! The OpenClaw configuration, as it is shown and changed on the command line.

pub mod agents;
pub mod env;
pub mod health;
pub mod listing;
pub mod show;
pub mod tools;

use vstd::prelude::*;
use vstd::string::*;
use crate::cli::commands::config_openclaw::agents::{AgentsEdit, OpenClawRuntimeField};
use crate::cli::commands::config_openclaw::env::{EnvEdit, JsonInputArgs, JsonSource};
use crate::cli::commands::config_openclaw::tools::{OpenClawToolsProfile, ToolsEdit, ToolsRuleKind};
use crate::cli::commands::report;
use crate::cli::commands::report::CommandError;
#[allow(unused_imports)]
use crate::cli::commands::report::CommandErrorView;
#[allow(unused_imports)]
use crate::text;

verus! {

/// A command on the OpenClaw configuration.
#[derive(Debug)]
pub enum OpenClawCommand {
    Path,
    Health { json: bool },
    Dir(OpenClawDirCommand),
    Env(OpenClawEnvCommand),
    Tools(OpenClawToolsCommand),
    Agents(OpenClawAgentsCommand),
    Workspace(OpenClawWorkspaceCommand),
    Memory(OpenClawMemoryCommand),
}

/// A command on the directory of the configuration.
#[derive(Debug)]
pub enum OpenClawDirCommand {
    Show { json: bool },
    Use { path: String },
    Clear,
}

/// A command on the environment.
#[derive(Debug)]
pub enum OpenClawEnvCommand {
    Show { json: bool },
    Replace(JsonInputArgs),
    Put { key: String, value: String },
    Unset { key: String },
}

/// A command on the tools.
#[derive(Debug)]
pub enum OpenClawToolsCommand {
    Show { json: bool },
    Replace(JsonInputArgs),
    Profile { profile: Option<OpenClawToolsProfile>, clear: bool },
    Allow(OpenClawRuleListCommand),
    Deny(OpenClawRuleListCommand),
}

/// A command on a list of rules.
#[derive(Debug)]
pub enum OpenClawRuleListCommand {
    List { json: bool },
    Add { rule: String },
    Remove { rule: String },
    Clear,
}

/// A command on what agents take where nothing else is said.
#[derive(Debug)]
pub enum OpenClawAgentsCommand {
    Show { json: bool },
    Replace(JsonInputArgs),
    Primary { model: Option<String>, clear: bool },
    Fallback(OpenClawFallbackCommand),
    Runtime(OpenClawAgentsRuntimeCommand),
}

/// A command on the models to fall back to.
#[derive(Debug)]
pub enum OpenClawFallbackCommand {
    List { json: bool },
    Add { model: String },
    Remove { model: String },
    Clear,
}

/// A command on how agents run.
#[derive(Debug)]
pub enum OpenClawAgentsRuntimeCommand {
    Assign { field: OpenClawRuntimeField, value: String },
    Unset { field: OpenClawRuntimeField },
}

/// A command on the files of the workspace.
#[derive(Debug)]
pub enum OpenClawWorkspaceCommand {
    List { json: bool },
    Exists { filename: String, json: bool },
    Show { filename: String },
    Write { filename: String, content: Option<String> },
}

/// A command on the memory files.
#[derive(Debug)]
pub enum OpenClawMemoryCommand {
    List { json: bool },
    Show { filename: String },
    Write { filename: String, content: Option<String> },
    Search { query: String, json: bool },
    Delete { filename: String, yes: bool },
}

/// What a command comes to.
#[derive(Debug)]
pub enum OpenClawAction {
    ShowPath,
    ShowHealth { json: bool },
    ShowDir { json: bool },
    /// Takes the configuration from this directory, or from where it is by itself.
    SetDir(Option<String>),
    ShowEnv { json: bool },
    ReplaceEnv(JsonSource),
    EditEnv(EnvEdit),
    ShowTools { json: bool },
    ReplaceTools(JsonSource),
    EditTools(ToolsEdit),
    ListRules(ToolsRuleKind, bool),
    ShowAgents { json: bool },
    ReplaceAgents(JsonSource),
    EditAgents(AgentsEdit),
    ListFallbacks { json: bool },
    Workspace(OpenClawWorkspaceCommand),
    Memory(OpenClawMemoryCommand),
}

/// That a command came to an action, or to an error.
pub type Outcome = Result<OpenClawAction, CommandError>;

/// A command that was refused for what was typed.
pub open spec fn refused(r: Outcome, message: Seq<char>) -> bool {
    r is Err && r->Err_0@ == CommandErrorView::InvalidInput(message)
}

/// What a command on the directory comes to.
fn execute_dir(cmd: OpenClawDirCommand) -> (r: OpenClawAction)
    ensures
        r == (match cmd {
            OpenClawDirCommand::Show { json } => OpenClawAction::ShowDir { json },
            OpenClawDirCommand::Use { path } => OpenClawAction::SetDir(Some(path)),
            OpenClawDirCommand::Clear => OpenClawAction::SetDir(None),
        }),
{
    match cmd {
        OpenClawDirCommand::Show { json } => OpenClawAction::ShowDir { json },
        OpenClawDirCommand::Use { path } => OpenClawAction::SetDir(Some(path)),
        OpenClawDirCommand::Clear => OpenClawAction::SetDir(None),
    }
}

/// That JSON comes from where it should.
pub open spec fn from_source(args: JsonInputArgs, missing: Seq<char>, r: Outcome, source: JsonSource) -> bool {
    match (args.json, args.file) {
        (Some(json), None) => r is Ok && source == JsonSource::Inline(json),
        (None, Some(file)) => r is Ok && source == JsonSource::File(file),
        (None, None) => refused(r, missing),
        (Some(_), Some(_)) => refused(r, "Use either --json or --file, not both."@),
    }
}

/// That a command on the environment comes to what it should.
pub open spec fn env_outcome(cmd: OpenClawEnvCommand, r: Outcome) -> bool {
    match cmd {
        OpenClawEnvCommand::Show { json } => r == Outcome::Ok(OpenClawAction::ShowEnv { json }),
        OpenClawEnvCommand::Replace(args) => {
            &&& from_source(
                args,
                "OpenClaw env JSON is required."@,
                r,
                r->Ok_0->ReplaceEnv_0,
            )
            &&& r is Ok ==> r->Ok_0 is ReplaceEnv
        },
        OpenClawEnvCommand::Put { key, value } => if text::is_blank(key@) {
            refused(r, report::empty_message("key"@))
        } else {
            &&& r is Ok
            &&& r->Ok_0 matches OpenClawAction::EditEnv(EnvEdit::Put(k, v))
            &&& k@ == text::trim(key@)
            &&& v@ == env::json_or_text(value@)
        },
        OpenClawEnvCommand::Unset { key } => if text::is_blank(key@) {
            refused(r, report::empty_message("key"@))
        } else {
            &&& r is Ok
            &&& r->Ok_0 matches OpenClawAction::EditEnv(EnvEdit::Unset(k))
            &&& k@ == text::trim(key@)
        },
    }
}

/// What a command on the environment comes to.
fn execute_env(cmd: OpenClawEnvCommand) -> (r: Outcome)
    ensures
        env_outcome(cmd, r),
{
    match cmd {
        OpenClawEnvCommand::Show { json } => Ok(OpenClawAction::ShowEnv { json }),
        OpenClawEnvCommand::Replace(args) => match env::json_source(
            args,
            "OpenClaw env JSON is required.",
        ) {
            Ok(source) => Ok(OpenClawAction::ReplaceEnv(source)),
            Err(error) => Err(error),
        },
        OpenClawEnvCommand::Put { key, value } => match report::non_empty("key", key.as_str()) {
            Ok(name) => Ok(
                OpenClawAction::EditEnv(
                    EnvEdit::Put(
                        name.to_owned(),
                        env::parse_json_value_or_string(value.as_str()),
                    ),
                ),
            ),
            Err(error) => Err(error),
        },
        OpenClawEnvCommand::Unset { key } => match report::non_empty("key", key.as_str()) {
            Ok(name) => Ok(OpenClawAction::EditEnv(EnvEdit::Unset(name.to_owned()))),
            Err(error) => Err(error),
        },
    }
}

/// That a command on a list of rules comes to what it should.
pub open spec fn rules_outcome(kind: ToolsRuleKind, cmd: OpenClawRuleListCommand, r: Outcome) -> bool {
    match cmd {
        OpenClawRuleListCommand::List { json } => r == Outcome::Ok(
            OpenClawAction::ListRules(kind, json),
        ),
        OpenClawRuleListCommand::Add { rule } => if text::is_blank(rule@) {
            refused(r, report::empty_message("rule"@))
        } else {
            &&& r is Ok
            &&& r->Ok_0 matches OpenClawAction::EditTools(ToolsEdit::Add(k, added))
            &&& k == kind
            &&& added@ == text::trim(rule@)
        },
        OpenClawRuleListCommand::Remove { rule } => if text::is_blank(rule@) {
            refused(r, report::empty_message("rule"@))
        } else {
            &&& r is Ok
            &&& r->Ok_0 matches OpenClawAction::EditTools(ToolsEdit::Remove(k, removed))
            &&& k == kind
            &&& removed@ == text::trim(rule@)
        },
        OpenClawRuleListCommand::Clear => r == Outcome::Ok(
            OpenClawAction::EditTools(ToolsEdit::Clear(kind)),
        ),
    }
}

/// What a command on a list of rules comes to.
fn execute_rule_list(kind: ToolsRuleKind, cmd: OpenClawRuleListCommand) -> (r: Outcome)
    ensures
        rules_outcome(kind, cmd, r),
{
    match cmd {
        OpenClawRuleListCommand::List { json } => Ok(OpenClawAction::ListRules(kind, json)),
        OpenClawRuleListCommand::Add { rule } => match report::non_empty("rule", rule.as_str()) {
            Ok(rule) => Ok(OpenClawAction::EditTools(ToolsEdit::Add(kind, rule.to_owned()))),
            Err(error) => Err(error),
        },
        OpenClawRuleListCommand::Remove { rule } => match report::non_empty(
            "rule",
            rule.as_str(),
        ) {
            Ok(rule) => Ok(OpenClawAction::EditTools(ToolsEdit::Remove(kind, rule.to_owned()))),
            Err(error) => Err(error),
        },
        OpenClawRuleListCommand::Clear => Ok(OpenClawAction::EditTools(ToolsEdit::Clear(kind))),
    }
}

/// That a command on the tools comes to what it should.
pub open spec fn tools_outcome(cmd: OpenClawToolsCommand, r: Outcome) -> bool {
    match cmd {
        OpenClawToolsCommand::Show { json } => r == Outcome::Ok(OpenClawAction::ShowTools { json }),
        OpenClawToolsCommand::Replace(args) => {
            &&& from_source(
                args,
                "OpenClaw tools JSON is required."@,
                r,
                r->Ok_0->ReplaceTools_0,
            )
            &&& r is Ok ==> r->Ok_0 is ReplaceTools
        },
        OpenClawToolsCommand::Profile { profile, clear } => if clear {
            r == Outcome::Ok(OpenClawAction::EditTools(ToolsEdit::Profile(None)))
        } else if profile is None {
            refused(r, "Provide a profile value or --clear."@)
        } else {
            r == Outcome::Ok(OpenClawAction::EditTools(ToolsEdit::Profile(profile)))
        },
        OpenClawToolsCommand::Allow(rules) => rules_outcome(ToolsRuleKind::Allow, rules, r),
        OpenClawToolsCommand::Deny(rules) => rules_outcome(ToolsRuleKind::Deny, rules, r),
    }
}

/// What a command on the tools comes to.
fn execute_tools(cmd: OpenClawToolsCommand) -> (r: Outcome)
    ensures
        tools_outcome(cmd, r),
{
    match cmd {
        OpenClawToolsCommand::Show { json } => Ok(OpenClawAction::ShowTools { json }),
        OpenClawToolsCommand::Replace(args) => match env::json_source(
            args,
            "OpenClaw tools JSON is required.",
        ) {
            Ok(source) => Ok(OpenClawAction::ReplaceTools(source)),
            Err(error) => Err(error),
        },
        OpenClawToolsCommand::Profile { profile, clear } => if clear {
            Ok(OpenClawAction::EditTools(ToolsEdit::Profile(None)))
        } else if profile.is_none() {
            Err(CommandError::InvalidInput("Provide a profile value or --clear.".to_owned()))
        } else {
            Ok(OpenClawAction::EditTools(ToolsEdit::Profile(profile)))
        },
        OpenClawToolsCommand::Allow(rules) => execute_rule_list(ToolsRuleKind::Allow, rules),
        OpenClawToolsCommand::Deny(rules) => execute_rule_list(ToolsRuleKind::Deny, rules),
    }
}

/// That a command on the models to fall back to comes to what it should.
pub open spec fn fallback_outcome(cmd: OpenClawFallbackCommand, r: Outcome) -> bool {
    match cmd {
        OpenClawFallbackCommand::List { json } => r == Outcome::Ok(
            OpenClawAction::ListFallbacks { json },
        ),
        OpenClawFallbackCommand::Add { model } => if text::is_blank(model@) {
            refused(r, report::empty_message("model"@))
        } else {
            &&& r is Ok
            &&& r->Ok_0 matches OpenClawAction::EditAgents(AgentsEdit::AddFallback(added))
            &&& added@ == text::trim(model@)
        },
        OpenClawFallbackCommand::Remove { model } => if text::is_blank(model@) {
            refused(r, report::empty_message("model"@))
        } else {
            &&& r is Ok
            &&& r->Ok_0 matches OpenClawAction::EditAgents(AgentsEdit::RemoveFallback(removed))
            &&& removed@ == text::trim(model@)
        },
        OpenClawFallbackCommand::Clear => r == Outcome::Ok(
            OpenClawAction::EditAgents(AgentsEdit::ClearFallbacks),
        ),
    }
}

/// What a command on the models to fall back to comes to.
fn execute_fallback(cmd: OpenClawFallbackCommand) -> (r: Outcome)
    ensures
        fallback_outcome(cmd, r),
{
    match cmd {
        OpenClawFallbackCommand::List { json } => Ok(OpenClawAction::ListFallbacks { json }),
        OpenClawFallbackCommand::Add { model } => match report::non_empty("model", model.as_str()) {
            Ok(model) => Ok(OpenClawAction::EditAgents(AgentsEdit::AddFallback(model.to_owned()))),
            Err(error) => Err(error),
        },
        OpenClawFallbackCommand::Remove { model } => match report::non_empty(
            "model",
            model.as_str(),
        ) {
            Ok(model) => Ok(
                OpenClawAction::EditAgents(AgentsEdit::RemoveFallback(model.to_owned())),
            ),
            Err(error) => Err(error),
        },
        OpenClawFallbackCommand::Clear => Ok(OpenClawAction::EditAgents(AgentsEdit::ClearFallbacks)),
    }
}

/// That a command on what agents take comes to what it should.
pub open spec fn agents_outcome(cmd: OpenClawAgentsCommand, r: Outcome) -> bool {
    match cmd {
        OpenClawAgentsCommand::Show { json } => r == Outcome::Ok(
            OpenClawAction::ShowAgents { json },
        ),
        OpenClawAgentsCommand::Replace(args) => {
            &&& from_source(
                args,
                "OpenClaw agents defaults JSON is required."@,
                r,
                r->Ok_0->ReplaceAgents_0,
            )
            &&& r is Ok ==> r->Ok_0 is ReplaceAgents
        },
        OpenClawAgentsCommand::Primary { model, clear } => if clear {
            r == Outcome::Ok(OpenClawAction::EditAgents(AgentsEdit::Primary(None)))
        } else if model is None {
            refused(r, "Provide a primary model or --clear."@)
        } else {
            r == Outcome::Ok(OpenClawAction::EditAgents(AgentsEdit::Primary(model)))
        },
        OpenClawAgentsCommand::Fallback(models) => fallback_outcome(models, r),
        OpenClawAgentsCommand::Runtime(OpenClawAgentsRuntimeCommand::Assign { field, value }) => {
            if text::is_blank(value@) {
                refused(r, report::empty_message("value"@))
            } else {
                &&& r is Ok
                &&& r->Ok_0 matches OpenClawAction::EditAgents(AgentsEdit::SetRuntime(f, set))
                &&& f == field
                &&& set@ == text::trim(value@)
            }
        },
        OpenClawAgentsCommand::Runtime(OpenClawAgentsRuntimeCommand::Unset { field }) => r
            == Outcome::Ok(OpenClawAction::EditAgents(AgentsEdit::UnsetRuntime(field))),
    }
}

/// What a command on what agents take comes to.
fn execute_agents(cmd: OpenClawAgentsCommand) -> (r: Outcome)
    ensures
        agents_outcome(cmd, r),
{
    match cmd {
        OpenClawAgentsCommand::Show { json } => Ok(OpenClawAction::ShowAgents { json }),
        OpenClawAgentsCommand::Replace(args) => match env::json_source(
            args,
            "OpenClaw agents defaults JSON is required.",
        ) {
            Ok(source) => Ok(OpenClawAction::ReplaceAgents(source)),
            Err(error) => Err(error),
        },
        OpenClawAgentsCommand::Primary { model, clear } => if clear {
            Ok(OpenClawAction::EditAgents(AgentsEdit::Primary(None)))
        } else if model.is_none() {
            Err(CommandError::InvalidInput("Provide a primary model or --clear.".to_owned()))
        } else {
            Ok(OpenClawAction::EditAgents(AgentsEdit::Primary(model)))
        },
        OpenClawAgentsCommand::Fallback(models) => execute_fallback(models),
        OpenClawAgentsCommand::Runtime(OpenClawAgentsRuntimeCommand::Assign { field, value }) => {
            match report::non_empty("value", value.as_str()) {
                Ok(value) => Ok(
                    OpenClawAction::EditAgents(AgentsEdit::SetRuntime(field, value.to_owned())),
                ),
                Err(error) => Err(error),
            }
        },
        OpenClawAgentsCommand::Runtime(OpenClawAgentsRuntimeCommand::Unset { field }) => Ok(
            OpenClawAction::EditAgents(AgentsEdit::UnsetRuntime(field)),
        ),
    }
}

/// What a command on the OpenClaw configuration comes to.
pub fn execute(cmd: OpenClawCommand) -> (r: Outcome)
    ensures
        match cmd {
            OpenClawCommand::Path => r == Outcome::Ok(OpenClawAction::ShowPath),
            OpenClawCommand::Health { json } => r == Outcome::Ok(
                OpenClawAction::ShowHealth { json },
            ),
            OpenClawCommand::Dir(OpenClawDirCommand::Show { json }) => r == Outcome::Ok(
                OpenClawAction::ShowDir { json },
            ),
            OpenClawCommand::Dir(OpenClawDirCommand::Use { path }) => r == Outcome::Ok(
                OpenClawAction::SetDir(Some(path)),
            ),
            OpenClawCommand::Dir(OpenClawDirCommand::Clear) => r == Outcome::Ok(
                OpenClawAction::SetDir(None),
            ),
            OpenClawCommand::Env(env) => env_outcome(env, r),
            OpenClawCommand::Tools(tools) => tools_outcome(tools, r),
            OpenClawCommand::Agents(agents) => agents_outcome(agents, r),
            OpenClawCommand::Workspace(workspace) => r == Outcome::Ok(
                OpenClawAction::Workspace(workspace),
            ),
            OpenClawCommand::Memory(memory) => r == Outcome::Ok(OpenClawAction::Memory(memory)),
        },
{
    match cmd {
        OpenClawCommand::Path => Ok(OpenClawAction::ShowPath),
        OpenClawCommand::Health { json } => Ok(OpenClawAction::ShowHealth { json }),
        OpenClawCommand::Dir(dir) => Ok(execute_dir(dir)),
        OpenClawCommand::Env(env) => execute_env(env),
        OpenClawCommand::Tools(tools) => execute_tools(tools),
        OpenClawCommand::Agents(agents) => execute_agents(agents),
        OpenClawCommand::Workspace(workspace) => Ok(OpenClawAction::Workspace(workspace)),
        OpenClawCommand::Memory(memory) => Ok(OpenClawAction::Memory(memory)),
    }
}

} // verus!
