//! What holds of the commands of the command line.

use vstd::prelude::*;
use vstd::string::*;
#[allow(unused_imports)]
use crate::cli::commands::config_openclaw;
#[allow(unused_imports)]
use crate::cli::commands::config_openclaw::agents;
#[allow(unused_imports)]
use crate::cli::commands::config_openclaw::agents::{AgentsEdit, FormView, OpenClawRuntimeField};
#[allow(unused_imports)]
use crate::cli::commands::config_openclaw::env::{EnvEdit, JsonInputArgs, JsonSource};
#[allow(unused_imports)]
use crate::cli::commands::config_openclaw::health;
#[allow(unused_imports)]
use crate::cli::commands::config_openclaw::health::{SliceLoad, WarningView};
#[allow(unused_imports)]
use crate::cli::commands::config_openclaw::listing;
#[allow(unused_imports)]
use crate::cli::commands::config_openclaw::listing::{
    DailyMemoryFileInfo, DailyMemorySearchResult, WorkspaceFileInfo,
};
#[allow(unused_imports)]
use crate::cli::commands::config_openclaw::show;
#[allow(unused_imports)]
use crate::cli::commands::config_openclaw::show::LiveSync;
#[allow(unused_imports)]
use crate::cli::commands::config_openclaw::tools;
#[allow(unused_imports)]
use crate::cli::commands::config_openclaw::tools::{
    OpenClawToolsProfile, ToolsEdit, ToolsRuleKind, ToolsView,
};
#[allow(unused_imports)]
use crate::cli::commands::config_openclaw::{
    OpenClawAction, OpenClawAgentsCommand, OpenClawAgentsRuntimeCommand, OpenClawEnvCommand,
    OpenClawFallbackCommand, OpenClawRuleListCommand, OpenClawToolsCommand,
};
#[allow(unused_imports)]
use crate::cli::commands::hermes;
#[allow(unused_imports)]
use crate::cli::commands::hermes::{MemoryAction, MemoryCommand, MemoryKindArg};
#[allow(unused_imports)]
use crate::cli::commands::report;
#[allow(unused_imports)]
use crate::cli::commands::report::{CommandError, Language, LineStyle};
#[allow(unused_imports)]
use crate::cli::commands::web;
#[allow(unused_imports)]
use crate::json;
#[allow(unused_imports)]
use crate::json::JsonView;
use crate::text;

verus! {

/// Each command on what Hermes remembers does what it says, to the kind of memory that it
/// names; only what is confirmed is erased.
pub proof fn law_a_memory_command_acts_on_its_kind(kind: MemoryKindArg, content: String, yes: bool)
    ensures
        hermes::memory_action(MemoryCommand::Show { kind }) == MemoryAction::Show(kind),
        hermes::memory_action(MemoryCommand::Write { kind, content: Some(content) })
            == MemoryAction::Write(kind, content),
        hermes::memory_action(MemoryCommand::Write { kind, content: None })
            == MemoryAction::WriteInput(kind),
        hermes::memory_action(MemoryCommand::Clear { kind, yes }) == MemoryAction::Erase(kind)
            <==> yes,
        hermes::memory_action(MemoryCommand::Clear { kind, yes }) == MemoryAction::RefuseToErase(
            kind,
        ) <==> !yes,
        hermes::memory_action(MemoryCommand::Enable { kind }) == MemoryAction::Enable(kind, true),
        hermes::memory_action(MemoryCommand::Disable { kind }) == MemoryAction::Enable(kind, false),
        hermes::memory_action(MemoryCommand::Limits) is Limits,
        hermes::kind_name(MemoryKindArg::Memory) == "memory"@,
        hermes::kind_name(MemoryKindArg::User) == "user"@,
{
}

/// What is said once something has been enabled differs from what is said once it has been
/// disabled, and what is said of one memory from what is said of the other.
pub proof fn law_what_was_done_is_told(kind: MemoryKindArg)
    ensures
        hermes::toggled(kind, true).text == "✓ Enabled Hermes "@ + hermes::kind_name(kind)
            + " memory"@,
        hermes::toggled(kind, false).text == "✓ Disabled Hermes "@ + hermes::kind_name(kind)
            + " memory"@,
        hermes::truth(true) == "true"@,
        hermes::truth(false) == "false"@,
{
}

/// The dashboard listens on this machine only, at the port that was asked for, and is opened
/// by the token at the end of its address.
pub proof fn law_the_dashboard_listens_here(port: u16, base: Seq<char>, token: Seq<char>)
    ensures
        web::loopback(port) == "127.0.0.1:"@ + text::decimal(port as nat),
        web::dashboard_url(base, token).take(base.len() as int) == base,
        web::dashboard_url(base, token) == base + "/?token="@ + token,
{
    assert(web::dashboard_url(base, token).take(base.len() as int) =~= base);
}

/// What is said is said in the language that was asked for.
pub proof fn law_one_language_is_spoken(english: Seq<char>, chinese: Seq<char>)
    ensures
        report::said(Language::English, english, chinese) == english,
        report::said(Language::Chinese, english, chinese) == chinese,
{
}

/// The text of a field that says how agents run.
pub open spec fn runtime_text(form: FormView, field: OpenClawRuntimeField) -> Seq<char> {
    match field {
        OpenClawRuntimeField::Workspace => form.workspace,
        OpenClawRuntimeField::TimeoutSeconds => form.timeout,
        OpenClawRuntimeField::ContextTokens => form.context_tokens,
        OpenClawRuntimeField::MaxConcurrent => form.max_concurrent,
    }
}

/// How agents run is set field by field: the one that is named has what was given, or nothing
/// once it has been taken back, and no other changes. A number that was read is forgotten
/// with its field.
pub proof fn law_one_field_of_the_runtime_changes(
    form: FormView,
    field: OpenClawRuntimeField,
    other: OpenClawRuntimeField,
    value: String,
)
    ensures
        ({
            let set = agents::changed(form, AgentsEdit::SetRuntime(field, value));
            let unset = agents::changed(form, AgentsEdit::UnsetRuntime(field));
            &&& runtime_text(set, field) == value@
            &&& runtime_text(unset, field).len() == 0
            &&& other != field ==> runtime_text(set, other) == runtime_text(form, other)
            &&& other != field ==> runtime_text(unset, other) == runtime_text(form, other)
            &&& field is TimeoutSeconds ==> unset.timeout_seconds_seed is None
                && !unset.has_legacy_timeout
            &&& field is ContextTokens ==> unset.context_tokens_seed is None
            &&& field is MaxConcurrent ==> unset.max_concurrent_seed is None
        }),
{
}

proof fn lemma_without(rules: Seq<Seq<char>>, rule: Seq<char>, other: Seq<char>)
    ensures
        !tools::without(rules, rule).contains(rule),
        other != rule ==> (tools::without(rules, rule).contains(other) <==> rules.contains(other)),
    decreases rules.len(),
{
    if rules.len() > 0 {
        let head = rules.drop_last();
        let before = tools::without(head, rule);
        let all = tools::without(rules, rule);
        lemma_without(head, rule, other);
        assert(rules.last() == rules[rules.len() - 1]);
        if all.contains(rule) {
            let i = choose|i: int| 0 <= i < all.len() && all[i] == rule;
            if i < before.len() {
                assert(before[i] == rule);
            }
        }
        if rules.contains(other) && other != rule {
            let i = choose|i: int| 0 <= i < rules.len() && rules[i] == other;
            if i < head.len() {
                assert(head[i] == other);
                let k = choose|k: int| 0 <= k < before.len() && before[k] == other;
                assert(all[k] == other);
            } else {
                assert(all[all.len() - 1] == other);
            }
        }
        if all.contains(other) && other != rule {
            let i = choose|i: int| 0 <= i < all.len() && all[i] == other;
            if i < before.len() {
                assert(before[i] == other);
                let k = choose|k: int| 0 <= k < head.len() && head[k] == other;
                assert(rules[k] == other);
            }
        }
    }
}

/// The model that is taken first is the one that was named, without white space around it; a
/// model to fall back to is added last, and one that is taken out is gone while the others
/// stay.
pub proof fn law_models_are_changed_as_asked(form: FormView, model: String, other: Seq<char>)
    ensures
        agents::changed(form, AgentsEdit::Primary(Some(model))).primary_model == text::trim(model@),
        agents::changed(form, AgentsEdit::Primary(None)).primary_model.len() == 0,
        agents::changed(form, AgentsEdit::AddFallback(model)).fallbacks == form.fallbacks.push(
            model@,
        ),
        !agents::changed(form, AgentsEdit::RemoveFallback(model)).fallbacks.contains(model@),
        other != model@ ==> (agents::changed(
            form,
            AgentsEdit::RemoveFallback(model),
        ).fallbacks.contains(other) <==> form.fallbacks.contains(other)),
        agents::changed(form, AgentsEdit::ClearFallbacks).fallbacks.len() == 0,
        agents::changed(form, AgentsEdit::AddFallback(model)).primary_model == form.primary_model,
        agents::changed(form, AgentsEdit::Primary(Some(model))).fallbacks == form.fallbacks,
{
    lemma_without(form.fallbacks, model@, other);
}

/// A rule that is taken out of a list is gone from it while the others stay; a list that is
/// cleared is empty; a profile that is chosen goes by its name.
pub proof fn law_rules_are_changed_as_asked(
    config: ToolsView,
    rule: String,
    other: Seq<char>,
    profile: OpenClawToolsProfile,
)
    ensures
        !tools::changed(config, ToolsEdit::Remove(ToolsRuleKind::Allow, rule)).allow.contains(rule@),
        !tools::changed(config, ToolsEdit::Remove(ToolsRuleKind::Deny, rule)).deny.contains(rule@),
        other != rule@ ==> (tools::changed(
            config,
            ToolsEdit::Remove(ToolsRuleKind::Allow, rule),
        ).allow.contains(other) <==> config.allow.contains(other)),
        other != rule@ ==> (tools::changed(
            config,
            ToolsEdit::Remove(ToolsRuleKind::Deny, rule),
        ).deny.contains(other) <==> config.deny.contains(other)),
        tools::changed(config, ToolsEdit::Clear(ToolsRuleKind::Allow)).allow.len() == 0,
        tools::changed(config, ToolsEdit::Clear(ToolsRuleKind::Deny)).deny.len() == 0,
        tools::changed(config, ToolsEdit::Add(ToolsRuleKind::Allow, rule)).allow
            == config.allow.push(rule@),
        tools::changed(config, ToolsEdit::Add(ToolsRuleKind::Deny, rule)).deny == config.deny.push(
            rule@,
        ),
        tools::changed(config, ToolsEdit::Profile(None)).profile is None,
        tools::changed(config, ToolsEdit::Profile(Some(profile))).profile == Some(
            match profile {
                OpenClawToolsProfile::Minimal => "minimal"@,
                OpenClawToolsProfile::Coding => "coding"@,
                OpenClawToolsProfile::Messaging => "messaging"@,
                OpenClawToolsProfile::Full => "full"@,
            },
        ),
{
    lemma_without(config.allow, rule@, other);
    lemma_without(config.deny, rule@, other);
}

/// A command on a list of rules acts on that list: what is allowed is not denied by it, nor
/// the other way round, and what is added is not removed.
pub proof fn law_a_rule_command_acts_on_its_list(
    rule: String,
    r: Result<OpenClawAction, CommandError>,
)
    requires
        !text::is_blank(rule@),
    ensures
        config_openclaw::tools_outcome(
            OpenClawToolsCommand::Allow(OpenClawRuleListCommand::Add { rule }),
            r,
        ) ==> (r matches Ok(OpenClawAction::EditTools(ToolsEdit::Add(ToolsRuleKind::Allow, given)))
            && given@ == text::trim(rule@)),
        config_openclaw::tools_outcome(
            OpenClawToolsCommand::Deny(OpenClawRuleListCommand::Add { rule }),
            r,
        ) ==> (r matches Ok(OpenClawAction::EditTools(ToolsEdit::Add(ToolsRuleKind::Deny, given)))
            && given@ == text::trim(rule@)),
        config_openclaw::tools_outcome(
            OpenClawToolsCommand::Allow(OpenClawRuleListCommand::Remove { rule }),
            r,
        ) ==> (r matches Ok(
            OpenClawAction::EditTools(ToolsEdit::Remove(ToolsRuleKind::Allow, given)),
        ) && given@ == text::trim(rule@)),
        config_openclaw::tools_outcome(
            OpenClawToolsCommand::Deny(OpenClawRuleListCommand::Remove { rule }),
            r,
        ) ==> (r matches Ok(
            OpenClawAction::EditTools(ToolsEdit::Remove(ToolsRuleKind::Deny, given)),
        ) && given@ == text::trim(rule@)),
        config_openclaw::tools_outcome(
            OpenClawToolsCommand::Allow(OpenClawRuleListCommand::Clear),
            r,
        ) ==> r == Ok::<OpenClawAction, CommandError>(
            OpenClawAction::EditTools(ToolsEdit::Clear(ToolsRuleKind::Allow)),
        ),
        config_openclaw::tools_outcome(
            OpenClawToolsCommand::Deny(OpenClawRuleListCommand::Clear),
            r,
        ) ==> r == Ok::<OpenClawAction, CommandError>(
            OpenClawAction::EditTools(ToolsEdit::Clear(ToolsRuleKind::Deny)),
        ),
{
}

/// A command on a variable sets or takes out the variable that it names: with what was given
/// as JSON, or as a text where it is none. A variable without a name is refused.
pub proof fn law_an_environment_command_acts_on_its_variable(
    key: String,
    value: String,
    r: Result<OpenClawAction, CommandError>,
)
    ensures
        config_openclaw::env_outcome(OpenClawEnvCommand::Put { key, value }, r) ==> if text::is_blank(
            key@,
        ) {
            r is Err
        } else {
            r matches Ok(OpenClawAction::EditEnv(EnvEdit::Put(name, given))) && name@ == text::trim(
                key@,
            ) && given@ == match json::json_parsed(value@) {
                Some(parsed) => parsed,
                None => JsonView::Text(value@),
            }
        },
        config_openclaw::env_outcome(OpenClawEnvCommand::Unset { key }, r) ==> if text::is_blank(
            key@,
        ) {
            r is Err
        } else {
            r matches Ok(OpenClawAction::EditEnv(EnvEdit::Unset(name))) && name@ == text::trim(key@)
        },
{
}

/// A command on the models or on how agents run makes the change that it says.
pub proof fn law_an_agents_command_makes_its_change(
    model: String,
    field: OpenClawRuntimeField,
    r: Result<OpenClawAction, CommandError>,
)
    requires
        !text::is_blank(model@),
    ensures
        config_openclaw::agents_outcome(
            OpenClawAgentsCommand::Fallback(OpenClawFallbackCommand::Add { model }),
            r,
        ) ==> (r matches Ok(OpenClawAction::EditAgents(AgentsEdit::AddFallback(given))) && given@
            == text::trim(model@)),
        config_openclaw::agents_outcome(
            OpenClawAgentsCommand::Fallback(OpenClawFallbackCommand::Remove { model }),
            r,
        ) ==> (r matches Ok(OpenClawAction::EditAgents(AgentsEdit::RemoveFallback(given)))
            && given@ == text::trim(model@)),
        config_openclaw::agents_outcome(
            OpenClawAgentsCommand::Fallback(OpenClawFallbackCommand::Clear),
            r,
        ) ==> (r matches Ok(OpenClawAction::EditAgents(AgentsEdit::ClearFallbacks))),
        config_openclaw::agents_outcome(
            OpenClawAgentsCommand::Primary { model: Some(model), clear: false },
            r,
        ) ==> (r matches Ok(OpenClawAction::EditAgents(AgentsEdit::Primary(Some(given)))) && given
            == model),
        config_openclaw::agents_outcome(
            OpenClawAgentsCommand::Primary { model: Some(model), clear: true },
            r,
        ) ==> (r matches Ok(OpenClawAction::EditAgents(AgentsEdit::Primary(None)))),
        config_openclaw::agents_outcome(
            OpenClawAgentsCommand::Primary { model: None, clear: false },
            r,
        ) ==> r is Err,
        config_openclaw::agents_outcome(
            OpenClawAgentsCommand::Runtime(
                OpenClawAgentsRuntimeCommand::Assign { field, value: model },
            ),
            r,
        ) ==> (r matches Ok(OpenClawAction::EditAgents(AgentsEdit::SetRuntime(f, given))) && f
            == field && given@ == text::trim(model@)),
        config_openclaw::agents_outcome(
            OpenClawAgentsCommand::Runtime(OpenClawAgentsRuntimeCommand::Unset { field }),
            r,
        ) ==> (r matches Ok(OpenClawAction::EditAgents(AgentsEdit::UnsetRuntime(f))) && f == field),
{
}

/// A part of the configuration that is not as it should be is warned of by its path and by
/// what is wrong; any other part is not warned of.
pub proof fn law_a_malformed_part_is_warned_of(
    warnings: Seq<WarningView>,
    path: Seq<char>,
    message: String,
)
    ensures
        health::with_slice(warnings, path, SliceLoad::Malformed(message)) == warnings.push(
            WarningView { code: "config_parse_failed"@, message: message@, path: Some(path) },
        ),
        health::with_slice(warnings, path, SliceLoad::Loaded) == warnings,
        health::warning_text(
            WarningView { code: "config_parse_failed"@, message: message@, path: Some(path) },
        ) == "config_parse_failed"@ + (" ["@ + path + "]"@) + ": "@ + message@,
{
}

/// Yes is said of what is so, and no of what is not.
pub proof fn law_yes_and_no_are_told_apart(truth: bool)
    ensures
        show::yes_no(truth) == "yes"@ <==> truth,
        show::yes_no(truth) == "no"@ <==> !truth,
{
    reveal_strlit("yes");
    reveal_strlit("no");
    assert("yes"@.len() == 3);
    assert("no"@.len() == 2);
}

/// A value that is there is shown as it is; a mark stands in the place of one that is not, or
/// that is blank.
pub proof fn law_a_missing_value_is_marked(value: Seq<char>, label: Seq<char>, values: Seq<Seq<char>>)
    ensures
        report::or_na(Some(value)) == value,
        report::or_na(None) == "N/A"@,
        text::is_blank(text::trim(value)) ==> show::trimmed_or_na(value) == "N/A"@,
        !text::is_blank(text::trim(value)) ==> show::trimmed_or_na(value) == text::trim(value),
        values.len() == 0 ==> report::string_list(label, values) == seq![
            report::line(LineStyle::Plain, label + ": N/A"@),
        ],
        values.len() > 0 ==> {
            &&& report::string_list(label, values).len() == values.len() + 1
            &&& report::string_list(label, values)[0] == report::line(
                LineStyle::Plain,
                label + ":"@,
            )
            &&& forall|i: int|
                0 <= i < values.len() ==> #[trigger] report::string_list(label, values)[i + 1]
                    == report::line(LineStyle::Plain, "  - "@ + values[i])
        },
{
}

/// A directory that was saved is said to be; a configuration that did not follow is warned of,
/// with what went wrong.
pub proof fn law_a_directory_is_said_to_be_saved(error: String)
    ensures
        show::dir_saved(LiveSync::Done) == seq![
            report::line(LineStyle::Success, "OpenClaw config directory saved."@),
        ],
        show::dir_saved(LiveSync::Skipped).len() == 2,
        show::dir_saved(LiveSync::Skipped)[1].style == LineStyle::Warning,
        show::dir_saved(LiveSync::Failed(error)).len() == 2,
        show::dir_saved(LiveSync::Failed(error))[1] == report::line(
            LineStyle::Warning,
            "OpenClaw live config sync failed after directory change: "@ + error@,
        ),
{
}

/// Each thing that is wrong is warned of in a line of its own; where nothing is, that is said.
pub proof fn law_every_warning_is_a_line(warnings: Seq<WarningView>, i: int)
    requires
        0 <= i < warnings.len(),
    ensures
        show::health_lines(warnings).len() == warnings.len(),
        show::health_lines(warnings)[i] == report::line(
            LineStyle::Warning,
            health::warning_text(warnings[i]),
        ),
        show::health_lines(seq![]) == seq![report::line(LineStyle::Success, "No warnings."@)],
{
}

/// Where a copy was made, it is said where; what else is configured is announced.
pub proof fn law_a_copy_is_told_of(path: Seq<char>)
    ensures
        show::backup_lines(Some(path)) == seq![report::line(LineStyle::Info, "Backup: "@ + path)],
        show::backup_lines(None).len() == 0,
        show::extra_lines(true).len() == 2,
        show::extra_lines(false).len() == 0,
{
}

/// Each row of a table says what the file is called and what is known of it, column by column.
pub proof fn law_rows_say_what_is_known(
    file: WorkspaceFileInfo,
    note: DailyMemoryFileInfo,
    found: DailyMemorySearchResult,
)
    ensures
        listing::workspace_row(file) == seq![file.filename@, show::yes_no(file.exists)],
        listing::memory_row(note)[0] == note.filename@,
        listing::memory_row(note)[1] == note.date@,
        listing::memory_row(note)[2] == text::decimal(note.size_bytes as nat),
        listing::memory_row(note)[3] == note.preview@,
        listing::search_row(found)[0] == found.filename@,
        listing::search_row(found)[1] == text::decimal(found.match_count as nat),
        listing::search_row(found)[2] == found.snippet@,
{
}

/// A limit is told with its number and whether it is in force; what is used is told in bytes.
pub proof fn law_limits_are_told_with_their_numbers(label: Seq<char>, limit: nat, enabled: bool)
    ensures
        hermes::limit_line(label, limit, enabled).text == label + text::decimal(limit)
            + " chars  (enabled: "@ + (if enabled {
            "true"@
        } else {
            "false"@
        }) + ")"@,
        hermes::usage_line(label, limit).text == label + text::decimal(limit) + " bytes"@,
{
}

/// The address on this machine is told where there is another.
pub proof fn law_the_local_address_is_told(url: Seq<char>)
    ensures
        web::local_lines(Language::English, Some(url)) == seq![
            report::line(LineStyle::Info, "Local:"@ + " "@ + url),
        ],
        web::local_lines(Language::English, None).len() == 0,
{
}

/// A change is refused where it names no model, and only there.
pub proof fn law_a_model_needs_a_name(model: String)
    ensures
        agents::names_no_model(AgentsEdit::Primary(Some(model))) <==> text::is_blank(model@),
        !agents::names_no_model(AgentsEdit::Primary(None)),
        !agents::names_no_model(AgentsEdit::ClearFallbacks),
{
}

/// Something else is configured where an object has fields.
pub proof fn law_an_empty_object_configures_nothing(name: Seq<char>, value: JsonView)
    ensures
        !tools::holds_anything(JsonView::empty_object()),
        !tools::holds_anything(JsonView::Null),
        tools::holds_anything(JsonView::empty_object().with(name, value)),
{
    let fields = Map::<Seq<char>, JsonView>::empty().insert(name, value);
    assert(fields.dom().contains(name));
    assert(!Map::<Seq<char>, JsonView>::empty().dom().contains(name));
}

/// What is to stand in place of a part of the configuration comes from what was typed or from a
/// file, goes into that part, and is refused where it comes from neither or from both.
pub proof fn law_a_part_is_replaced_from_one_place(
    args: JsonInputArgs,
    r: Result<OpenClawAction, CommandError>,
)
    requires
        ({
            ||| config_openclaw::env_outcome(OpenClawEnvCommand::Replace(args), r)
            ||| config_openclaw::tools_outcome(OpenClawToolsCommand::Replace(args), r)
            ||| config_openclaw::agents_outcome(OpenClawAgentsCommand::Replace(args), r)
        }),
    ensures
        r is Ok <==> (args.json is Some) != (args.file is Some),
        r matches Ok(action) ==> {
            let source = match action {
                OpenClawAction::ReplaceEnv(source) => Some(source),
                OpenClawAction::ReplaceTools(source) => Some(source),
                OpenClawAction::ReplaceAgents(source) => Some(source),
                _ => None,
            };
            source == match args.json {
                Some(typed) => Some(JsonSource::Inline(typed)),
                None => Some(JsonSource::File(args.file->Some_0)),
            }
        },
        args.json is Some && args.file is Some ==> config_openclaw::refused(
            r,
            "Use either --json or --file, not both."@,
        ),
{
}

/// What is replaced is the part that the command is about.
pub proof fn law_a_command_replaces_its_own_part(
    args: JsonInputArgs,
    action: OpenClawAction,
)
    ensures
        config_openclaw::env_outcome(OpenClawEnvCommand::Replace(args), Ok(action)) ==> action
            is ReplaceEnv,
        config_openclaw::tools_outcome(OpenClawToolsCommand::Replace(args), Ok(action)) ==> action
            is ReplaceTools,
        config_openclaw::agents_outcome(OpenClawAgentsCommand::Replace(args), Ok(action))
            ==> action is ReplaceAgents,
{
}

/// What was written is told with its size and where it went.
pub proof fn law_what_was_written_is_told(kind: MemoryKindArg, bytes: nat)
    ensures
        hermes::written(kind, bytes).text == "✓ Wrote "@ + text::decimal(bytes)
            + " bytes to Hermes "@ + hermes::kind_name(kind) + " memory"@,
        hermes::written(kind, bytes).style == LineStyle::Success,
{
}

} // verus!
