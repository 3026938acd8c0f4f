//! What is said of the OpenClaw configuration.

use vstd::prelude::*;
use vstd::string::*;
use crate::cli::commands::config_openclaw::agents::AgentsForm;
use crate::cli::commands::config_openclaw::health;
use crate::cli::commands::config_openclaw::health::OpenClawHealthWarning;
#[allow(unused_imports)]
use crate::cli::commands::config_openclaw::health::WarningView;
use crate::cli::commands::config_openclaw::tools;
use crate::cli::commands::config_openclaw::tools::OpenClawToolsConfig;
use crate::cli::commands::report;
use crate::cli::commands::report::{LineStyle, Report};
#[allow(unused_imports)]
use crate::cli::commands::report::ReportLineView;
use crate::text;

verus! {

/// A plain line.
pub open spec fn plain(text: Seq<char>) -> ReportLineView {
    report::line(LineStyle::Plain, text)
}

/// Yes or no.
pub open spec fn yes_no(truth: bool) -> Seq<char> {
    if truth {
        "yes"@
    } else {
        "no"@
    }
}

/// Yes or no.
pub fn yes_or_no(truth: bool) -> (r: &'static str)
    ensures
        r@ == yes_no(truth),
{
    if truth {
        "yes"
    } else {
        "no"
    }
}

/// Where the configuration is.
pub fn show_path(config_dir: &str, config_path: &str, override_dir: &Option<String>, exists: bool) -> (r:
    Report)
    ensures
        r@ == report::title("OpenClaw Configuration Paths"@) + seq![
            plain("Config dir:   "@ + config_dir@),
            plain("Config file:  "@ + config_path@),
            plain("Override dir: "@ + report::or_na(text::option_view(*override_dir))),
            plain("Exists:       "@ + yes_no(exists)),
        ],
{
    let mut r = Report::new();
    r.title("OpenClaw Configuration Paths");
    r.labelled("Config dir:   ", config_dir);
    r.labelled("Config file:  ", config_path);
    r.labelled("Override dir: ", report::value_or_na(override_dir));
    r.labelled("Exists:       ", yes_or_no(exists));
    assert(r@ =~= report::title("OpenClaw Configuration Paths"@) + seq![
        plain("Config dir:   "@ + config_dir@),
        plain("Config file:  "@ + config_path@),
        plain("Override dir: "@ + report::or_na(text::option_view(*override_dir))),
        plain("Exists:       "@ + yes_no(exists)),
    ]);
    r
}

/// What is said of the warnings on a configuration.
pub open spec fn health_lines(warnings: Seq<WarningView>) -> Seq<ReportLineView> {
    if warnings.len() == 0 {
        seq![report::line(LineStyle::Success, "No warnings."@)]
    } else {
        health::warning_lines(warnings)
    }
}

/// Whether the configuration is in order.
pub fn show_health(config_dir: &str, config_path: &str, warnings: &Vec<OpenClawHealthWarning>) -> (r:
    Report)
    ensures
        r@ == report::title("OpenClaw Config Health"@) + seq![
            plain("Config dir:  "@ + config_dir@),
            plain("Config file: "@ + config_path@),
        ] + health_lines(health::warning_views(warnings@)),
{
    let mut r = Report::new();
    r.title("OpenClaw Config Health");
    r.labelled("Config dir:  ", config_dir);
    r.labelled("Config file: ", config_path);
    let ghost head = report::title("OpenClaw Config Health"@) + seq![
        plain("Config dir:  "@ + config_dir@),
        plain("Config file: "@ + config_path@),
    ];
    assert(r@ =~= head);
    if warnings.len() == 0 {
        r.push(LineStyle::Success, "No warnings.".to_owned());
    } else {
        health::print_warnings(&mut r, warnings);
    }
    assert(r@ =~= head + health_lines(health::warning_views(warnings@)));
    r
}

/// Which directory the configuration is in.
pub fn show_dir(config_dir: &str, override_dir: &Option<String>) -> (r: Report)
    ensures
        r@ == report::title("OpenClaw Config Directory"@) + seq![
            plain("Effective: "@ + config_dir@),
            plain("Override:  "@ + report::or_na(text::option_view(*override_dir))),
        ],
{
    let mut r = Report::new();
    r.title("OpenClaw Config Directory");
    r.labelled("Effective: ", config_dir);
    r.labelled("Override:  ", report::value_or_na(override_dir));
    assert(r@ =~= report::title("OpenClaw Config Directory"@) + seq![
        plain("Effective: "@ + config_dir@),
        plain("Override:  "@ + report::or_na(text::option_view(*override_dir))),
    ]);
    r
}

/// What came of carrying the configuration over to another directory.
#[derive(Debug)]
pub enum LiveSync {
    /// It is not carried over.
    Skipped,
    Done,
    Failed(String),
}

/// What is said once another directory has been chosen.
pub open spec fn dir_saved(sync: LiveSync) -> Seq<ReportLineView> {
    let saved = report::line(LineStyle::Success, "OpenClaw config directory saved."@);
    match sync {
        LiveSync::Done => seq![saved],
        LiveSync::Skipped => seq![
            saved,
            report::line(LineStyle::Warning, "OpenClaw live config sync skipped."@),
        ],
        LiveSync::Failed(error) => seq![
            saved,
            report::line(
                LineStyle::Warning,
                "OpenClaw live config sync failed after directory change: "@ + error@,
            ),
        ],
    }
}

/// What is said once another directory has been chosen.
pub fn set_dir_report(sync: &LiveSync) -> (r: Report)
    ensures
        r@ == dir_saved(*sync),
{
    let mut r = Report::new();
    r.push(LineStyle::Success, "OpenClaw config directory saved.".to_owned());
    match sync {
        LiveSync::Done => {},
        LiveSync::Skipped => {
            r.push(LineStyle::Warning, "OpenClaw live config sync skipped.".to_owned());
        },
        LiveSync::Failed(error) => {
            r.push(
                LineStyle::Warning,
                text::concat2(
                    "OpenClaw live config sync failed after directory change: ",
                    error.as_str(),
                ),
            );
        },
    }
    assert(r@ =~= dir_saved(*sync));
    r
}

/// What stands above what else is configured.
pub open spec fn extra_lines(has_extra: bool) -> Seq<ReportLineView> {
    if has_extra {
        seq![plain(""@), plain("Extra:"@)]
    } else {
        seq![]
    }
}

/// Which tools OpenClaw may use. What else is configured is to follow.
pub fn show_tools(tools: &OpenClawToolsConfig) -> (r: Report)
    ensures
        r@ == report::title("OpenClaw Tools"@) + seq![
            plain("Profile: "@ + report::or_na(tools@.profile)),
        ] + report::string_list("Allow"@, tools@.allow) + report::string_list(
            "Deny"@,
            tools@.deny,
        ) + extra_lines(tools::holds_anything(tools.extra@)),
{
    let mut r = Report::new();
    r.title("OpenClaw Tools");
    r.labelled("Profile: ", report::value_or_na(&tools.profile));
    assert(r@ =~= report::title("OpenClaw Tools"@) + seq![
        plain("Profile: "@ + report::or_na(tools@.profile)),
    ]);
    r.list("Allow", &tools.allow);
    r.list("Deny", &tools.deny);
    let ghost body = r@;
    if tools.has_extra() {
        r.plain("");
        r.plain("Extra:");
    }
    assert(r@ =~= body + extra_lines(tools::holds_anything(tools.extra@)));
    r
}

/// A value without white space around it, or a mark in its place where it is blank.
pub open spec fn trimmed_or_na(value: Seq<char>) -> Seq<char> {
    if text::is_blank(text::trim(value)) {
        "N/A"@
    } else {
        text::trim(value)
    }
}

/// What OpenClaw takes for its agents where nothing else is said.
pub fn show_agents(form: &AgentsForm, has_extra: bool) -> (r: Report)
    ensures
        r@ == report::title("OpenClaw Agents Defaults"@) + seq![
            plain("Primary model:  "@ + trimmed_or_na(form@.primary_model)),
        ] + report::string_list("Fallbacks"@, form@.fallbacks) + seq![
            plain("Workspace:      "@ + trimmed_or_na(form@.workspace)),
            plain("Timeout:        "@ + trimmed_or_na(form@.timeout)),
            plain("Context tokens: "@ + trimmed_or_na(form@.context_tokens)),
            plain("Max concurrent: "@ + trimmed_or_na(form@.max_concurrent)),
        ] + extra_lines(has_extra),
{
    let mut r = Report::new();
    r.title("OpenClaw Agents Defaults");
    r.labelled(
        "Primary model:  ",
        report::blank_as_na(text::trimmed(form.primary_model.as_str())),
    );
    assert(r@ =~= report::title("OpenClaw Agents Defaults"@) + seq![
        plain("Primary model:  "@ + trimmed_or_na(form@.primary_model)),
    ]);
    r.list("Fallbacks", &form.fallbacks);
    let ghost head = r@;
    r.labelled("Workspace:      ", report::blank_as_na(text::trimmed(form.workspace.as_str())));
    r.labelled("Timeout:        ", report::blank_as_na(text::trimmed(form.timeout.as_str())));
    r.labelled(
        "Context tokens: ",
        report::blank_as_na(text::trimmed(form.context_tokens.as_str())),
    );
    r.labelled(
        "Max concurrent: ",
        report::blank_as_na(text::trimmed(form.max_concurrent.as_str())),
    );
    assert(r@ =~= head + seq![
        plain("Workspace:      "@ + trimmed_or_na(form@.workspace)),
        plain("Timeout:        "@ + trimmed_or_na(form@.timeout)),
        plain("Context tokens: "@ + trimmed_or_na(form@.context_tokens)),
        plain("Max concurrent: "@ + trimmed_or_na(form@.max_concurrent)),
    ]);
    let ghost body = r@;
    if has_extra {
        r.plain("");
        r.plain("Extra:");
    }
    assert(r@ =~= body + extra_lines(has_extra));
    r
}

/// Where a copy of what was there before is.
pub open spec fn backup_lines(backup_path: Option<Seq<char>>) -> Seq<ReportLineView> {
    match backup_path {
        Some(path) => seq![report::line(LineStyle::Info, "Backup: "@ + path)],
        None => seq![],
    }
}

/// What is said once a part of the configuration has been written.
pub fn print_write_outcome(
    message: &str,
    backup_path: &Option<String>,
    warnings: &Vec<OpenClawHealthWarning>,
) -> (r: Report)
    ensures
        r@ == seq![report::line(LineStyle::Success, message@)] + backup_lines(
            text::option_view(*backup_path),
        ) + health::warning_lines(health::warning_views(warnings@)),
{
    let mut r = Report::new();
    r.push(LineStyle::Success, message.to_owned());
    if let Some(path) = backup_path {
        r.push(LineStyle::Info, text::concat2("Backup: ", path.as_str()));
    }
    assert(r@ =~= seq![report::line(LineStyle::Success, message@)] + backup_lines(
        text::option_view(*backup_path),
    ));
    health::print_warnings(&mut r, warnings);
    r
}

/// What is done about a memory file that is to be deleted.
#[derive(Debug)]
pub enum DeleteStep {
    /// Ask this.
    Ask(String),
    /// Leave it, and say so.
    Cancelled,
    Delete,
}

/// What is done about a memory file that is to be deleted: unless it was confirmed
/// beforehand, the user is asked, and it is left where they do not agree.
pub fn delete_memory(filename: &str, yes: bool, answer: Option<bool>) -> (r: DeleteStep)
    ensures
        match (yes, answer) {
            (true, _) => r == DeleteStep::Delete,
            (false, None) => r is Ask && r->Ask_0@ == "Delete daily memory file '"@ + filename@
                + "'?"@,
            (false, Some(true)) => r == DeleteStep::Delete,
            (false, Some(false)) => r == DeleteStep::Cancelled,
        },
{
    if yes {
        return DeleteStep::Delete;
    }
    match answer {
        None => DeleteStep::Ask(text::concat3("Delete daily memory file '", filename, "'?")),
        Some(true) => DeleteStep::Delete,
        Some(false) => DeleteStep::Cancelled,
    }
}

} // verus!
