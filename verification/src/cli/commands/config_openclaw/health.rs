//! Whether the OpenClaw configuration is in order.

use vstd::prelude::*;
use vstd::string::*;
use crate::cli::commands::report;
use crate::cli::commands::report::{LineStyle, Report};
#[allow(unused_imports)]
use crate::cli::commands::report::ReportLineView;
use crate::text;

verus! {

/// Something that is not in order.
#[derive(Debug)]
pub struct OpenClawHealthWarning {
    pub code: String,
    pub message: String,
    /// Where in the configuration it is.
    pub path: Option<String>,
}

/// The model of [`OpenClawHealthWarning`].
pub struct WarningView {
    pub code: Seq<char>,
    pub message: Seq<char>,
    pub path: Option<Seq<char>>,
}

impl View for OpenClawHealthWarning {
    type V = WarningView;

    open spec fn view(&self) -> WarningView {
        WarningView {
            code: self.code@,
            message: self.message@,
            path: text::option_view(self.path),
        }
    }
}

/// The models of warnings.
pub open spec fn warning_views(warnings: Seq<OpenClawHealthWarning>) -> Seq<WarningView> {
    Seq::new(warnings.len(), |i: int| warnings[i]@)
}

/// What came of reading a part of the configuration.
#[derive(Debug)]
pub enum SliceLoad {
    Loaded,
    /// It is not as it should be.
    Malformed(String),
    /// It could not be read.
    Failed(String),
}

/// The warnings, with one for a part that is not as it should be.
pub open spec fn with_slice(warnings: Seq<WarningView>, path: Seq<char>, load: SliceLoad) -> Seq<
    WarningView,
> {
    match load {
        SliceLoad::Malformed(message) => warnings.push(
            WarningView { code: "config_parse_failed"@, message: message@, path: Some(path) },
        ),
        _ => warnings,
    }
}

/// Adds a warning for a part that is not as it should be; a part that cannot be read
/// ends it all.
fn collect_openclaw_slice_warning(
    path: &str,
    load: &SliceLoad,
    warnings: &mut Vec<OpenClawHealthWarning>,
) -> (r: Result<(), String>)
    ensures
        match *load {
            SliceLoad::Failed(error) => r is Err && r->Err_0@ == error@,
            _ => r is Ok && warning_views(final(warnings)@) == with_slice(
                warning_views(old(warnings)@),
                path@,
                *load,
            ),
        },
{
    match load {
        SliceLoad::Loaded => Ok(()),
        SliceLoad::Malformed(message) => {
            let ghost before = warnings@;
            warnings.push(
                OpenClawHealthWarning {
                    code: "config_parse_failed".to_owned(),
                    message: message.clone(),
                    path: Some(path.to_owned()),
                },
            );
            assert(warning_views(warnings@) =~= with_slice(warning_views(before), path@, *load));
            Ok(())
        },
        SliceLoad::Failed(error) => Err(error.clone()),
    }
}

/// The first error of three parts.
pub open spec fn first_failure(env: SliceLoad, tools: SliceLoad, agents: SliceLoad) -> Option<
    Seq<char>,
> {
    match env {
        SliceLoad::Failed(error) => Some(error@),
        _ => match tools {
            SliceLoad::Failed(error) => Some(error@),
            _ => match agents {
                SliceLoad::Failed(error) => Some(error@),
                _ => None,
            },
        },
    }
}

/// What is not in order: what was found in the configuration as a whole, and each of
/// its parts that is not as it should be.
pub fn openclaw_health_warnings(
    scanned: Vec<OpenClawHealthWarning>,
    env: &SliceLoad,
    tools: &SliceLoad,
    agents: &SliceLoad,
) -> (r: Result<Vec<OpenClawHealthWarning>, String>)
    ensures
        match r {
            Ok(warnings) => {
                &&& first_failure(*env, *tools, *agents) is None
                &&& warning_views(warnings@) == with_slice(
                    with_slice(
                        with_slice(warning_views(scanned@), "env"@, *env),
                        "tools"@,
                        *tools,
                    ),
                    "agents.defaults"@,
                    *agents,
                )
            },
            Err(error) => first_failure(*env, *tools, *agents) == Some(error@),
        },
{
    let mut warnings = scanned;
    if let Err(error) = collect_openclaw_slice_warning("env", env, &mut warnings) {
        return Err(error);
    }
    if let Err(error) = collect_openclaw_slice_warning("tools", tools, &mut warnings) {
        return Err(error);
    }
    if let Err(error) = collect_openclaw_slice_warning("agents.defaults", agents, &mut warnings) {
        return Err(error);
    }
    Ok(warnings)
}

/// What is said of something that is not in order.
pub open spec fn warning_text(warning: WarningView) -> Seq<char> {
    warning.code + (match warning.path {
        Some(path) => " ["@ + path + "]"@,
        None => Seq::empty(),
    }) + ": "@ + warning.message
}

/// What is said of things that are not in order.
pub open spec fn warning_lines(warnings: Seq<WarningView>) -> Seq<ReportLineView> {
    warnings.map_values(
        |warning: WarningView| report::line(LineStyle::Warning, warning_text(warning)),
    )
}

/// Says what is not in order.
pub fn print_warnings(report: &mut Report, warnings: &Vec<OpenClawHealthWarning>)
    ensures
        final(report)@ == old(report)@ + warning_lines(warning_views(warnings@)),
{
    let ghost start = report@;
    let ghost all = warning_views(warnings@);
    let mut i: usize = 0;
    assert(report@ =~= start + warning_lines(all.take(0)));
    while i < warnings.len()
        invariant
            i <= warnings@.len(),
            all == warning_views(warnings@),
            report@ == start + warning_lines(all.take(i as int)),
        decreases warnings@.len() - i,
    {
        let item = &warnings[i];
        assert(all[i as int] == item@);
        assert(all.take(i + 1) =~= all.take(i as int).push(all[i as int]));
        let place = match &item.path {
            Some(path) => text::concat3(" [", path.as_str(), "]"),
            None => String::new(),
        };
        let head = text::concat2(item.code.as_str(), place.as_str());
        let said = text::concat3(head.as_str(), ": ", item.message.as_str());
        proof {
            if item@.path is None {
                assert(place@ =~= Seq::<char>::empty());
            }
        }
        assert(said@ =~= warning_text(item@));
        report.push(LineStyle::Warning, said);
        assert(warning_lines(all.take(i + 1)) =~= warning_lines(all.take(i as int)).push(
            report::line(LineStyle::Warning, warning_text(item@)),
        ));
        assert(report@ =~= start + warning_lines(all.take(i + 1)));
        i = i + 1;
    }
    assert(all.take(i as int) =~= all);
}

/// Every part that is not as it should be is told of, and nothing that was found in the
/// configuration as a whole is lost.
pub proof fn law_warnings_are_kept(
    scanned: Seq<WarningView>,
    env: SliceLoad,
    tools: SliceLoad,
    agents: SliceLoad,
)
    ensures
        ({
            let all = with_slice(
                with_slice(with_slice(scanned, "env"@, env), "tools"@, tools),
                "agents.defaults"@,
                agents,
            );
            &&& all.len() >= scanned.len()
            &&& all.take(scanned.len() as int) == scanned
            &&& tools matches SliceLoad::Malformed(message) ==> all.contains(
                WarningView {
                    code: "config_parse_failed"@,
                    message: message@,
                    path: Some("tools"@),
                },
            )
        }),
{
    let first = with_slice(scanned, "env"@, env);
    let second = with_slice(first, "tools"@, tools);
    let all = with_slice(second, "agents.defaults"@, agents);
    assert(all.take(scanned.len() as int) =~= scanned);
    if let SliceLoad::Malformed(message) = tools {
        assert(second.last() == all[second.len() - 1]);
    }
}

} // verus!
