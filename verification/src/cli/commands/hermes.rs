//! What Hermes remembers, as it is shown and changed on the command line.

use vstd::prelude::*;
use vstd::string::*;
use vstd::utf8::*;
use crate::cli::commands::report;
use crate::cli::commands::report::{CommandError, Language, LineStyle, Report};
#[allow(unused_imports)]
use crate::cli::commands::report::{CommandErrorView, ReportLineView};
use crate::text;

verus! {

/// A command on Hermes.
#[derive(Debug)]
pub enum HermesCommand {
    Memory(MemoryCommand),
}

/// A command on what Hermes remembers.
#[derive(Debug)]
pub enum MemoryCommand {
    Show { kind: MemoryKindArg },
    /// Writes this, or what is read from the standard input.
    Write { kind: MemoryKindArg, content: Option<String> },
    Clear { kind: MemoryKindArg, yes: bool },
    Enable { kind: MemoryKindArg },
    Disable { kind: MemoryKindArg },
    Limits,
}

/// What is remembered: things in general, or things about the user.
#[derive(Debug, Clone, Copy, PartialEq, Eq, Structural)]
pub enum MemoryKindArg {
    Memory,
    User,
}

/// The name of what is remembered.
pub open spec fn kind_name(kind: MemoryKindArg) -> Seq<char> {
    match kind {
        MemoryKindArg::Memory => "memory"@,
        MemoryKindArg::User => "user"@,
    }
}

impl MemoryKindArg {
    /// The name of what is remembered.
    pub fn as_str(self) -> (r: &'static str)
        ensures
            r@ == kind_name(self),
    {
        match self {
            MemoryKindArg::Memory => "memory",
            MemoryKindArg::User => "user",
        }
    }
}

/// What a command comes to.
#[derive(Debug)]
pub enum MemoryAction {
    Show(MemoryKindArg),
    /// Write this.
    Write(MemoryKindArg, String),
    /// Write what is read from the standard input.
    WriteInput(MemoryKindArg),
    /// Write nothing in its place.
    Erase(MemoryKindArg),
    /// Do nothing, and say so.
    RefuseToErase(MemoryKindArg),
    Enable(MemoryKindArg, bool),
    Limits,
}

/// What a command comes to, where Hermes is there.
pub open spec fn memory_action(cmd: MemoryCommand) -> MemoryAction {
    match cmd {
        MemoryCommand::Show { kind } => MemoryAction::Show(kind),
        MemoryCommand::Write { kind, content: Some(content) } => MemoryAction::Write(kind, content),
        MemoryCommand::Write { kind, content: None } => MemoryAction::WriteInput(kind),
        MemoryCommand::Clear { kind, yes } => if yes {
            MemoryAction::Erase(kind)
        } else {
            MemoryAction::RefuseToErase(kind)
        },
        MemoryCommand::Enable { kind } => MemoryAction::Enable(kind, true),
        MemoryCommand::Disable { kind } => MemoryAction::Enable(kind, false),
        MemoryCommand::Limits => MemoryAction::Limits,
    }
}

/// What a command comes to: nothing where the directory of Hermes is missing.
pub fn execute(cmd: HermesCommand, dir: &str, dir_exists: bool, language: Language) -> (r: Result<
    MemoryAction,
    CommandError,
>)
    ensures
        match cmd {
            HermesCommand::Memory(memory) => if dir_exists {
                r == Ok::<MemoryAction, CommandError>(memory_action(memory))
            } else {
                r is Err && r->Err_0@ == CommandErrorView::Message(
                    report::said(
                        language,
                        "Hermes config dir not found: "@,
                        "Hermes 配置目录不存在："@,
                    ) + dir@,
                )
            },
        },
{
    if !dir_exists {
        let head = report::say(
            language,
            "Hermes config dir not found: ",
            "Hermes 配置目录不存在：",
        );
        return Err(CommandError::Message(text::concat2(head, dir)));
    }
    let HermesCommand::Memory(memory) = cmd;
    Ok(
        match memory {
            MemoryCommand::Show { kind } => MemoryAction::Show(kind),
            MemoryCommand::Write { kind, content } => match content {
                Some(content) => MemoryAction::Write(kind, content),
                None => MemoryAction::WriteInput(kind),
            },
            MemoryCommand::Clear { kind, yes } => if yes {
                MemoryAction::Erase(kind)
            } else {
                MemoryAction::RefuseToErase(kind)
            },
            MemoryCommand::Enable { kind } => MemoryAction::Enable(kind, true),
            MemoryCommand::Disable { kind } => MemoryAction::Enable(kind, false),
            MemoryCommand::Limits => MemoryAction::Limits,
        },
    )
}

/// What is printed of what is remembered.
#[derive(Debug)]
pub enum MemoryText {
    /// A line in its place.
    Hint(String),
    /// The text, as it is.
    Content(String),
}

/// What is printed of what is remembered: it ends with a line break, and where there is
/// nothing, that is said.
pub fn show_memory(kind: MemoryKindArg, content: &str) -> (r: MemoryText)
    ensures
        if content@.len() == 0 {
            r matches MemoryText::Hint(hint) && hint@ == "Hermes "@ + kind_name(kind)
                + " memory is empty (file not created yet)"@
        } else {
            r matches MemoryText::Content(printed) && printed@ == (if content@.last() == '\n' {
                content@
            } else {
                content@.push('\n')
            })
        },
{
    let size: usize = content.unicode_len();
    if size == 0 {
        return MemoryText::Hint(
            text::concat3("Hermes ", kind.as_str(), " memory is empty (file not created yet)"),
        );
    }
    let mut printed = content.to_owned();
    if content.get_char(size - 1) != '\n' {
        printed.push('\n');
    }
    MemoryText::Content(printed)
}

/// How many bytes a text has.
pub fn byte_len(content: &str) -> (r: usize)
    ensures
        r == encode_utf8(content@).len(),
{
    content.as_bytes().len()
}

/// What is said once something has been written.
pub open spec fn written(kind: MemoryKindArg, bytes: nat) -> ReportLineView {
    report::line(
        LineStyle::Success,
        "✓ Wrote "@ + text::decimal(bytes) + " bytes to Hermes "@ + kind_name(kind) + " memory"@,
    )
}

/// What is said once something has been written.
pub fn write_report(kind: MemoryKindArg, content: &str) -> (r: Report)
    ensures
        r@ == seq![written(kind, encode_utf8(content@).len())],
{
    let number = text::number_text(byte_len(content) as u64);
    let head = text::concat3("✓ Wrote ", number.as_str(), " bytes to Hermes ");
    let mut r = Report::new();
    r.push(LineStyle::Success, text::concat3(head.as_str(), kind.as_str(), " memory"));
    assert(r@ =~= seq![written(kind, encode_utf8(content@).len())]);
    r
}

/// What is said once something has been cleared, or was not for want of a confirmation.
pub fn clear_report(kind: MemoryKindArg, yes: bool) -> (r: Report)
    ensures
        r@ == (if yes {
            seq![
                report::line(
                    LineStyle::Success,
                    "✓ Cleared Hermes "@ + kind_name(kind) + " memory"@,
                ),
            ]
        } else {
            seq![
                report::line(
                    LineStyle::Warning,
                    "Refusing to clear Hermes "@ + kind_name(kind) + " memory without --yes"@,
                ),
            ]
        }),
{
    let mut r = Report::new();
    if yes {
        r.push(
            LineStyle::Success,
            text::concat3("✓ Cleared Hermes ", kind.as_str(), " memory"),
        );
        assert(r@ =~= seq![
            report::line(LineStyle::Success, "✓ Cleared Hermes "@ + kind_name(kind) + " memory"@),
        ]);
    } else {
        r.push(
            LineStyle::Warning,
            text::concat3("Refusing to clear Hermes ", kind.as_str(), " memory without --yes"),
        );
        assert(r@ =~= seq![
            report::line(
                LineStyle::Warning,
                "Refusing to clear Hermes "@ + kind_name(kind) + " memory without --yes"@,
            ),
        ]);
    }
    r
}

/// What is said once something has been enabled or disabled.
pub open spec fn toggled(kind: MemoryKindArg, enabled: bool) -> ReportLineView {
    report::line(
        LineStyle::Success,
        (if enabled {
            "✓ Enabled Hermes "@
        } else {
            "✓ Disabled Hermes "@
        }) + kind_name(kind) + " memory"@,
    )
}

/// What is said once something has been enabled or disabled.
pub fn toggle_report(kind: MemoryKindArg, enabled: bool) -> (r: Report)
    ensures
        r@ == seq![toggled(kind, enabled)],
{
    let mut r = Report::new();
    let head = if enabled {
        "✓ Enabled Hermes "
    } else {
        "✓ Disabled Hermes "
    };
    r.push(LineStyle::Success, text::concat3(head, kind.as_str(), " memory"));
    assert(r@ =~= seq![toggled(kind, enabled)]);
    r
}

/// How much Hermes remembers, and whether it does.
#[derive(Debug, Clone, Copy)]
pub struct MemoryLimits {
    pub memory: u64,
    pub user: u64,
    pub memory_enabled: bool,
    pub user_enabled: bool,
}

/// True or false.
pub open spec fn truth(value: bool) -> Seq<char> {
    if value {
        "true"@
    } else {
        "false"@
    }
}

/// A line on a limit.
pub open spec fn limit_line(label: Seq<char>, limit: nat, enabled: bool) -> ReportLineView {
    report::line(
        LineStyle::Plain,
        label + text::decimal(limit) + " chars  (enabled: "@ + truth(enabled) + ")"@,
    )
}

/// A line on how much is remembered.
pub open spec fn usage_line(label: Seq<char>, bytes: nat) -> ReportLineView {
    report::line(LineStyle::Plain, label + text::decimal(bytes) + " bytes"@)
}

/// Adds a line on a limit.
fn push_limit(r: &mut Report, label: &str, limit: u64, enabled: bool)
    ensures
        final(r)@ == old(r)@.push(limit_line(label@, limit as nat, enabled)),
{
    let number = text::number_text(limit);
    let head = text::concat3(label, number.as_str(), " chars  (enabled: ");
    let state = if enabled {
        "true"
    } else {
        "false"
    };
    r.push(LineStyle::Plain, text::concat3(head.as_str(), state, ")"));
}

/// Adds a line on how much is remembered.
fn push_usage(r: &mut Report, label: &str, bytes: usize)
    ensures
        final(r)@ == old(r)@.push(usage_line(label@, bytes as nat)),
{
    let number = text::number_text(bytes as u64);
    r.push(LineStyle::Plain, text::concat3(label, number.as_str(), " bytes"));
}

/// How much Hermes may remember and how much it does.
pub fn print_limits(limits: MemoryLimits, memory_bytes: usize, user_bytes: usize) -> (r: Report)
    ensures
        r@ == seq![
            report::line(LineStyle::Plain, "Hermes memory limits:"@),
            limit_line("  memory:  "@, limits.memory as nat, limits.memory_enabled),
            limit_line("  user:    "@, limits.user as nat, limits.user_enabled),
            report::line(LineStyle::Plain, ""@),
            report::line(
                LineStyle::Plain,
                "Current usage (file size in bytes; Hermes truncates at character budget on load):"@,
            ),
            usage_line("  memory:  "@, memory_bytes as nat),
            usage_line("  user:    "@, user_bytes as nat),
        ],
{
    let mut r = Report::new();
    r.plain("Hermes memory limits:");
    push_limit(&mut r, "  memory:  ", limits.memory, limits.memory_enabled);
    push_limit(&mut r, "  user:    ", limits.user, limits.user_enabled);
    r.plain("");
    r.plain("Current usage (file size in bytes; Hermes truncates at character budget on load):");
    push_usage(&mut r, "  memory:  ", memory_bytes);
    push_usage(&mut r, "  user:    ", user_bytes);
    assert(r@ =~= seq![
        report::line(LineStyle::Plain, "Hermes memory limits:"@),
        limit_line("  memory:  "@, limits.memory as nat, limits.memory_enabled),
        limit_line("  user:    "@, limits.user as nat, limits.user_enabled),
        report::line(LineStyle::Plain, ""@),
        report::line(
            LineStyle::Plain,
            "Current usage (file size in bytes; Hermes truncates at character budget on load):"@,
        ),
        usage_line("  memory:  "@, memory_bytes as nat),
        usage_line("  user:    "@, user_bytes as nat),
    ]);
    r
}

/// Nothing that is remembered is erased without a confirmation.
pub proof fn law_nothing_is_erased_unasked(cmd: MemoryCommand)
    requires
        memory_action(cmd) is Erase,
    ensures
        cmd matches MemoryCommand::Clear { kind, yes } && yes,
{
}

} // verus!
