//! Lines of text that the terminal interface shows: how to start the proxy, and what
//! the test of a provider came to.

use vstd::prelude::*;
use vstd::string::*;
use crate::text;

verus! {

/// How the proxy is started, and what to tell a program that is to use it.
pub open spec fn proxy_help(address: Seq<char>, port: u16) -> Seq<Seq<char>> {
    seq![
        "cc-switch proxy serve --listen-address "@ + address + " --listen-port "@ + text::decimal(
            port as nat,
        ),
        "ANTHROPIC_BASE_URL=http://"@ + address + ":"@ + text::decimal(port as nat),
    ]
}

/// How the proxy is started, and what to tell a program that is to use it.
pub fn proxy_help_lines(address: &str, port: u16) -> (r: Vec<String>)
    ensures
        text::views(r@) == proxy_help(address@, port),
{
    let number = text::number_text(port as u64);
    let command = text::concat2(
        text::concat3("cc-switch proxy serve --listen-address ", address, " --listen-port ").as_str(),
        number.as_str(),
    );
    let variable = text::concat2(
        text::concat3("ANTHROPIC_BASE_URL=http://", address, ":").as_str(),
        number.as_str(),
    );
    let mut r: Vec<String> = Vec::new();
    r.push(command);
    r.push(variable);
    assert(text::views(r@) =~= proxy_help(address@, port));
    r
}

/// What the test of a provider came to.
#[derive(Debug)]
pub struct StreamCheckResult {
    pub message: String,
    pub response_time_ms: Option<u64>,
    pub http_status: Option<u16>,
    pub model_used: String,
}

/// What is said in a line on the test of a provider.
#[derive(Debug, Clone, Copy, PartialEq, Eq, Structural)]
pub enum CheckLabel {
    Provider,
    Model,
    HttpStatus,
    ResponseTime,
    Message,
}

/// A line on the test of a provider.
#[derive(Debug)]
pub struct CheckLine {
    pub label: CheckLabel,
    pub value: String,
}

/// The model of [`CheckLine`].
pub struct CheckLineView {
    pub label: CheckLabel,
    pub value: Seq<char>,
}

impl View for CheckLine {
    type V = CheckLineView;

    open spec fn view(&self) -> CheckLineView {
        CheckLineView { label: self.label, value: self.value@ }
    }
}

/// The models of lines.
pub open spec fn check_line_views(lines: Seq<CheckLine>) -> Seq<CheckLineView> {
    Seq::new(lines.len(), |i: int| lines[i]@)
}

/// The line on a number that may be unknown.
pub open spec fn number_line(label: CheckLabel, n: Option<nat>) -> Seq<CheckLineView> {
    match n {
        Some(n) => seq![CheckLineView { label, value: text::decimal(n) }],
        None => seq![],
    }
}

/// The lines on the test of a provider.
pub open spec fn check_lines(provider: Seq<char>, result: StreamCheckResult) -> Seq<CheckLineView> {
    seq![
        CheckLineView { label: CheckLabel::Provider, value: provider },
        CheckLineView { label: CheckLabel::Model, value: result.model_used@ },
    ] + number_line(
        CheckLabel::HttpStatus,
        match result.http_status {
            Some(n) => Some(n as nat),
            None => None,
        },
    ) + number_line(
        CheckLabel::ResponseTime,
        match result.response_time_ms {
            Some(n) => Some(n as nat),
            None => None,
        },
    ) + seq![CheckLineView { label: CheckLabel::Message, value: result.message@ }]
}

/// Adds a line.
fn push_check_line(lines: &mut Vec<CheckLine>, label: CheckLabel, value: String)
    ensures
        check_line_views(final(lines)@) == check_line_views(old(lines)@).push(
            CheckLineView { label, value: value@ },
        ),
{
    let ghost before = lines@;
    lines.push(CheckLine { label, value });
    assert(check_line_views(lines@) =~= check_line_views(before).push(
        CheckLineView { label, value: value@ },
    ));
}

/// The lines on the test of a provider: whose test it was, the model, the status of
/// the answer and how long it took, where they are known, and what was said.
pub fn build_stream_check_result_lines(provider: &str, result: &StreamCheckResult) -> (r: Vec<
    CheckLine,
>)
    ensures
        check_line_views(r@) == check_lines(provider@, *result),
{
    let mut r: Vec<CheckLine> = Vec::new();
    assert(check_line_views(r@) =~= seq![]);
    push_check_line(&mut r, CheckLabel::Provider, provider.to_owned());
    push_check_line(&mut r, CheckLabel::Model, result.model_used.clone());
    if let Some(status) = result.http_status {
        push_check_line(&mut r, CheckLabel::HttpStatus, text::number_text(status as u64));
    }
    if let Some(millis) = result.response_time_ms {
        push_check_line(&mut r, CheckLabel::ResponseTime, text::number_text(millis));
    }
    push_check_line(&mut r, CheckLabel::Message, result.message.clone());
    assert(check_line_views(r@) =~= check_lines(provider@, *result));
    r
}

} // verus!
