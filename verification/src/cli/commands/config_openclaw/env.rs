//! The environment that OpenClaw gives its agents, and JSON that is typed.

use vstd::prelude::*;
use vstd::string::*;
use crate::cli::commands::report::CommandError;
#[allow(unused_imports)]
use crate::cli::commands::report::CommandErrorView;
use crate::json;
use crate::json::Json;
#[allow(unused_imports)]
use crate::json::JsonView;
use crate::text;

verus! {

/// A change of the environment.
#[derive(Debug)]
pub enum EnvEdit {
    /// Sets a variable.
    Put(String, Json),
    /// Takes a variable out.
    Unset(String),
}

/// The variables once they have been changed.
pub open spec fn changed(vars: JsonView, edit: EnvEdit) -> JsonView {
    match edit {
        EnvEdit::Put(key, value) => vars.with(key@, value@),
        EnvEdit::Unset(key) => vars.without(key@),
    }
}

impl EnvEdit {
    /// The variables, an object, once they have been changed.
    pub fn apply(&self, vars: Json) -> (r: Json)
        ensures
            r@ == changed(vars@, *self),
    {
        match self {
            EnvEdit::Put(key, value) => vars.with(key.as_str(), value.duplicate()),
            EnvEdit::Unset(key) => vars.without(key.as_str()),
        }
    }
}

/// What was typed, as JSON, or as a text where it is none.
pub open spec fn json_or_text(raw: Seq<char>) -> JsonView {
    match json::json_parsed(raw) {
        Some(value) => value,
        None => JsonView::Text(raw),
    }
}

/// What was typed, as JSON, or as a text where it is none.
pub fn parse_json_value_or_string(raw: &str) -> (r: Json)
    ensures
        r@ == json_or_text(raw@),
{
    value_or_string(json::parse_json(raw), raw)
}

/// A value that was read from what was typed, or what was typed as a text where none
/// could be read.
pub fn value_or_string(parsed: Option<Json>, raw: &str) -> (r: Json)
    ensures
        r@ == (match parsed {
            Some(value) => value@,
            None => JsonView::Text(raw@),
        }),
{
    match parsed {
        Some(value) => value,
        None => Json::from_text(raw),
    }
}

/// Where JSON comes from.
#[derive(Debug)]
pub struct JsonInputArgs {
    /// The JSON itself.
    pub json: Option<String>,
    /// A file that holds it.
    pub file: Option<String>,
}

/// Where JSON comes from.
#[derive(Debug)]
pub enum JsonSource {
    Inline(String),
    File(String),
}

/// Where JSON comes from: from one place, and not from two. What is said where it comes
/// from none is given.
pub fn json_source(args: JsonInputArgs, missing: &str) -> (r: Result<JsonSource, CommandError>)
    ensures
        match (args.json, args.file) {
            (Some(json), None) => r == Ok::<JsonSource, CommandError>(JsonSource::Inline(json)),
            (None, Some(file)) => r == Ok::<JsonSource, CommandError>(JsonSource::File(file)),
            (None, None) => r is Err && r->Err_0@ == CommandErrorView::InvalidInput(missing@),
            (Some(_), Some(_)) => r is Err && r->Err_0@ == CommandErrorView::InvalidInput(
                "Use either --json or --file, not both."@,
            ),
        },
{
    match (args.json, args.file) {
        (Some(json), None) => Ok(JsonSource::Inline(json)),
        (None, Some(file)) => Ok(JsonSource::File(file)),
        (None, None) => Err(CommandError::InvalidInput(missing.to_owned())),
        (Some(_), Some(_)) => Err(
            CommandError::InvalidInput("Use either --json or --file, not both.".to_owned()),
        ),
    }
}

/// The JSON that was given; `parsed` is what came of reading it.
pub fn json_argument(parsed: Result<Json, String>) -> (r: Result<Json, CommandError>)
    ensures
        match parsed {
            Ok(value) => r == Ok::<Json, CommandError>(value),
            Err(error) => r is Err && r->Err_0@ == CommandErrorView::InvalidInput(
                "Invalid JSON: "@ + error@,
            ),
        },
{
    match parsed {
        Ok(value) => Ok(value),
        Err(error) => Err(
            CommandError::InvalidInput(text::concat2("Invalid JSON: ", error.as_str())),
        ),
    }
}

/// The JSON in a text that was given.
pub fn read_json_arg(raw: &str) -> (r: Result<Json, CommandError>)
    ensures
        match json::json_parsed(raw@) {
            Some(value) => r is Ok && r->Ok_0@ == value,
            None => r is Err && r->Err_0@ == CommandErrorView::InvalidInput(
                "Invalid JSON: "@ + json::json_error(raw@),
            ),
        },
{
    json_argument(json::parse_json_or_error(raw))
}

/// A variable that was set has the value that it was given, and one that was taken out
/// is not there; no other variable is touched.
pub proof fn law_only_the_variable_changes(vars: JsonView, edit: EnvEdit, other: Seq<char>)
    requires
        vars is Object,
    ensures
        match edit {
            EnvEdit::Put(key, value) => {
                &&& changed(vars, edit).field(key@) == Some(value@)
                &&& other != key@ ==> changed(vars, edit).field(other) == vars.field(other)
            },
            EnvEdit::Unset(key) => {
                &&& changed(vars, edit).field(key@) is None
                &&& other != key@ ==> changed(vars, edit).field(other) == vars.field(other)
            },
        },
{
}

} // verus!
