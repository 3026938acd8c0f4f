//! The arguments and the results of the commands that the dashboard sends.
//!
//! A command comes with a JSON object of arguments. Which of them a command needs,
//! and what becomes of its result, is told by its [`CommandPlan`]. Arguments of types
//! of the application are decoded by the application; what it says of them is
//! handed in, argument by argument.

use vstd::prelude::*;
use vstd::string::*;
use crate::app_type::AppType;
use crate::json;
use crate::json::{Json, JsonView};
use crate::text;

verus! {

/// Why a command is refused.
#[derive(Debug)]
pub enum WebError {
    /// The request is not as it should be.
    BadRequest(String),
    /// The application refuses it.
    Domain(String),
    /// There is no such command.
    NotImplemented(String),
}

/// The model of [`WebError`].
pub enum ErrorView {
    BadRequest(Seq<char>),
    Domain(Seq<char>),
    NotImplemented(Seq<char>),
}

impl View for WebError {
    type V = ErrorView;

    open spec fn view(&self) -> ErrorView {
        match *self {
            WebError::BadRequest(message) => ErrorView::BadRequest(message@),
            WebError::Domain(message) => ErrorView::Domain(message@),
            WebError::NotImplemented(command) => ErrorView::NotImplemented(command@),
        }
    }
}

/// What an argument must be.
#[derive(Debug, Clone, Copy, PartialEq, Eq, Structural)]
pub enum ArgKind {
    /// The name of an application.
    App,
    /// A text.
    Text,
    /// A truth value.
    Truth,
    /// Anything, but there.
    Present,
    /// A value of a type of the application.
    Typed,
    /// A value of a type of the application, or `null`, or not there.
    OptionalTyped,
    /// A text that is JSON, or no text.
    OptionalJson,
    /// A text, or no text.
    OptionalText,
    /// A truth value, which is `false` where it is left out.
    Flag,
    /// A signed integer, or none.
    OptionalSigned,
    /// An unsigned integer, which is this where it is left out.
    Count(u64),
    /// The low 32 bits of an unsigned integer, which is this where it is left out.
    Page(u64),
    /// Not an argument of the command: this application.
    FixedApp(AppType),
    /// Not an argument of the command: this truth value.
    FixedTruth(bool),
}

/// An argument of a command.
#[derive(Debug, Clone, Copy)]
pub struct ArgSpec {
    pub kind: ArgKind,
    pub key: &'static str,
}

/// The model of [`ArgSpec`].
pub struct ArgView {
    pub kind: ArgKind,
    pub key: Seq<char>,
}

impl View for ArgSpec {
    type V = ArgView;

    open spec fn view(&self) -> ArgView {
        ArgView { kind: self.kind, key: self.key@ }
    }
}

/// What an operation of the application is given.
#[derive(Debug)]
pub enum Argument {
    App(AppType),
    Text(String),
    OptionalText(Option<String>),
    Truth(bool),
    Value(Json),
    OptionalValue(Option<Json>),
    Signed(Option<i64>),
    Unsigned(u64),
}

/// The model of [`Argument`].
pub enum ArgumentView {
    App(AppType),
    Text(Seq<char>),
    OptionalText(Option<Seq<char>>),
    Truth(bool),
    Value(JsonView),
    OptionalValue(Option<JsonView>),
    Signed(Option<i64>),
    Unsigned(u64),
}

impl View for Argument {
    type V = ArgumentView;

    open spec fn view(&self) -> ArgumentView {
        match *self {
            Argument::App(app) => ArgumentView::App(app),
            Argument::Text(t) => ArgumentView::Text(t@),
            Argument::OptionalText(t) => ArgumentView::OptionalText(text::option_view(t)),
            Argument::Truth(b) => ArgumentView::Truth(b),
            Argument::Value(value) => ArgumentView::Value(value@),
            Argument::OptionalValue(Some(value)) => ArgumentView::OptionalValue(Some(value@)),
            Argument::OptionalValue(None) => ArgumentView::OptionalValue(None),
            Argument::Signed(n) => ArgumentView::Signed(n),
            Argument::Unsigned(n) => ArgumentView::Unsigned(n),
        }
    }
}

/// The models of arguments.
pub open spec fn argument_views(arguments: Seq<Argument>) -> Seq<ArgumentView> {
    Seq::new(arguments.len(), |i: int| arguments[i]@)
}

/// What becomes of the result of a command.
#[derive(Debug, Clone, Copy, PartialEq, Eq, Structural)]
pub enum Shape {
    /// It is sent as it is.
    Value,
    /// `null` is sent in its place.
    Null,
    /// `true` is sent in its place.
    True,
    /// `false` is sent in its place.
    False,
    /// Whether it is not `null` is sent in its place.
    Presence,
    /// An object without fields is sent in its place.
    EmptyObject,
    /// An empty list of warnings is sent in its place.
    Warnings,
    /// It is sent as a status.
    Status,
    /// It is sent as the backup of an import.
    Imported,
    /// A message of success is sent in its place.
    Synchronized,
}

/// An operation of the application.
#[derive(Debug, Clone, Copy)]
pub struct Operation {
    pub name: &'static str,
    /// Whether the command fails where the operation fails.
    pub required: bool,
}

/// The model of [`Operation`].
pub struct OperationView {
    pub name: Seq<char>,
    pub required: bool,
}

impl View for Operation {
    type V = OperationView;

    open spec fn view(&self) -> OperationView {
        OperationView { name: self.name@, required: self.required }
    }
}

/// What a command does: what it needs, the operations that it runs, one after the
/// other, and what becomes of the result.
#[derive(Debug)]
pub struct CommandPlan {
    pub args: Vec<ArgSpec>,
    pub operations: Vec<Operation>,
    pub shape: Shape,
}

/// The model of [`CommandPlan`].
pub struct PlanView {
    pub args: Seq<ArgView>,
    pub operations: Seq<OperationView>,
    pub shape: Shape,
}

/// The models of the arguments of a command.
pub open spec fn arg_views(args: Seq<ArgSpec>) -> Seq<ArgView> {
    Seq::new(args.len(), |i: int| args[i]@)
}

/// The models of operations.
pub open spec fn operation_views(operations: Seq<Operation>) -> Seq<OperationView> {
    Seq::new(operations.len(), |i: int| operations[i]@)
}

impl View for CommandPlan {
    type V = PlanView;

    open spec fn view(&self) -> PlanView {
        PlanView {
            args: arg_views(self.args@),
            operations: operation_views(self.operations@),
            shape: self.shape,
        }
    }
}

/// The model of a plan that may be missing.
pub open spec fn plan_view(plan: Option<CommandPlan>) -> Option<PlanView> {
    match plan {
        Some(plan) => Some(plan@),
        None => None,
    }
}

/// The command that needs nothing and runs nothing.
pub open spec fn answers(shape: Shape) -> PlanView {
    PlanView { args: seq![], operations: seq![], shape }
}

/// The command that needs nothing and runs one operation.
pub open spec fn calls(operation: Seq<char>, shape: Shape) -> PlanView {
    answers(shape).then_calls(operation)
}

impl PlanView {
    /// The command with one more argument.
    pub open spec fn takes(self, kind: ArgKind, key: Seq<char>) -> PlanView {
        PlanView { args: self.args.push(ArgView { kind, key }), ..self }
    }

    /// The command with one more operation, which must succeed.
    pub open spec fn then_calls(self, name: Seq<char>) -> PlanView {
        PlanView {
            operations: self.operations.push(OperationView { name, required: true }),
            ..self
        }
    }

    /// The command with one more operation, which may fail.
    pub open spec fn then_tries(self, name: Seq<char>) -> PlanView {
        PlanView {
            operations: self.operations.push(OperationView { name, required: false }),
            ..self
        }
    }
}

impl CommandPlan {
    /// The command that needs nothing and runs nothing.
    pub fn answers(shape: Shape) -> (r: CommandPlan)
        ensures
            r@ == answers(shape),
    {
        let r = CommandPlan { args: Vec::new(), operations: Vec::new(), shape };
        assert(arg_views(r.args@) =~= seq![]);
        assert(operation_views(r.operations@) =~= seq![]);
        r
    }

    /// The command that needs nothing and runs one operation.
    pub fn calls(operation: &'static str, shape: Shape) -> (r: CommandPlan)
        ensures
            r@ == calls(operation@, shape),
    {
        CommandPlan::answers(shape).then_calls(operation)
    }

    /// The command with one more argument.
    pub fn takes(self, kind: ArgKind, key: &'static str) -> (r: CommandPlan)
        ensures
            r@ == self@.takes(kind, key@),
    {
        let CommandPlan { mut args, operations, shape } = self;
        args.push(ArgSpec { kind, key });
        assert(arg_views(args@) =~= self@.takes(kind, key@).args);
        CommandPlan { args, operations, shape }
    }

    /// The command with one more operation, which must succeed.
    pub fn then_calls(self, name: &'static str) -> (r: CommandPlan)
        ensures
            r@ == self@.then_calls(name@),
    {
        let CommandPlan { args, mut operations, shape } = self;
        operations.push(Operation { name, required: true });
        assert(operation_views(operations@) =~= self@.then_calls(name@).operations);
        CommandPlan { args, operations, shape }
    }

    /// The command with one more operation, which may fail.
    pub fn then_tries(self, name: &'static str) -> (r: CommandPlan)
        ensures
            r@ == self@.then_tries(name@),
    {
        let CommandPlan { args, mut operations, shape } = self;
        operations.push(Operation { name, required: false });
        assert(operation_views(operations@) =~= self@.then_tries(name@).operations);
        CommandPlan { args, operations, shape }
    }
}

/// What is said of an argument that is not there.
pub open spec fn missing(key: Seq<char>) -> ErrorView {
    ErrorView::BadRequest("missing '"@ + key + "' argument"@)
}

/// What is said of an argument that cannot be decoded.
pub open spec fn invalid(key: Seq<char>, error: Seq<char>) -> ErrorView {
    ErrorView::BadRequest("invalid '"@ + key + "' argument: "@ + error)
}

/// What is said of an argument that is there and was to be decoded.
pub open spec fn undecoded(failure: Option<Seq<char>>, key: Seq<char>) -> Option<ErrorView> {
    match failure {
        Some(error) => Some(invalid(key, error)),
        None => None,
    }
}

/// What is wrong with an argument; `failure` is what the application says of it
/// where it could not decode it.
pub open spec fn arg_error(args: JsonView, arg: ArgView, failure: Option<Seq<char>>) -> Option<ErrorView> {
    let key = arg.key;
    match arg.kind {
        ArgKind::App => if json::field_text(args, key) is None {
            Some(missing(key))
        } else {
            match failure {
                Some(error) => Some(ErrorView::Domain(error)),
                None => None,
            }
        },
        ArgKind::Text => if json::field_text(args, key) is None {
            Some(missing(key))
        } else {
            None
        },
        ArgKind::Truth => if json::field_truth(args, key) is None {
            Some(missing(key))
        } else {
            None
        },
        ArgKind::Present => if args.field(key) is None {
            Some(missing(key))
        } else {
            None
        },
        ArgKind::Typed => if args.field(key) is None {
            Some(missing(key))
        } else {
            undecoded(failure, key)
        },
        ArgKind::OptionalTyped => match args.field(key) {
            None => None,
            Some(value) => if value is Null {
                None
            } else {
                undecoded(failure, key)
            },
        },
        ArgKind::OptionalJson => match json::field_text(args, key) {
            None => None,
            Some(raw) => match json::json_parsed(raw) {
                Some(_) => None,
                None => Some(invalid(key, json::json_error(raw))),
            },
        },
        _ => None,
    }
}

/// What the application says of an argument.
pub open spec fn failure_at(failures: Seq<Option<String>>, i: int) -> Option<Seq<char>> {
    if 0 <= i < failures.len() {
        text::option_view(failures[i])
    } else {
        None
    }
}

/// What is wrong with the first argument, from `from` on, that is not as it should
/// be.
pub open spec fn first_error(
    args: JsonView,
    needed: Seq<ArgView>,
    failures: Seq<Option<String>>,
    from: int,
) -> Option<ErrorView>
    decreases needed.len() - from,
{
    if from < 0 || from >= needed.len() {
        None
    } else {
        match arg_error(args, needed[from], failure_at(failures, from)) {
            Some(error) => Some(error),
            None => first_error(args, needed, failures, from + 1),
        }
    }
}

/// The model of an optional error.
pub open spec fn error_view(error: Option<WebError>) -> Option<ErrorView> {
    match error {
        Some(error) => Some(error@),
        None => None,
    }
}

/// What is said of an argument that is not there.
fn missing_error(key: &str) -> (r: WebError)
    ensures
        r@ == missing(key@),
{
    WebError::BadRequest(text::concat3("missing '", key, "' argument"))
}

/// What is said of an argument that is there and was to be decoded.
fn decode_error(key: &str, failure: &Option<String>) -> (r: Option<WebError>)
    ensures
        error_view(r) == undecoded(text::option_view(*failure), key@),
{
    match failure {
        Some(error) => {
            let head = text::concat3("invalid '", key, "' argument: ");
            Some(WebError::BadRequest(text::concat2(head.as_str(), error.as_str())))
        },
        None => None,
    }
}

/// A text argument.
pub fn str_arg<'a>(args: &'a Json, key: &str) -> (r: Result<&'a str, WebError>)
    ensures
        match r {
            Ok(given) => json::field_text(args@, key@) == Some(given@),
            Err(error) => json::field_text(args@, key@) is None && error@ == missing(key@),
        },
{
    match args.get_str(key) {
        Some(given) => Ok(given),
        None => Err(missing_error(key)),
    }
}

/// The name of an application; `failure` is what the application says of it where it
/// knows no application of that name.
pub fn app_arg<'a>(args: &'a Json, key: &str, failure: &Option<String>) -> (r: Result<
    &'a str,
    WebError,
>)
    ensures
        match r {
            Ok(given) => json::field_text(args@, key@) == Some(given@) && failure is None,
            Err(error) => arg_error(
                args@,
                ArgView { kind: ArgKind::App, key: key@ },
                text::option_view(*failure),
            ) == Some(error@),
        },
{
    match str_arg(args, key) {
        Ok(given) => match failure {
            Some(error) => Err(WebError::Domain(error.clone())),
            None => Ok(given),
        },
        Err(error) => Err(error),
    }
}

/// A value of a type of the application; `failure` is why it is none.
pub fn from_arg<'a>(args: &'a Json, key: &str, failure: &Option<String>) -> (r: Result<
    &'a Json,
    WebError,
>)
    ensures
        match r {
            Ok(given) => args@.field(key@) == Some(given@) && failure is None,
            Err(error) => arg_error(
                args@,
                ArgView { kind: ArgKind::Typed, key: key@ },
                text::option_view(*failure),
            ) == Some(error@),
        },
{
    match args.get(key) {
        Some(given) => match decode_error(key, failure) {
            Some(error) => Err(error),
            None => Ok(given),
        },
        None => Err(missing_error(key)),
    }
}

/// A value of a type of the application that may be left out; `failure` is why it is
/// none.
pub fn opt_from_arg<'a>(args: &'a Json, key: &str, failure: &Option<String>) -> (r: Result<
    Option<&'a Json>,
    WebError,
>)
    ensures
        match r {
            Ok(Some(given)) => {
                &&& args@.field(key@) == Some(given@)
                &&& !(given@ is Null)
                &&& failure is None
            },
            Ok(None) => args@.field(key@) is None || args@.field(key@) == Some(JsonView::Null),
            Err(error) => arg_error(
                args@,
                ArgView { kind: ArgKind::OptionalTyped, key: key@ },
                text::option_view(*failure),
            ) == Some(error@),
        },
{
    match args.get(key) {
        None => Ok(None),
        Some(given) => if given.is_null() {
            Ok(None)
        } else {
            match decode_error(key, failure) {
                Some(error) => Err(error),
                None => Ok(Some(given)),
            }
        },
    }
}

/// The value in a text that may be left out; `parsed` is what came of reading the text,
/// where there is one.
pub fn parsed_arg(key: &str, parsed: Option<Result<Json, String>>) -> (r: Result<
    Option<Json>,
    WebError,
>)
    ensures
        match parsed {
            None => r == Ok::<Option<Json>, WebError>(None),
            Some(Ok(value)) => r == Ok::<Option<Json>, WebError>(Some(value)),
            Some(Err(error)) => r is Err && r->Err_0@ == invalid(key@, error@),
        },
{
    match parsed {
        None => Ok(None),
        Some(Ok(value)) => Ok(Some(value)),
        Some(Err(error)) => {
            let head = text::concat3("invalid '", key, "' argument: ");
            Err(WebError::BadRequest(text::concat2(head.as_str(), error.as_str())))
        },
    }
}

/// The value in a text that may be left out, or why the text is no JSON.
pub fn opt_json_arg(args: &Json, key: &str) -> (r: Result<Option<Json>, WebError>)
    ensures
        match json::field_text(args@, key@) {
            None => r == Ok::<Option<Json>, WebError>(None),
            Some(raw) => match json::json_parsed(raw) {
                Some(value) => r matches Ok(Some(given)) && given@ == value,
                None => r is Err && r->Err_0@ == invalid(key@, json::json_error(raw)),
            },
        },
{
    let parsed = match args.get_str(key) {
        Some(raw) => Some(json::parse_json_or_error(raw)),
        None => None,
    };
    parsed_arg(key, parsed)
}

/// What is wrong with an argument.
fn check_arg(args: &Json, arg: &ArgSpec, failure: &Option<String>) -> (r: Option<WebError>)
    ensures
        error_view(r) == arg_error(args@, arg@, text::option_view(*failure)),
{
    let key = arg.key;
    match arg.kind {
        ArgKind::App => match app_arg(args, key, failure) {
            Ok(_) => None,
            Err(error) => Some(error),
        },
        ArgKind::Text => match str_arg(args, key) {
            Ok(_) => None,
            Err(error) => Some(error),
        },
        ArgKind::Truth => if args.get_bool(key).is_none() {
            Some(missing_error(key))
        } else {
            None
        },
        ArgKind::Present => if args.get(key).is_none() {
            Some(missing_error(key))
        } else {
            None
        },
        ArgKind::Typed => match from_arg(args, key, failure) {
            Ok(_) => None,
            Err(error) => Some(error),
        },
        ArgKind::OptionalTyped => match opt_from_arg(args, key, failure) {
            Ok(_) => None,
            Err(error) => Some(error),
        },
        ArgKind::OptionalJson => match opt_json_arg(args, key) {
            Ok(_) => None,
            Err(error) => Some(error),
        },
        _ => None,
    }
}

impl CommandPlan {
    /// What is wrong with the first argument that is not as it should be;
    /// `failures` is what the application says of each.
    pub fn check(&self, args: &Json, failures: &Vec<Option<String>>) -> (r: Result<(), WebError>)
        ensures
            match r {
                Ok(_) => first_error(args@, self@.args, failures@, 0) is None,
                Err(error) => first_error(args@, self@.args, failures@, 0) == Some(error@),
            },
    {
        let ghost needed = self@.args;
        let mut i: usize = 0;
        while i < self.args.len()
            invariant
                i <= self.args@.len() == needed.len(),
                needed == self@.args,
                needed == arg_views(self.args@),
                first_error(args@, needed, failures@, 0) == first_error(
                    args@,
                    needed,
                    failures@,
                    i as int,
                ),
            decreases self.args@.len() - i,
        {
            assert(needed[i as int] == self.args@[i as int]@);
            let error = if i < failures.len() {
                check_arg(args, &self.args[i], &failures[i])
            } else {
                check_arg(args, &self.args[i], &None)
            };
            if let Some(error) = error {
                return Err(error);
            }
            i = i + 1;
        }
        Ok(())
    }
}

/// A text argument that may be left out.
pub fn opt_str_arg<'a>(args: &'a Json, key: &str) -> (r: Option<&'a str>)
    ensures
        json::option_text(r) == json::field_text(args@, key@),
{
    args.get_str(key)
}

/// The truth value of an argument, or what it is where it is left out.
pub open spec fn truth_or(args: JsonView, key: Seq<char>, default: bool) -> bool {
    match json::field_truth(args, key) {
        Some(given) => given,
        None => default,
    }
}

/// A truth value that may be left out.
pub fn bool_arg(args: &Json, key: &str, default: bool) -> (r: bool)
    ensures
        r == truth_or(args@, key@, default),
{
    match args.get_bool(key) {
        Some(given) => given,
        None => default,
    }
}

/// A signed integer that may be left out.
pub fn opt_i64_arg(args: &Json, key: &str) -> (r: Option<i64>)
    ensures
        r == json::field_signed(args@, key@),
{
    args.get_i64(key)
}

/// The unsigned integer of an argument, or what it is where it is left out.
pub open spec fn count_or(args: JsonView, key: Seq<char>, default: u64) -> u64 {
    match json::field_unsigned(args, key) {
        Some(given) => given,
        None => default,
    }
}

/// An unsigned integer that may be left out.
pub fn u64_arg(args: &Json, key: &str, default: u64) -> (r: u64)
    ensures
        r == count_or(args@, key@, default),
{
    match args.get_u64(key) {
        Some(given) => given,
        None => default,
    }
}

/// The text of an argument, which is there.
pub open spec fn text_there(args: JsonView, key: Seq<char>) -> Seq<char> {
    match json::field_text(args, key) {
        Some(given) => given,
        None => seq![],
    }
}

/// What an operation is given for an argument that is as it should be.
pub open spec fn argument(args: JsonView, arg: ArgView) -> ArgumentView {
    let key = arg.key;
    match arg.kind {
        ArgKind::App => ArgumentView::Text(text_there(args, key)),
        ArgKind::Text => ArgumentView::Text(text_there(args, key)),
        ArgKind::Truth => ArgumentView::Truth(truth_or(args, key, false)),
        ArgKind::Present => ArgumentView::Value(value_there(args, key)),
        ArgKind::Typed => ArgumentView::Value(value_there(args, key)),
        ArgKind::OptionalTyped => ArgumentView::OptionalValue(
            match args.field(key) {
                Some(value) => if value is Null {
                    None
                } else {
                    Some(value)
                },
                None => None,
            },
        ),
        ArgKind::OptionalJson => ArgumentView::OptionalValue(
            match json::field_text(args, key) {
                Some(raw) => json::json_parsed(raw),
                None => None,
            },
        ),
        ArgKind::OptionalText => ArgumentView::OptionalText(json::field_text(args, key)),
        ArgKind::Flag => ArgumentView::Truth(truth_or(args, key, false)),
        ArgKind::OptionalSigned => ArgumentView::Signed(json::field_signed(args, key)),
        ArgKind::Count(default) => ArgumentView::Unsigned(count_or(args, key, default)),
        ArgKind::Page(default) => ArgumentView::Unsigned(
            (count_or(args, key, default) % 0x1_0000_0000) as u64,
        ),
        ArgKind::FixedApp(app) => ArgumentView::App(app),
        ArgKind::FixedTruth(given) => ArgumentView::Truth(given),
    }
}

/// The value of an argument, which is there.
pub open spec fn value_there(args: JsonView, key: Seq<char>) -> JsonView {
    match args.field(key) {
        Some(value) => value,
        None => JsonView::Null,
    }
}

/// What the operations are given.
pub open spec fn arguments(args: JsonView, needed: Seq<ArgView>) -> Seq<ArgumentView> {
    Seq::new(needed.len(), |i: int| argument(args, needed[i]))
}

/// A text argument, copied.
fn copied_text(args: &Json, key: &str) -> (r: Option<String>)
    ensures
        text::option_view(r) == json::field_text(args@, key@),
{
    match args.get_str(key) {
        Some(given) => Some(given.to_owned()),
        None => None,
    }
}

/// The text of an argument, or the empty text.
pub fn text_or_empty(args: &Json, key: &str) -> (r: String)
    ensures
        r@ == text_there(args@, key@),
{
    match args.get_str(key) {
        Some(given) => given.to_owned(),
        None => {
            let r = "".to_owned();
            proof {
                reveal_strlit("");
            }
            assert(r@ =~= seq![]);
            r
        },
    }
}

/// The value of an argument, or `null`.
fn value_or_null(args: &Json, key: &str) -> (r: Json)
    ensures
        r@ == value_there(args@, key@),
{
    match args.get(key) {
        Some(value) => value.duplicate(),
        None => Json::Null,
    }
}

/// What an operation is given for an argument.
fn read_argument(args: &Json, arg: &ArgSpec) -> (r: Argument)
    ensures
        r@ == argument(args@, arg@),
{
    let key = arg.key;
    match arg.kind {
        ArgKind::App => Argument::Text(text_or_empty(args, key)),
        ArgKind::Text => Argument::Text(text_or_empty(args, key)),
        ArgKind::Truth => Argument::Truth(bool_arg(args, key, false)),
        ArgKind::Present => Argument::Value(value_or_null(args, key)),
        ArgKind::Typed => Argument::Value(value_or_null(args, key)),
        ArgKind::OptionalTyped => match args.get(key) {
            Some(value) => if value.is_null() {
                Argument::OptionalValue(None)
            } else {
                Argument::OptionalValue(Some(value.duplicate()))
            },
            None => Argument::OptionalValue(None),
        },
        ArgKind::OptionalJson => match opt_json_arg(args, key) {
            Ok(given) => Argument::OptionalValue(given),
            Err(_) => Argument::OptionalValue(None),
        },
        ArgKind::OptionalText => Argument::OptionalText(copied_text(args, key)),
        ArgKind::Flag => Argument::Truth(bool_arg(args, key, false)),
        ArgKind::OptionalSigned => Argument::Signed(opt_i64_arg(args, key)),
        ArgKind::Count(default) => Argument::Unsigned(u64_arg(args, key, default)),
        ArgKind::Page(default) => Argument::Unsigned(u64_arg(args, key, default) % 0x1_0000_0000),
        ArgKind::FixedApp(app) => Argument::App(app),
        ArgKind::FixedTruth(given) => Argument::Truth(given),
    }
}

impl CommandPlan {
    /// What the operations are given, or what is wrong with the arguments.
    pub fn resolve(&self, args: &Json, failures: &Vec<Option<String>>) -> (r: Result<
        Vec<Argument>,
        WebError,
    >)
        ensures
            match r {
                Ok(given) => {
                    &&& first_error(args@, self@.args, failures@, 0) is None
                    &&& argument_views(given@) == arguments(args@, self@.args)
                },
                Err(error) => first_error(args@, self@.args, failures@, 0) == Some(error@),
            },
    {
        if let Err(error) = self.check(args, failures) {
            return Err(error);
        }
        let ghost needed = self@.args;
        let mut given: Vec<Argument> = Vec::new();
        let mut i: usize = 0;
        while i < self.args.len()
            invariant
                i <= self.args@.len() == needed.len(),
                needed == arg_views(self.args@),
                given@.len() == i,
                forall|k: int| 0 <= k < i ==> #[trigger] given@[k]@ == argument(args@, needed[k]),
            decreases self.args@.len() - i,
        {
            assert(needed[i as int] == self.args@[i as int]@);
            given.push(read_argument(args, &self.args[i]));
            i = i + 1;
        }
        assert(argument_views(given@) =~= arguments(args@, needed));
        Ok(given)
    }
}

/// What is sent as the result of a command.
pub open spec fn shaped(shape: Shape, value: JsonView) -> JsonView {
    match shape {
        Shape::Value => value,
        Shape::Null => JsonView::Null,
        Shape::True => JsonView::Bool(true),
        Shape::False => JsonView::Bool(false),
        Shape::Presence => JsonView::Bool(!(value is Null)),
        Shape::EmptyObject => JsonView::empty_object(),
        Shape::Warnings => JsonView::empty_object().with("warnings"@, JsonView::Array(seq![])),
        Shape::Status => JsonView::empty_object().with("status"@, value),
        Shape::Imported => JsonView::empty_object().with("success"@, JsonView::Bool(true)).with(
            "message"@,
            JsonView::Text("SQL imported successfully"@),
        ).with("backupId"@, value),
        Shape::Synchronized => JsonView::empty_object().with(
            "success"@,
            JsonView::Bool(true),
        ).with("message"@, JsonView::Text("Live configuration synchronized"@)),
    }
}

impl Shape {
    /// What is sent as the result of a command.
    pub fn apply(self, value: Json) -> (r: Json)
        ensures
            r@ == shaped(self, value@),
    {
        match self {
            Shape::Value => value,
            Shape::Null => Json::Null,
            Shape::True => Json::Bool(true),
            Shape::False => Json::Bool(false),
            Shape::Presence => Json::Bool(!value.is_null()),
            Shape::EmptyObject => Json::empty_object(),
            Shape::Warnings => {
                let none: Vec<Json> = Vec::new();
                assert(json::item_views(none@) =~= seq![]);
                Json::empty_object().with("warnings", Json::Array(none))
            },
            Shape::Status => Json::empty_object().with("status", value),
            Shape::Imported => Json::empty_object().with("success", Json::Bool(true)).with(
                "message",
                Json::from_text("SQL imported successfully"),
            ).with("backupId", value),
            Shape::Synchronized => Json::empty_object().with("success", Json::Bool(true)).with(
                "message",
                Json::from_text("Live configuration synchronized"),
            ),
        }
    }
}

/// What is to be done next for a command.
#[derive(Debug)]
pub enum NextStep {
    /// Run this operation.
    Run(&'static str),
    /// Send this.
    Answer(Json),
    /// Refuse the command.
    Refuse(WebError),
}

/// The model of [`NextStep`].
pub enum NextView {
    Run(Seq<char>),
    Answer(JsonView),
    Refuse(ErrorView),
}

impl View for NextStep {
    type V = NextView;

    open spec fn view(&self) -> NextView {
        match *self {
            NextStep::Run(name) => NextView::Run(name@),
            NextStep::Answer(value) => NextView::Answer(value@),
            NextStep::Refuse(error) => NextView::Refuse(error@),
        }
    }
}

/// What came of an operation.
pub enum ResultView {
    Done(JsonView),
    Failed(Seq<char>),
}

/// The model of what came of an operation.
pub open spec fn result_view(result: Result<Json, String>) -> ResultView {
    match result {
        Ok(value) => ResultView::Done(value@),
        Err(error) => ResultView::Failed(error@),
    }
}

/// The models of what came of operations.
pub open spec fn result_views(results: Seq<Result<Json, String>>) -> Seq<ResultView> {
    Seq::new(results.len(), |i: int| result_view(results[i]))
}

/// What is to be done once the first `k` operations have run, if none of those that
/// must succeed has failed before; `value` is the result of the last of them.
pub open spec fn next_from(plan: PlanView, results: Seq<ResultView>, value: JsonView, k: int) -> NextView
    decreases plan.operations.len() - k,
{
    if k < 0 || k >= plan.operations.len() {
        NextView::Answer(shaped(plan.shape, value))
    } else if k >= results.len() {
        NextView::Run(plan.operations[k].name)
    } else if !plan.operations[k].required {
        next_from(plan, results, value, k + 1)
    } else {
        match results[k] {
            ResultView::Done(done) => next_from(plan, results, done, k + 1),
            ResultView::Failed(error) => NextView::Refuse(ErrorView::Domain(error)),
        }
    }
}

/// What is to be done, given what came of the operations that have run.
pub open spec fn next_step(plan: PlanView, results: Seq<ResultView>) -> NextView {
    next_from(plan, results, JsonView::Null, 0)
}

impl CommandPlan {
    /// What is to be done, given what came of the operations that have run: the
    /// operations run one after the other until one that must succeed fails, and the
    /// result of the last of those is sent.
    pub fn next(&self, results: &Vec<Result<Json, String>>) -> (r: NextStep)
        ensures
            r@ == next_step(self@, result_views(results@)),
    {
        let ghost plan = self@;
        let ghost views = result_views(results@);
        let mut value = Json::Null;
        let mut k: usize = 0;
        while k < self.operations.len()
            invariant
                k <= self.operations@.len() == plan.operations.len(),
                plan == self@,
                plan.operations == operation_views(self.operations@),
                views == result_views(results@),
                next_step(plan, views) == next_from(plan, views, value@, k as int),
            decreases self.operations@.len() - k,
        {
            assert(plan.operations[k as int] == self.operations@[k as int]@);
            if k >= results.len() {
                return NextStep::Run(self.operations[k].name);
            }
            assert(views[k as int] == result_view(results@[k as int]));
            if self.operations[k].required {
                match &results[k] {
                    Ok(done) => {
                        value = done.duplicate();
                    },
                    Err(error) => {
                        return NextStep::Refuse(WebError::Domain(error.clone()));
                    },
                }
            }
            k = k + 1;
        }
        NextStep::Answer(self.shape.apply(value))
    }
}

} // verus!
