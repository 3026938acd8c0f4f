//! What commands are given, and what they answer.

use vstd::prelude::*;
use vstd::string::*;
#[allow(unused_imports)]
use crate::app_type::AppType;
#[allow(unused_imports)]
use crate::json;
#[allow(unused_imports)]
use crate::json::{Json, JsonView};
#[allow(unused_imports)]
use crate::services::session_usage::SessionSyncResult;
use crate::web::dispatch;
use crate::web::handlers::common;
#[allow(unused_imports)]
use crate::web::handlers::common::{
    ArgKind, ArgView, ArgumentView, ErrorView, NextView, OperationView, PlanView, ResultView, Shape,
};
#[allow(unused_imports)]
use crate::web::handlers::deeplink;
#[allow(unused_imports)]
use crate::web::handlers::deeplink::Resource;
#[allow(unused_imports)]
use crate::web::handlers::mcp_config;
#[allow(unused_imports)]
use crate::web::handlers::proxy;
#[allow(unused_imports)]
use crate::web::handlers::usage;
#[allow(unused_imports)]
use crate::web::handlers::usage::{UsageSource, UsageStep};

verus! {

/// A text that a command needs is handed to the operation as it came; without it the command
/// is refused, and it is said which one is missing.
pub proof fn law_a_needed_text_is_handed_on(
    args: JsonView,
    key: Seq<char>,
    failure: Option<Seq<char>>,
)
    ensures
        ({
            let arg = ArgView { kind: ArgKind::Text, key };
            match args.field(key) {
                Some(JsonView::Text(given)) => {
                    &&& common::arg_error(args, arg, failure) is None
                    &&& common::argument(args, arg) == ArgumentView::Text(given)
                },
                _ => common::arg_error(args, arg, failure) == Some(
                    ErrorView::BadRequest("missing '"@ + key + "' argument"@),
                ),
            }
        }),
{
}

/// The name of an application is handed to the operation as it came; where the application
/// does not know it, the command is refused for the reason that it gives.
pub proof fn law_an_unknown_application_is_refused(
    args: JsonView,
    key: Seq<char>,
    failure: Option<Seq<char>>,
)
    ensures
        ({
            let arg = ArgView { kind: ArgKind::App, key };
            match args.field(key) {
                Some(JsonView::Text(given)) => match failure {
                    Some(error) => common::arg_error(args, arg, failure) == Some(
                        ErrorView::Domain(error),
                    ),
                    None => common::arg_error(args, arg, failure) is None && common::argument(
                        args,
                        arg,
                    ) == ArgumentView::Text(given),
                },
                _ => common::arg_error(args, arg, failure) == Some(
                    ErrorView::BadRequest("missing '"@ + key + "' argument"@),
                ),
            }
        }),
{
}

/// A value that the application decodes is handed on as it came; where it is missing or
/// cannot be decoded the command is refused. One that may be left out may also be `null`.
pub proof fn law_a_value_is_handed_on(args: JsonView, key: Seq<char>, failure: Option<Seq<char>>)
    ensures
        ({
            let needed = ArgView { kind: ArgKind::Typed, key };
            let optional = ArgView { kind: ArgKind::OptionalTyped, key };
            let present = ArgView { kind: ArgKind::Present, key };
            match args.field(key) {
                Some(value) => {
                    &&& common::argument(args, needed) == ArgumentView::Value(value)
                    &&& common::argument(args, present) == ArgumentView::Value(value)
                    &&& common::arg_error(args, present, failure) is None
                    &&& common::arg_error(args, needed, failure) == match failure {
                        Some(error) => Some(
                            ErrorView::BadRequest("invalid '"@ + key + "' argument: "@ + error),
                        ),
                        None => None,
                    }
                    &&& common::argument(args, optional) == ArgumentView::OptionalValue(
                        if value is Null {
                            None
                        } else {
                            Some(value)
                        },
                    )
                    &&& common::arg_error(args, optional, failure) == if value is Null {
                        None
                    } else {
                        common::arg_error(args, needed, failure)
                    }
                },
                None => {
                    let refused = Some(
                        ErrorView::BadRequest("missing '"@ + key + "' argument"@),
                    );
                    &&& common::arg_error(args, needed, failure) == refused
                    &&& common::arg_error(args, present, failure) == refused
                    &&& common::arg_error(args, optional, failure) is None
                    &&& common::argument(args, optional) == ArgumentView::OptionalValue(None)
                },
            }
        }),
{
}

/// Arguments that may be left out never refuse a command; what is given counts, and otherwise
/// what stands in for it.
pub proof fn law_what_is_left_out_has_a_default(
    args: JsonView,
    key: Seq<char>,
    failure: Option<Seq<char>>,
    default: u64,
)
    ensures
        common::argument(args, ArgView { kind: ArgKind::Flag, key }) == ArgumentView::Truth(
            args.field(key) == Some(JsonView::Bool(true)),
        ),
        common::argument(args, ArgView { kind: ArgKind::Truth, key }) == ArgumentView::Truth(
            args.field(key) == Some(JsonView::Bool(true)),
        ),
        common::argument(args, ArgView { kind: ArgKind::OptionalText, key })
            == ArgumentView::OptionalText(
            match args.field(key) {
                Some(JsonView::Text(given)) => Some(given),
                _ => None,
            },
        ),
        common::argument(args, ArgView { kind: ArgKind::OptionalSigned, key })
            == ArgumentView::Signed(
            match args.field(key) {
                Some(JsonView::Number(n)) => n.signed,
                _ => None,
            },
        ),
        ({
            let count = match args.field(key) {
                Some(JsonView::Number(n)) => match n.unsigned {
                    Some(given) => given,
                    None => default,
                },
                _ => default,
            };
            &&& common::argument(args, ArgView { kind: ArgKind::Count(default), key })
                == ArgumentView::Unsigned(count)
            &&& count < 0x1_0000_0000 ==> common::argument(
                args,
                ArgView { kind: ArgKind::Page(default), key },
            ) == ArgumentView::Unsigned(count)
        }),
        common::arg_error(args, ArgView { kind: ArgKind::Flag, key }, failure) is None,
        common::arg_error(args, ArgView { kind: ArgKind::OptionalText, key }, failure) is None,
        common::arg_error(args, ArgView { kind: ArgKind::OptionalSigned, key }, failure) is None,
        common::arg_error(args, ArgView { kind: ArgKind::Count(default), key }, failure) is None,
        common::arg_error(args, ArgView { kind: ArgKind::Page(default), key }, failure) is None,
        common::arg_error(args, ArgView { kind: ArgKind::Truth, key }, failure) is None <==> (
        args.field(key) matches Some(JsonView::Bool(_))),
{
}

/// An argument that is none of the command's own is what the command says it is, whatever
/// comes with the command.
pub proof fn law_fixed_arguments_are_fixed(
    args: JsonView,
    key: Seq<char>,
    failure: Option<Seq<char>>,
    app: AppType,
    truth: bool,
)
    ensures
        common::argument(args, ArgView { kind: ArgKind::FixedApp(app), key }) == ArgumentView::App(
            app,
        ),
        common::argument(args, ArgView { kind: ArgKind::FixedTruth(truth), key })
            == ArgumentView::Truth(truth),
        common::arg_error(args, ArgView { kind: ArgKind::FixedApp(app), key }, failure) is None,
        common::arg_error(args, ArgView { kind: ArgKind::FixedTruth(truth), key }, failure) is None,
{
}

/// A text that is to be JSON is handed on as the value that it holds; where it is no JSON the
/// command is refused with what is wrong with it.
pub proof fn law_a_text_of_json_is_read(args: JsonView, key: Seq<char>, failure: Option<Seq<char>>)
    ensures
        ({
            let arg = ArgView { kind: ArgKind::OptionalJson, key };
            match args.field(key) {
                Some(JsonView::Text(raw)) => match json::json_parsed(raw) {
                    Some(value) => {
                        &&& common::arg_error(args, arg, failure) is None
                        &&& common::argument(args, arg) == ArgumentView::OptionalValue(Some(value))
                    },
                    None => common::arg_error(args, arg, failure) == Some(
                        ErrorView::BadRequest(
                            "invalid '"@ + key + "' argument: "@ + json::json_error(raw),
                        ),
                    ),
                },
                _ => {
                    &&& common::arg_error(args, arg, failure) is None
                    &&& common::argument(args, arg) == ArgumentView::OptionalValue(None)
                },
            }
        }),
{
}

/// The arguments are looked at in their order, and the first that is wrong is told.
pub proof fn law_the_first_wrong_argument_is_told(
    args: JsonView,
    needed: Seq<ArgView>,
    failures: Seq<Option<String>>,
    from: int,
    k: int,
)
    requires
        0 <= from <= k < needed.len(),
        forall|i: int|
            from <= i < k ==> common::arg_error(
                args,
                #[trigger] needed[i],
                common::failure_at(failures, i),
            ) is None,
        common::arg_error(args, needed[k], common::failure_at(failures, k)) is Some,
    ensures
        common::first_error(args, needed, failures, from) == common::arg_error(
            args,
            needed[k],
            common::failure_at(failures, k),
        ),
    decreases k - from,
{
    if from < k {
        assert(common::arg_error(args, needed[from], common::failure_at(failures, from)) is None);
        law_the_first_wrong_argument_is_told(args, needed, failures, from + 1, k);
    }
}

/// A command with one operation that must succeed answers with what is made of its result, or
/// is refused for the reason for which it failed.
pub proof fn law_a_command_answers_with_its_result(plan: PlanView, value: JsonView, error: Seq<char>)
    requires
        plan.operations.len() == 1,
        plan.operations[0].required,
    ensures
        common::next_step(plan, seq![]) == NextView::Run(plan.operations[0].name),
        common::next_step(plan, seq![ResultView::Failed(error)]) == NextView::Refuse(
            ErrorView::Domain(error),
        ),
        common::next_step(plan, seq![ResultView::Done(value)]) matches NextView::Answer(answer) && {
            &&& plan.shape is Value ==> answer == value
            &&& plan.shape is Null ==> answer is Null
            &&& plan.shape is True ==> answer == JsonView::Bool(true)
            &&& plan.shape is False ==> answer == JsonView::Bool(false)
            &&& plan.shape is Presence ==> answer == JsonView::Bool(!(value is Null))
            &&& plan.shape is EmptyObject ==> (answer is Object && forall|name: Seq<char>|
                #[trigger] answer.field(name) is None)
            &&& plan.shape is Warnings ==> answer.field("warnings"@) == Some(
                JsonView::Array(seq![]),
            )
            &&& plan.shape is Status ==> answer.field("status"@) == Some(value)
            &&& plan.shape is Imported ==> {
                &&& answer.field("success"@) == Some(JsonView::Bool(true))
                &&& answer.field("message"@) == Some(JsonView::Text("SQL imported successfully"@))
                &&& answer.field("backupId"@) == Some(value)
            }
            &&& plan.shape is Synchronized ==> {
                &&& answer.field("success"@) == Some(JsonView::Bool(true))
                &&& answer.field("message"@) == Some(
                    JsonView::Text("Live configuration synchronized"@),
                )
            }
        },
{
    reveal_strlit("success");
    reveal_strlit("message");
    reveal_strlit("backupId");
    assert("success"@[0] == 's' && "message"@[0] == 'm');
    assert("backupId"@.len() == 8 && "success"@.len() == 7 && "message"@.len() == 7);
    assert(common::next_from(plan, seq![ResultView::Done(value)], value, 1)
        == common::next_step(plan, seq![ResultView::Done(value)]));
}

/// Once all operations have run and none that must succeed has failed, the command answers;
/// before that an operation is run.
pub proof fn law_a_command_answers_once_all_has_run(plan: PlanView, results: Seq<ResultView>)
    requires
        forall|i: int|
            0 <= i < results.len() && i < plan.operations.len() && plan.operations[i].required
                ==> #[trigger] results[i] is Done,
    ensures
        common::next_step(plan, results) is Answer <==> plan.operations.len() <= results.len(),
        common::next_step(plan, results) is Run <==> results.len() < plan.operations.len(),
{
    lemma_goes_on(plan, results, JsonView::Null, 0);
}

proof fn lemma_goes_on(plan: PlanView, results: Seq<ResultView>, value: JsonView, k: int)
    requires
        0 <= k,
        forall|i: int|
            0 <= i < results.len() && i < plan.operations.len() && plan.operations[i].required
                ==> #[trigger] results[i] is Done,
    ensures
        k <= results.len() ==> (common::next_from(plan, results, value, k) is Answer
            <==> plan.operations.len() <= results.len() || plan.operations.len() <= k),
        common::next_from(plan, results, value, k) is Answer || common::next_from(
            plan,
            results,
            value,
            k,
        ) is Run,
    decreases plan.operations.len() - k,
{
    if k < plan.operations.len() && k < results.len() {
        if !plan.operations[k].required {
            lemma_goes_on(plan, results, value, k + 1);
        } else {
            assert(results[k] is Done);
            lemma_goes_on(plan, results, results[k]->Done_0, k + 1);
        }
    }
}

/// The dashboard is told of a switch to another provider, with the application and the
/// provider that were asked for, and of no other command.
pub proof fn law_only_a_switch_is_told(command: Seq<char>, args: JsonView, app: Seq<char>, id: Seq<char>)
    requires
        args.field("app"@) == Some(JsonView::Text(app)),
        args.field("id"@) == Some(JsonView::Text(id)),
    ensures
        dispatch::side_effect(command, args) is Some <==> command == "switch_provider"@,
        dispatch::side_effect(command, args) matches Some(event) ==> {
            &&& event.field("event"@) == Some(JsonView::Text("provider-switched"@))
            &&& event.field("payload"@) matches Some(payload) && {
                &&& payload.field("appType"@) == Some(JsonView::Text(app))
                &&& payload.field("providerId"@) == Some(JsonView::Text(id))
            }
        },
{
    reveal_strlit("event");
    reveal_strlit("payload");
    reveal_strlit("appType");
    reveal_strlit("providerId");
    assert("event"@.len() == 5 && "payload"@.len() == 7);
    assert("appType"@.len() == 7 && "providerId"@.len() == 10);
}

/// What is imported from a link is answered with its kind and with what it is known by.
pub proof fn law_an_import_is_answered_with_its_kind(value: JsonView)
    requires
        value is Object,
    ensures
        deeplink::import_answer(Resource::Provider, value).field("type"@) == Some(
            JsonView::Text("provider"@),
        ),
        deeplink::import_answer(Resource::Provider, value).field("id"@) == Some(value),
        deeplink::import_answer(Resource::Prompt, value).field("type"@) == Some(
            JsonView::Text("prompt"@),
        ),
        deeplink::import_answer(Resource::Prompt, value).field("id"@) == Some(value),
        deeplink::import_answer(Resource::Skill, value).field("type"@) == Some(
            JsonView::Text("skill"@),
        ),
        deeplink::import_answer(Resource::Skill, value).field("key"@) == Some(value),
        deeplink::import_answer(Resource::Mcp, value).field("type"@) == Some(
            JsonView::Text("mcp"@),
        ),
        forall|name: Seq<char>|
            name != "type"@ ==> #[trigger] deeplink::import_answer(Resource::Mcp, value).field(name)
                == value.field(name),
{
    reveal_strlit("type");
    reveal_strlit("id");
    reveal_strlit("key");
    assert("type"@.len() == 4 && "id"@.len() == 2 && "key"@.len() == 3);
}

/// The proxy can be pointed at any provider that is there, but for an official one.
pub proof fn law_the_proxy_takes_no_official_provider(
    id: Seq<char>,
    category: Option<Option<Seq<char>>>,
)
    ensures
        proxy::target_error(id, category) is None <==> (category matches Some(kind) && kind
            != Some("official"@)),
        category is None ==> proxy::target_error(id, category) == Some(
            ErrorView::Domain("供应商不存在: "@ + id),
        ),
{
}

/// A server that is put into the configuration of an application is enabled there, and for
/// the four that share servers where that is asked for; elsewhere nothing changes. OpenClaw
/// takes no servers.
pub proof fn law_a_server_is_enabled_where_it_was_put(before: bool, app: AppType, other: AppType)
    ensures
        app != AppType::OpenClaw ==> mcp_config::enabled_after(before, app, app, false)
            && mcp_config::enabled_after(before, app, app, true),
        other != app && other != AppType::OpenClaw ==> mcp_config::enabled_after(
            before,
            app,
            other,
            false,
        ) == before,
        !mcp_config::enabled_after(before, app, AppType::OpenClaw, true),
        !mcp_config::enabled_after(before, app, AppType::OpenClaw, false),
        other == AppType::Claude || other == AppType::Codex || other == AppType::Gemini || other
            == AppType::OpenCode ==> mcp_config::enabled_after(before, app, other, true),
        app != AppType::Hermes ==> mcp_config::enabled_after(before, app, AppType::Hermes, true)
            == before,
{
}

/// What failed is noted by the name of its source.
pub proof fn law_failures_name_their_source(error: Seq<char>)
    ensures
        usage::sync_note(UsageSource::Codex, error) == "Codex sync failed: "@ + error,
        usage::sync_note(UsageSource::Gemini, error) == "Gemini sync failed: "@ + error,
        usage::sync_note(UsageSource::OpenCode, error) == "OpenCode sync failed: "@ + error,
{
}

/// A new server goes by the name that it gives itself, else by its identifier.
pub proof fn law_a_new_server_goes_by_its_own_name(id: Seq<char>, definition: JsonView)
    ensures
        json::field_text(definition, "name"@) matches Some(name) ==> mcp_config::new_name(
            id,
            definition,
        ) == name,
        json::field_text(definition, "name"@) is None ==> mcp_config::new_name(id, definition)
            == id,
{
}

/// What came of a source is taken over where it was synchronised, and noted under the name of the
/// source where it was not.
pub proof fn law_a_source_is_taken_over_or_noted(
    step: UsageStep,
    source: UsageSource,
    result: SessionSyncResult,
    error: String,
)
    ensures
        usage::is_step(step, source, Ok(result)) ==> step == UsageStep::Merge(result),
        usage::is_step(step, source, Err(error)) ==> (step matches UsageStep::Note(note) && note@
            == usage::sync_note(source, error@)),
{
}

/// What came of an operation is its value, or what went wrong.
pub proof fn law_a_result_is_a_value_or_an_error(value: Json, error: String)
    ensures
        common::result_view(Ok(value)) == ResultView::Done(value@),
        common::result_view(Err(error)) == ResultView::Failed(error@),
{
}

} // verus!
