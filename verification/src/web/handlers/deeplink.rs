//! Commands on deep links.

use vstd::prelude::*;
use vstd::string::*;
use crate::json::Json;
use crate::json::JsonView;
use crate::web::handlers::common::WebError;
use crate::web::handlers::common::ErrorView;
use crate::text;
use crate::web::handlers::common;
use crate::web::handlers::common::{ArgKind, CommandPlan, Shape};
#[allow(unused_imports)]
use crate::web::handlers::common::PlanView;

verus! {

/// What a command does, if it is one of these.
pub open spec fn plan_of(command: Seq<char>) -> Option<PlanView> {
    if command == "parse_deeplink"@ {
        Some(common::calls("deeplink.parse"@, Shape::Value).takes(ArgKind::Text, "url"@))
    } else if command == "import_from_deeplink_unified"@ {
        Some(common::calls("deeplink.import"@, Shape::Value).takes(ArgKind::Typed, "request"@))
    } else {
        None
    }
}

/// What a command does, if it is one of these.
pub fn dispatch(command: &str) -> (r: Option<CommandPlan>)
    ensures
        common::plan_view(r) == plan_of(command@),
{
    if text::same_text(command, "parse_deeplink") {
        Some(CommandPlan::calls("deeplink.parse", Shape::Value).takes(ArgKind::Text, "url"))
    } else if text::same_text(command, "import_from_deeplink_unified") {
        Some(CommandPlan::calls("deeplink.import", Shape::Value).takes(ArgKind::Typed, "request"))
    } else {
        None
    }
}

/// What a deep link holds.
#[derive(Debug, Clone, Copy, PartialEq, Eq, Structural)]
pub enum Resource {
    Provider,
    Prompt,
    Mcp,
    Skill,
}

/// The name of what a deep link holds.
pub open spec fn resource_name(resource: Resource) -> Seq<char> {
    match resource {
        Resource::Provider => "provider"@,
        Resource::Prompt => "prompt"@,
        Resource::Mcp => "mcp"@,
        Resource::Skill => "skill"@,
    }
}

/// What is sent once it has been imported.
pub open spec fn import_answer(resource: Resource, value: JsonView) -> JsonView {
    let kind = JsonView::Text(resource_name(resource));
    match resource {
        Resource::Provider => JsonView::empty_object().with("type"@, kind).with("id"@, value),
        Resource::Prompt => JsonView::empty_object().with("type"@, kind).with("id"@, value),
        Resource::Mcp => value.with("type"@, kind),
        Resource::Skill => JsonView::empty_object().with("type"@, kind).with("key"@, value),
    }
}

/// What a deep link holds, by the name that it gives.
pub fn import_unified(resource: &str) -> (r: Result<Resource, WebError>)
    ensures
        match r {
            Ok(kind) => resource@ == resource_name(kind),
            Err(error) => {
                &&& forall|kind: Resource| resource@ != #[trigger] resource_name(kind)
                &&& error@ == ErrorView::BadRequest("Unsupported resource type: "@ + resource@)
            },
        },
{
    if text::same_text(resource, "provider") {
        Ok(Resource::Provider)
    } else if text::same_text(resource, "prompt") {
        Ok(Resource::Prompt)
    } else if text::same_text(resource, "mcp") {
        Ok(Resource::Mcp)
    } else if text::same_text(resource, "skill") {
        Ok(Resource::Skill)
    } else {
        Err(WebError::BadRequest(text::concat2("Unsupported resource type: ", resource)))
    }
}

impl Resource {
    /// What is sent once it has been imported: its kind, with the identifier of what
    /// was imported, or with what is said of several servers.
    pub fn answer(self, value: Json) -> (r: Json)
        ensures
            r@ == import_answer(self, value@),
    {
        match self {
            Resource::Provider => Json::empty_object().with(
                "type",
                Json::from_text("provider"),
            ).with("id", value),
            Resource::Prompt => Json::empty_object().with("type", Json::from_text("prompt")).with(
                "id",
                value,
            ),
            Resource::Mcp => value.with("type", Json::from_text("mcp")),
            Resource::Skill => Json::empty_object().with("type", Json::from_text("skill")).with(
                "key",
                value,
            ),
        }
    }
}

} // verus!
