//! What the dashboard is told once a command has succeeded.

use vstd::prelude::*;
use vstd::string::*;
#[allow(unused_imports)]
use crate::json;
use crate::json::Json;
#[allow(unused_imports)]
use crate::json::JsonView;
use crate::text;
use crate::web::handlers::common;

verus! {

/// What is said of a provider that has been switched to.
pub open spec fn provider_switched(app: Seq<char>, id: Seq<char>) -> JsonView {
    JsonView::empty_object().with("event"@, JsonView::Text("provider-switched"@)).with(
        "payload"@,
        JsonView::empty_object().with("appType"@, JsonView::Text(app)).with(
            "providerId"@,
            JsonView::Text(id),
        ),
    )
}

/// What the dashboard is told once a command has succeeded.
pub open spec fn side_effect(command: Seq<char>, args: JsonView) -> Option<JsonView> {
    if command == "switch_provider"@ {
        Some(
            provider_switched(common::text_there(args, "app"@), common::text_there(args, "id"@)),
        )
    } else {
        None
    }
}

/// What the dashboard is told once a command has succeeded: only a switch to another
/// provider is told.
pub fn emit_side_effects(command: &str, args: &Json) -> (r: Option<String>)
    ensures
        match side_effect(command@, args@) {
            Some(event) => r is Some && r->Some_0@ == json::json_written(event),
            None => r is None,
        },
{
    if text::same_text(command, "switch_provider") {
        let app = common::text_or_empty(args, "app");
        let id = common::text_or_empty(args, "id");
        let payload = Json::empty_object().with("appType", Json::Text(app)).with(
            "providerId",
            Json::Text(id),
        );
        let event = Json::empty_object().with("event", Json::from_text("provider-switched")).with(
            "payload",
            payload,
        );
        Some(json::write_json(&event))
    } else {
        None
    }
}

} // verus!
