//! Commands on skills.

use vstd::prelude::*;
use crate::app_type::AppType;
use crate::text;
use crate::web::handlers::common;
use crate::web::handlers::common::{ArgKind, CommandPlan, Shape};
#[allow(unused_imports)]
use crate::web::handlers::common::PlanView;

verus! {

/// What a command does, if it is one of these.
pub open spec fn plan_of(command: Seq<char>) -> Option<PlanView> {
    if command == "get_installed_skills"@ {
        Some(common::calls("skills.list_installed"@, Shape::Value))
    } else if command == "install_skill_unified"@ {
        Some(
            common::calls("skills.install_discovered"@, Shape::Value)
                .takes(ArgKind::Typed, "skill"@)
                .takes(ArgKind::App, "currentApp"@),
        )
    } else if command == "uninstall_skill_unified"@ {
        Some(common::calls("skills.uninstall"@, Shape::EmptyObject).takes(ArgKind::Text, "id"@))
    } else if command == "toggle_skill_app"@ {
        Some(
            common::calls("skills.toggle_app"@, Shape::True)
                .takes(ArgKind::Text, "id"@)
                .takes(ArgKind::App, "app"@)
                .takes(ArgKind::Flag, "enabled"@),
        )
    } else if command == "scan_unmanaged_skills"@ {
        Some(common::calls("skills.scan_unmanaged"@, Shape::Value))
    } else if command == "import_skills_from_apps"@ {
        Some(
            common::calls("skills.import_from_apps"@, Shape::Value)
                .takes(ArgKind::Typed, "imports"@),
        )
    } else if command == "discover_available_skills"@ {
        Some(common::calls("skills.discover_available"@, Shape::Value))
    } else if command == "get_skills"@ {
        Some(common::calls("skills.list"@, Shape::Value))
    } else if command == "get_skills_for_app"@ {
        Some(common::calls("skills.list"@, Shape::Value).takes(ArgKind::App, "app"@))
    } else if command == "install_skill"@ {
        Some(
            common::calls("skills.install"@, Shape::True)
                .takes(ArgKind::FixedApp(AppType::Claude), "app"@)
                .takes(ArgKind::Text, "directory"@),
        )
    } else if command == "install_skill_for_app"@ {
        Some(
            common::calls("skills.install"@, Shape::True)
                .takes(ArgKind::App, "app"@)
                .takes(ArgKind::Text, "directory"@),
        )
    } else if command == "uninstall_skill"@ {
        Some(
            common::calls("skills.uninstall"@, Shape::EmptyObject)
                .takes(ArgKind::Text, "directory"@),
        )
    } else if command == "uninstall_skill_for_app"@ {
        Some(
            common::calls("skills.set_for_app"@, Shape::EmptyObject)
                .takes(ArgKind::App, "app"@)
                .takes(ArgKind::Text, "directory"@)
                .takes(ArgKind::FixedTruth(false), "enabled"@),
        )
    } else if command == "get_skill_repos"@ {
        Some(common::calls("skills.list_repos"@, Shape::Value))
    } else if command == "add_skill_repo"@ {
        Some(common::calls("skills.upsert_repo"@, Shape::True).takes(ArgKind::Typed, "repo"@))
    } else if command == "remove_skill_repo"@ {
        Some(
            common::calls("skills.remove_repo"@, Shape::True)
                .takes(ArgKind::Text, "owner"@)
                .takes(ArgKind::Text, "name"@),
        )
    } else {
        None
    }
}

/// What a command does, if it is one of these.
pub fn dispatch(command: &str) -> (r: Option<CommandPlan>)
    ensures
        common::plan_view(r) == plan_of(command@),
{
    if text::same_text(command, "get_installed_skills") {
        Some(CommandPlan::calls("skills.list_installed", Shape::Value))
    } else if text::same_text(command, "install_skill_unified") {
        Some(
            CommandPlan::calls("skills.install_discovered", Shape::Value)
                .takes(ArgKind::Typed, "skill")
                .takes(ArgKind::App, "currentApp"),
        )
    } else if text::same_text(command, "uninstall_skill_unified") {
        Some(CommandPlan::calls("skills.uninstall", Shape::EmptyObject).takes(ArgKind::Text, "id"))
    } else if text::same_text(command, "toggle_skill_app") {
        Some(
            CommandPlan::calls("skills.toggle_app", Shape::True)
                .takes(ArgKind::Text, "id")
                .takes(ArgKind::App, "app")
                .takes(ArgKind::Flag, "enabled"),
        )
    } else if text::same_text(command, "scan_unmanaged_skills") {
        Some(CommandPlan::calls("skills.scan_unmanaged", Shape::Value))
    } else if text::same_text(command, "import_skills_from_apps") {
        Some(
            CommandPlan::calls("skills.import_from_apps", Shape::Value)
                .takes(ArgKind::Typed, "imports"),
        )
    } else if text::same_text(command, "discover_available_skills") {
        Some(CommandPlan::calls("skills.discover_available", Shape::Value))
    } else if text::same_text(command, "get_skills") {
        Some(CommandPlan::calls("skills.list", Shape::Value))
    } else if text::same_text(command, "get_skills_for_app") {
        Some(CommandPlan::calls("skills.list", Shape::Value).takes(ArgKind::App, "app"))
    } else if text::same_text(command, "install_skill") {
        Some(
            CommandPlan::calls("skills.install", Shape::True)
                .takes(ArgKind::FixedApp(AppType::Claude), "app")
                .takes(ArgKind::Text, "directory"),
        )
    } else if text::same_text(command, "install_skill_for_app") {
        Some(
            CommandPlan::calls("skills.install", Shape::True)
                .takes(ArgKind::App, "app")
                .takes(ArgKind::Text, "directory"),
        )
    } else if text::same_text(command, "uninstall_skill") {
        Some(
            CommandPlan::calls("skills.uninstall", Shape::EmptyObject)
                .takes(ArgKind::Text, "directory"),
        )
    } else if text::same_text(command, "uninstall_skill_for_app") {
        Some(
            CommandPlan::calls("skills.set_for_app", Shape::EmptyObject)
                .takes(ArgKind::App, "app")
                .takes(ArgKind::Text, "directory")
                .takes(ArgKind::FixedTruth(false), "enabled"),
        )
    } else if text::same_text(command, "get_skill_repos") {
        Some(CommandPlan::calls("skills.list_repos", Shape::Value))
    } else if text::same_text(command, "add_skill_repo") {
        Some(CommandPlan::calls("skills.upsert_repo", Shape::True).takes(ArgKind::Typed, "repo"))
    } else if text::same_text(command, "remove_skill_repo") {
        Some(
            CommandPlan::calls("skills.remove_repo", Shape::True)
                .takes(ArgKind::Text, "owner")
                .takes(ArgKind::Text, "name"),
        )
    } else {
        None
    }
}

} // verus!
