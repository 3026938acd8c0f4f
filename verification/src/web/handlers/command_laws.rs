//! What each command of the dashboard runs.

use vstd::prelude::*;
use vstd::string::*;
#[allow(unused_imports)]
use crate::app_type::AppType;
#[allow(unused_imports)]
use crate::json::JsonView;
use crate::web::handlers;
#[allow(unused_imports)]
use crate::web::handlers::common::{ArgKind, ArgView, OperationView, PlanView, Shape};
use crate::web::handlers::names;
#[allow(unused_imports)]
use crate::web::handlers::names::Module;

verus! {

/// Whether a command takes arguments of these kinds under these keys, runs these operations
/// in this order (those marked must succeed), and answers with what is made of the result.
pub open spec fn does_all(
    command: Seq<char>,
    args: JsonView,
    operations: Seq<(Seq<char>, bool)>,
    takes: Seq<(ArgKind, Seq<char>)>,
    shape: Shape,
) -> bool {
    &&& handlers::plan_of(command, args) matches Some(plan)
    &&& plan.operations.len() == operations.len()
    &&& forall|i: int|
        0 <= i < operations.len() ==> {
            &&& (#[trigger] plan.operations[i]).name == operations[i].0
            &&& plan.operations[i].required == operations[i].1
        }
    &&& plan.args.len() == takes.len()
    &&& forall|i: int|
        0 <= i < takes.len() ==> {
            &&& (#[trigger] plan.args[i]).kind == takes[i].0
            &&& plan.args[i].key == takes[i].1
        }
    &&& plan.shape == shape
}

/// Whether a command takes arguments of these kinds under these keys, runs this one operation,
/// which must succeed, and answers with what is made of the result.
pub open spec fn does(
    command: Seq<char>,
    args: JsonView,
    operation: Seq<char>,
    takes: Seq<(ArgKind, Seq<char>)>,
    shape: Shape,
) -> bool {
    does_all(command, args, seq![(operation, true)], takes, shape)
}

/// What a command does as one of a module.
spec fn plan_in(module: Module, command: Seq<char>, args: JsonView) -> Option<PlanView> {
    match module {
        Module::Meta => handlers::meta::plan_of(command),
        Module::Providers => handlers::providers::plan_of(command),
        Module::ProvidersExtra => handlers::providers_extra::plan_of(command),
        Module::Auth => handlers::auth::plan_of(command),
        Module::Config => handlers::config::plan_of(command, args),
        Module::ConfigMisc => handlers::config_misc::plan_of(command),
        Module::Copilot => handlers::copilot::plan_of(command),
        Module::DbBackup => handlers::db_backup::plan_of(command),
        Module::Deeplink => handlers::deeplink::plan_of(command),
        Module::Env => handlers::env::plan_of(command),
        Module::Failover => handlers::failover::plan_of(command),
        Module::GlobalProxy => handlers::global_proxy::plan_of(command),
        Module::Hermes => handlers::hermes::plan_of(command),
        Module::Mcp => handlers::mcp::plan_of(command),
        Module::McpConfig => handlers::mcp_config::plan_of(command),
        Module::ModelFetch => handlers::model_fetch::plan_of(command),
        Module::ModelTest => handlers::model_test::plan_of(command),
        Module::Openclaw => handlers::openclaw::plan_of(command),
        Module::Pricing => handlers::pricing::plan_of(command),
        Module::Prompts => handlers::prompts::plan_of(command),
        Module::Proxy => handlers::proxy::plan_of(command),
        Module::ProxyExtra => handlers::proxy_extra::plan_of(command),
        Module::Sessions => handlers::sessions::plan_of(command),
        Module::Settings => handlers::settings::plan_of(command, args),
        Module::Skills => handlers::skills::plan_of(command),
        Module::Subscription => handlers::subscription::plan_of(command),
        Module::Usage => handlers::usage::plan_of(command),
        Module::Vscode => handlers::vscode::plan_of(command),
        Module::Workspace => handlers::workspace::plan_of(command),
    }
}

/// A command of a module does what it does there.
proof fn lemma_only(module: Module, command: Seq<char>, args: JsonView)
    requires
        names::claims(module, command, args),
    ensures
        handlers::plan_of(command, args) == plan_in(module, command, args),
{
    assert forall|other: Module| #[trigger] names::claims(other, command, args) implies other
        == module by {
        names::law_commands_have_one_module(command, args, module, other);
    }
    assert(names::claims(Module::Meta, command, args) ==> module == Module::Meta);
    assert(names::claims(Module::Providers, command, args) ==> module == Module::Providers);
    assert(names::claims(Module::ProvidersExtra, command, args) ==> module == Module::ProvidersExtra);
    assert(names::claims(Module::Auth, command, args) ==> module == Module::Auth);
    assert(names::claims(Module::Config, command, args) ==> module == Module::Config);
    assert(names::claims(Module::ConfigMisc, command, args) ==> module == Module::ConfigMisc);
    assert(names::claims(Module::Copilot, command, args) ==> module == Module::Copilot);
    assert(names::claims(Module::DbBackup, command, args) ==> module == Module::DbBackup);
    assert(names::claims(Module::Deeplink, command, args) ==> module == Module::Deeplink);
    assert(names::claims(Module::Env, command, args) ==> module == Module::Env);
    assert(names::claims(Module::Failover, command, args) ==> module == Module::Failover);
    assert(names::claims(Module::GlobalProxy, command, args) ==> module == Module::GlobalProxy);
    assert(names::claims(Module::Hermes, command, args) ==> module == Module::Hermes);
    assert(names::claims(Module::Mcp, command, args) ==> module == Module::Mcp);
    assert(names::claims(Module::McpConfig, command, args) ==> module == Module::McpConfig);
    assert(names::claims(Module::ModelFetch, command, args) ==> module == Module::ModelFetch);
    assert(names::claims(Module::ModelTest, command, args) ==> module == Module::ModelTest);
    assert(names::claims(Module::Openclaw, command, args) ==> module == Module::Openclaw);
    assert(names::claims(Module::Pricing, command, args) ==> module == Module::Pricing);
    assert(names::claims(Module::Prompts, command, args) ==> module == Module::Prompts);
    assert(names::claims(Module::Proxy, command, args) ==> module == Module::Proxy);
    assert(names::claims(Module::ProxyExtra, command, args) ==> module == Module::ProxyExtra);
    assert(names::claims(Module::Sessions, command, args) ==> module == Module::Sessions);
    assert(names::claims(Module::Settings, command, args) ==> module == Module::Settings);
    assert(names::claims(Module::Skills, command, args) ==> module == Module::Skills);
    assert(names::claims(Module::Subscription, command, args) ==> module == Module::Subscription);
    assert(names::claims(Module::Usage, command, args) ==> module == Module::Usage);
    assert(names::claims(Module::Vscode, command, args) ==> module == Module::Vscode);
    assert(names::claims(Module::Workspace, command, args) ==> module == Module::Workspace);
}

/// Each command of the program itself runs its own operation, with its own arguments.
pub proof fn law_meta_commands_run_their_own_operations(args: JsonView)
    ensures
        does("get_settings"@, args, "settings.get"@, seq![], Shape::Value),
        does(
            "save_settings"@,
            args,
            "settings.update"@,
            seq![(ArgKind::Typed, "settings"@)],
            Shape::True,
        ),
        does("get_config_dir"@, args, "config.dir"@, seq![(ArgKind::App, "app"@)], Shape::Value),
        does(
            "get_common_config_snippet"@,
            args,
            "config.common_snippet"@,
            seq![(ArgKind::App, "appType"@)],
            Shape::Value,
        ),
        does("get_app_config_path"@, args, "config.app_config_path"@, seq![], Shape::Value),
        does_all("is_portable_mode"@, args, seq![], seq![], Shape::False),
        does_all("update_tray_menu"@, args, seq![], seq![], Shape::True),
        does("get_app_version"@, args, "program.version"@, seq![], Shape::Value),
{
    reveal_strlit("get_settings");
    reveal_strlit("save_settings");
    reveal_strlit("get_config_dir");
    reveal_strlit("get_common_config_snippet");
    reveal_strlit("get_app_config_path");
    reveal_strlit("is_portable_mode");
    reveal_strlit("update_tray_menu");
    reveal_strlit("get_app_version");
    assert("get_settings"@.len() == 12);
    assert("save_settings"@.len() == 13);
    assert("get_config_dir"@.len() == 14);
    assert("get_common_config_snippet"@.len() == 25);
    assert("get_app_config_path"@.len() == 19);
    assert("is_portable_mode"@.len() == 16);
    assert("update_tray_menu"@.len() == 16);
    assert("get_app_version"@.len() == 15);
    assert("update_tray_menu"@[0] == 'u');
    assert("is_portable_mode"@[0] == 'i');
    lemma_only(Module::Meta, "get_settings"@, args);
    lemma_only(Module::Meta, "save_settings"@, args);
    lemma_only(Module::Meta, "get_config_dir"@, args);
    lemma_only(Module::Meta, "get_common_config_snippet"@, args);
    lemma_only(Module::Meta, "get_app_config_path"@, args);
    lemma_only(Module::Meta, "is_portable_mode"@, args);
    lemma_only(Module::Meta, "update_tray_menu"@, args);
    lemma_only(Module::Meta, "get_app_version"@, args);
}

/// Each command on providers runs its own operation, with its own arguments.
pub proof fn law_providers_commands_run_their_own_operations(args: JsonView)
    ensures
        does(
            "get_providers"@,
            args,
            "providers.list"@,
            seq![(ArgKind::App, "app"@)],
            Shape::Value,
        ),
        does(
            "get_current_provider"@,
            args,
            "providers.current"@,
            seq![(ArgKind::App, "app"@)],
            Shape::Value,
        ),
        does(
            "switch_provider"@,
            args,
            "providers.switch"@,
            seq![(ArgKind::App, "app"@), (ArgKind::Text, "id"@)],
            Shape::Warnings,
        ),
        does(
            "add_provider"@,
            args,
            "providers.add"@,
            seq![(ArgKind::App, "app"@), (ArgKind::Typed, "provider"@)],
            Shape::Value,
        ),
        does(
            "update_provider"@,
            args,
            "providers.update"@,
            seq![(ArgKind::App, "app"@), (ArgKind::Typed, "provider"@)],
            Shape::Value,
        ),
        does(
            "delete_provider"@,
            args,
            "providers.delete"@,
            seq![(ArgKind::App, "app"@), (ArgKind::Text, "id"@)],
            Shape::True,
        ),
        does(
            "remove_provider_from_live_config"@,
            args,
            "providers.remove_from_live_config"@,
            seq![(ArgKind::App, "app"@), (ArgKind::Text, "id"@)],
            Shape::True,
        ),
        does(
            "import_default_config"@,
            args,
            "providers.import_default_config"@,
            seq![(ArgKind::App, "app"@)],
            Shape::Value,
        ),
        does(
            "update_providers_sort_order"@,
            args,
            "providers.update_sort_order"@,
            seq![(ArgKind::App, "app"@), (ArgKind::Typed, "updates"@)],
            Shape::Value,
        ),
        does(
            "import_opencode_providers_from_live"@,
            args,
            "providers.import_opencode_from_live"@,
            seq![],
            Shape::Value,
        ),
        does(
            "import_openclaw_providers_from_live"@,
            args,
            "providers.import_openclaw_from_live"@,
            seq![],
            Shape::Value,
        ),
        does(
            "import_hermes_providers_from_live"@,
            args,
            "providers.import_hermes_from_live"@,
            seq![],
            Shape::Value,
        ),
{
    reveal_strlit("get_providers");
    reveal_strlit("get_current_provider");
    reveal_strlit("switch_provider");
    reveal_strlit("add_provider");
    reveal_strlit("update_provider");
    reveal_strlit("delete_provider");
    reveal_strlit("remove_provider_from_live_config");
    reveal_strlit("import_default_config");
    reveal_strlit("update_providers_sort_order");
    reveal_strlit("import_opencode_providers_from_live");
    reveal_strlit("import_openclaw_providers_from_live");
    reveal_strlit("import_hermes_providers_from_live");
    assert("get_providers"@.len() == 13);
    assert("get_current_provider"@.len() == 20);
    assert("switch_provider"@.len() == 15);
    assert("add_provider"@.len() == 12);
    assert("update_provider"@.len() == 15);
    assert("delete_provider"@.len() == 15);
    assert("remove_provider_from_live_config"@.len() == 32);
    assert("import_default_config"@.len() == 21);
    assert("update_providers_sort_order"@.len() == 27);
    assert("import_opencode_providers_from_live"@.len() == 35);
    assert("import_openclaw_providers_from_live"@.len() == 35);
    assert("import_hermes_providers_from_live"@.len() == 33);
    assert("update_provider"@[0] == 'u');
    assert("switch_provider"@[0] == 's');
    assert("delete_provider"@[0] == 'd');
    assert("import_openclaw_providers_from_live"@[12] == 'l');
    assert("import_opencode_providers_from_live"@[12] == 'o');
    lemma_only(Module::Providers, "get_providers"@, args);
    lemma_only(Module::Providers, "get_current_provider"@, args);
    lemma_only(Module::Providers, "switch_provider"@, args);
    lemma_only(Module::Providers, "add_provider"@, args);
    lemma_only(Module::Providers, "update_provider"@, args);
    lemma_only(Module::Providers, "delete_provider"@, args);
    lemma_only(Module::Providers, "remove_provider_from_live_config"@, args);
    lemma_only(Module::Providers, "import_default_config"@, args);
    lemma_only(Module::Providers, "update_providers_sort_order"@, args);
    lemma_only(Module::Providers, "import_opencode_providers_from_live"@, args);
    lemma_only(Module::Providers, "import_openclaw_providers_from_live"@, args);
    lemma_only(Module::Providers, "import_hermes_providers_from_live"@, args);
}

/// Each command on the providers of live configurations runs its own operation, with its own arguments.
pub proof fn law_providers_extra_commands_run_their_own_operations(args: JsonView)
    ensures
        does(
            "get_opencode_live_provider_ids"@,
            args,
            "opencode.provider_ids"@,
            seq![],
            Shape::Value,
        ),
        does(
            "get_openclaw_live_provider_ids"@,
            args,
            "openclaw.provider_ids"@,
            seq![],
            Shape::Value,
        ),
        does("get_hermes_live_provider_ids"@, args, "hermes.provider_ids"@, seq![], Shape::Value),
{
    reveal_strlit("get_opencode_live_provider_ids");
    reveal_strlit("get_openclaw_live_provider_ids");
    reveal_strlit("get_hermes_live_provider_ids");
    assert("get_opencode_live_provider_ids"@.len() == 30);
    assert("get_openclaw_live_provider_ids"@.len() == 30);
    assert("get_hermes_live_provider_ids"@.len() == 28);
    assert("get_openclaw_live_provider_ids"@[9] == 'l');
    assert("get_opencode_live_provider_ids"@[9] == 'o');
    lemma_only(Module::ProvidersExtra, "get_opencode_live_provider_ids"@, args);
    lemma_only(Module::ProvidersExtra, "get_openclaw_live_provider_ids"@, args);
    lemma_only(Module::ProvidersExtra, "get_hermes_live_provider_ids"@, args);
}

/// Each command on logins runs its own operation, with its own arguments.
pub proof fn law_auth_commands_run_their_own_operations(args: JsonView)
    ensures
        does(
            "auth_start_login"@,
            args,
            "auth.start_login"@,
            seq![(ArgKind::Text, "authProvider"@)],
            Shape::Value,
        ),
        does(
            "auth_poll_for_account"@,
            args,
            "auth.poll_for_account"@,
            seq![(ArgKind::Text, "authProvider"@), (ArgKind::Text, "deviceCode"@)],
            Shape::Value,
        ),
        does(
            "auth_list_accounts"@,
            args,
            "auth.list_accounts"@,
            seq![(ArgKind::Text, "authProvider"@)],
            Shape::Value,
        ),
        does(
            "auth_get_status"@,
            args,
            "auth.get_status"@,
            seq![(ArgKind::Text, "authProvider"@)],
            Shape::Value,
        ),
        does(
            "auth_remove_account"@,
            args,
            "auth.remove_account"@,
            seq![(ArgKind::Text, "authProvider"@), (ArgKind::Text, "accountId"@)],
            Shape::Null,
        ),
        does(
            "auth_set_default_account"@,
            args,
            "auth.set_default_account"@,
            seq![(ArgKind::Text, "authProvider"@), (ArgKind::Text, "accountId"@)],
            Shape::Null,
        ),
        does(
            "auth_logout"@,
            args,
            "auth.logout"@,
            seq![(ArgKind::Text, "authProvider"@)],
            Shape::Null,
        ),
{
    reveal_strlit("auth_start_login");
    reveal_strlit("auth_poll_for_account");
    reveal_strlit("auth_list_accounts");
    reveal_strlit("auth_get_status");
    reveal_strlit("auth_remove_account");
    reveal_strlit("auth_set_default_account");
    reveal_strlit("auth_logout");
    assert("auth_start_login"@.len() == 16);
    assert("auth_poll_for_account"@.len() == 21);
    assert("auth_list_accounts"@.len() == 18);
    assert("auth_get_status"@.len() == 15);
    assert("auth_remove_account"@.len() == 19);
    assert("auth_set_default_account"@.len() == 24);
    assert("auth_logout"@.len() == 11);
    lemma_only(Module::Auth, "auth_start_login"@, args);
    lemma_only(Module::Auth, "auth_poll_for_account"@, args);
    lemma_only(Module::Auth, "auth_list_accounts"@, args);
    lemma_only(Module::Auth, "auth_get_status"@, args);
    lemma_only(Module::Auth, "auth_remove_account"@, args);
    lemma_only(Module::Auth, "auth_set_default_account"@, args);
    lemma_only(Module::Auth, "auth_logout"@, args);
}

/// Each command on configurations runs its own operation, with its own arguments.
pub proof fn law_config_commands_run_their_own_operations(args: JsonView)
    ensures
        does(
            "get_claude_common_config_snippet"@,
            args,
            "config.common_snippet"@,
            seq![(ArgKind::FixedApp(AppType::Claude), "app"@)],
            Shape::Value,
        ),
        does(
            "set_claude_common_config_snippet"@,
            args,
            "providers.set_common_config_snippet"@,
            seq![(ArgKind::FixedApp(AppType::Claude), "app"@), (ArgKind::Text, "snippet"@)],
            Shape::Null,
        ),
        does(
            "set_common_config_snippet"@,
            args,
            "providers.set_common_config_snippet"@,
            seq![(ArgKind::App, "appType"@), (ArgKind::Text, "snippet"@)],
            Shape::Null,
        ),
        (args.field("settingsConfig"@) matches Some(JsonView::Text(_))) ==> does(
            "extract_common_config_snippet"@,
            args,
            "providers.extract_common_config_snippet_from_settings"@,
            seq![(ArgKind::App, "appType"@), (ArgKind::OptionalJson, "settingsConfig"@)],
            Shape::Value,
        ),
        !(args.field("settingsConfig"@) matches Some(JsonView::Text(_))) ==> does(
            "extract_common_config_snippet"@,
            args,
            "providers.extract_common_config_snippet"@,
            seq![(ArgKind::App, "appType"@), (ArgKind::OptionalJson, "settingsConfig"@)],
            Shape::Value,
        ),
        does("webdav_sync_upload"@, args, "webdav.upload"@, seq![], Shape::Status),
        does_all(
            "webdav_sync_download"@,
            args,
            seq![("webdav.download"@, true), ("providers.sync_current_to_live"@, false)],
            seq![],
            Shape::Status,
        ),
{
    reveal_strlit("get_claude_common_config_snippet");
    reveal_strlit("set_claude_common_config_snippet");
    reveal_strlit("set_common_config_snippet");
    reveal_strlit("extract_common_config_snippet");
    reveal_strlit("webdav_sync_upload");
    reveal_strlit("webdav_sync_download");
    assert("get_claude_common_config_snippet"@.len() == 32);
    assert("set_claude_common_config_snippet"@.len() == 32);
    assert("set_common_config_snippet"@.len() == 25);
    assert("extract_common_config_snippet"@.len() == 29);
    assert("webdav_sync_upload"@.len() == 18);
    assert("webdav_sync_download"@.len() == 20);
    assert("set_claude_common_config_snippet"@[0] == 's');
    assert("get_claude_common_config_snippet"@[0] == 'g');
    lemma_only(Module::Config, "get_claude_common_config_snippet"@, args);
    lemma_only(Module::Config, "set_claude_common_config_snippet"@, args);
    lemma_only(Module::Config, "set_common_config_snippet"@, args);
    lemma_only(Module::Config, "extract_common_config_snippet"@, args);
    lemma_only(Module::Config, "webdav_sync_upload"@, args);
    lemma_only(Module::Config, "webdav_sync_download"@, args);
}

/// Each command on the path of a configuration runs its own operation, with its own arguments.
pub proof fn law_config_misc_commands_run_their_own_operations(args: JsonView)
    ensures
        does(
            "get_claude_code_config_path"@,
            args,
            "config.claude_settings_path"@,
            seq![],
            Shape::Value,
        ),
{
    reveal_strlit("get_claude_code_config_path");
    assert("get_claude_code_config_path"@.len() == 27);
    lemma_only(Module::ConfigMisc, "get_claude_code_config_path"@, args);
}

/// Each command on Copilot runs its own operation, with its own arguments.
pub proof fn law_copilot_commands_run_their_own_operations(args: JsonView)
    ensures
        does(
            "copilot_start_device_flow"@,
            args,
            "copilot.start_device_flow"@,
            seq![],
            Shape::Value,
        ),
        does(
            "copilot_poll_for_auth"@,
            args,
            "copilot.poll_for_token"@,
            seq![(ArgKind::Text, "deviceCode"@)],
            Shape::Presence,
        ),
        does("copilot_get_auth_status"@, args, "copilot.get_status"@, seq![], Shape::Value),
        does("copilot_logout"@, args, "copilot.clear_auth"@, seq![], Shape::Null),
        does("copilot_is_authenticated"@, args, "copilot.is_authenticated"@, seq![], Shape::Value),
        does("copilot_get_token"@, args, "copilot.get_valid_token"@, seq![], Shape::Value),
        does("copilot_get_models"@, args, "copilot.fetch_models"@, seq![], Shape::Value),
        does("copilot_get_usage"@, args, "copilot.fetch_usage"@, seq![], Shape::Value),
        does("copilot_list_accounts"@, args, "copilot.list_accounts"@, seq![], Shape::Value),
        does(
            "copilot_poll_for_account"@,
            args,
            "copilot.poll_for_token"@,
            seq![(ArgKind::Text, "deviceCode"@)],
            Shape::Value,
        ),
        does(
            "copilot_remove_account"@,
            args,
            "copilot.remove_account"@,
            seq![(ArgKind::Text, "accountId"@)],
            Shape::Null,
        ),
        does(
            "copilot_set_default_account"@,
            args,
            "copilot.set_default_account"@,
            seq![(ArgKind::Text, "accountId"@)],
            Shape::Null,
        ),
        does(
            "copilot_get_token_for_account"@,
            args,
            "copilot.get_valid_token_for_account"@,
            seq![(ArgKind::Text, "accountId"@)],
            Shape::Value,
        ),
        does(
            "copilot_get_models_for_account"@,
            args,
            "copilot.fetch_models_for_account"@,
            seq![(ArgKind::Text, "accountId"@)],
            Shape::Value,
        ),
        does(
            "copilot_get_usage_for_account"@,
            args,
            "copilot.fetch_usage_for_account"@,
            seq![(ArgKind::Text, "accountId"@)],
            Shape::Value,
        ),
{
    reveal_strlit("copilot_start_device_flow");
    reveal_strlit("copilot_poll_for_auth");
    reveal_strlit("copilot_get_auth_status");
    reveal_strlit("copilot_logout");
    reveal_strlit("copilot_is_authenticated");
    reveal_strlit("copilot_get_token");
    reveal_strlit("copilot_get_models");
    reveal_strlit("copilot_get_usage");
    reveal_strlit("copilot_list_accounts");
    reveal_strlit("copilot_poll_for_account");
    reveal_strlit("copilot_remove_account");
    reveal_strlit("copilot_set_default_account");
    reveal_strlit("copilot_get_token_for_account");
    reveal_strlit("copilot_get_models_for_account");
    reveal_strlit("copilot_get_usage_for_account");
    assert("copilot_start_device_flow"@.len() == 25);
    assert("copilot_poll_for_auth"@.len() == 21);
    assert("copilot_get_auth_status"@.len() == 23);
    assert("copilot_logout"@.len() == 14);
    assert("copilot_is_authenticated"@.len() == 24);
    assert("copilot_get_token"@.len() == 17);
    assert("copilot_get_models"@.len() == 18);
    assert("copilot_get_usage"@.len() == 17);
    assert("copilot_list_accounts"@.len() == 21);
    assert("copilot_poll_for_account"@.len() == 24);
    assert("copilot_remove_account"@.len() == 22);
    assert("copilot_set_default_account"@.len() == 27);
    assert("copilot_get_token_for_account"@.len() == 29);
    assert("copilot_get_models_for_account"@.len() == 30);
    assert("copilot_get_usage_for_account"@.len() == 29);
    assert("copilot_get_usage"@[12] == 'u');
    assert("copilot_get_token"@[12] == 't');
    assert("copilot_list_accounts"@[8] == 'l');
    assert("copilot_poll_for_auth"@[8] == 'p');
    assert("copilot_poll_for_account"@[8] == 'p');
    assert("copilot_is_authenticated"@[8] == 'i');
    assert("copilot_get_usage_for_account"@[12] == 'u');
    assert("copilot_get_token_for_account"@[12] == 't');
    lemma_only(Module::Copilot, "copilot_start_device_flow"@, args);
    lemma_only(Module::Copilot, "copilot_poll_for_auth"@, args);
    lemma_only(Module::Copilot, "copilot_get_auth_status"@, args);
    lemma_only(Module::Copilot, "copilot_logout"@, args);
    lemma_only(Module::Copilot, "copilot_is_authenticated"@, args);
    lemma_only(Module::Copilot, "copilot_get_token"@, args);
    lemma_only(Module::Copilot, "copilot_get_models"@, args);
    lemma_only(Module::Copilot, "copilot_get_usage"@, args);
    lemma_only(Module::Copilot, "copilot_list_accounts"@, args);
    lemma_only(Module::Copilot, "copilot_poll_for_account"@, args);
    lemma_only(Module::Copilot, "copilot_remove_account"@, args);
    lemma_only(Module::Copilot, "copilot_set_default_account"@, args);
    lemma_only(Module::Copilot, "copilot_get_token_for_account"@, args);
    lemma_only(Module::Copilot, "copilot_get_models_for_account"@, args);
    lemma_only(Module::Copilot, "copilot_get_usage_for_account"@, args);
}

/// Each command on backups runs its own operation, with its own arguments.
pub proof fn law_db_backup_commands_run_their_own_operations(args: JsonView)
    ensures
        does("create_db_backup"@, args, "database.backup_file"@, seq![], Shape::Value),
        does(
            "has_codex_unify_history_backup"@,
            args,
            "codex_history.has_backup"@,
            seq![],
            Shape::Value,
        ),
        does(
            "restore_codex_unified_history"@,
            args,
            "codex_history.restore"@,
            seq![],
            Shape::Value,
        ),
{
    reveal_strlit("create_db_backup");
    reveal_strlit("has_codex_unify_history_backup");
    reveal_strlit("restore_codex_unified_history");
    assert("create_db_backup"@.len() == 16);
    assert("has_codex_unify_history_backup"@.len() == 30);
    assert("restore_codex_unified_history"@.len() == 29);
    lemma_only(Module::DbBackup, "create_db_backup"@, args);
    lemma_only(Module::DbBackup, "has_codex_unify_history_backup"@, args);
    lemma_only(Module::DbBackup, "restore_codex_unified_history"@, args);
}

/// Each command on links runs its own operation, with its own arguments.
pub proof fn law_deeplink_commands_run_their_own_operations(args: JsonView)
    ensures
        does(
            "parse_deeplink"@,
            args,
            "deeplink.parse"@,
            seq![(ArgKind::Text, "url"@)],
            Shape::Value,
        ),
        does(
            "import_from_deeplink_unified"@,
            args,
            "deeplink.import"@,
            seq![(ArgKind::Typed, "request"@)],
            Shape::Value,
        ),
{
    reveal_strlit("parse_deeplink");
    reveal_strlit("import_from_deeplink_unified");
    assert("parse_deeplink"@.len() == 14);
    assert("import_from_deeplink_unified"@.len() == 28);
    lemma_only(Module::Deeplink, "parse_deeplink"@, args);
    lemma_only(Module::Deeplink, "import_from_deeplink_unified"@, args);
}

/// Each command on the environment runs its own operation, with its own arguments.
pub proof fn law_env_commands_run_their_own_operations(args: JsonView)
    ensures
        does(
            "check_env_conflicts"@,
            args,
            "env.check_conflicts"@,
            seq![(ArgKind::App, "app"@)],
            Shape::Value,
        ),
        does(
            "delete_env_vars"@,
            args,
            "env.delete_vars"@,
            seq![(ArgKind::Typed, "conflicts"@)],
            Shape::Value,
        ),
        does(
            "restore_env_backup"@,
            args,
            "env.restore_from_backup"@,
            seq![(ArgKind::Text, "backupPath"@)],
            Shape::Null,
        ),
{
    reveal_strlit("check_env_conflicts");
    reveal_strlit("delete_env_vars");
    reveal_strlit("restore_env_backup");
    assert("check_env_conflicts"@.len() == 19);
    assert("delete_env_vars"@.len() == 15);
    assert("restore_env_backup"@.len() == 18);
    lemma_only(Module::Env, "check_env_conflicts"@, args);
    lemma_only(Module::Env, "delete_env_vars"@, args);
    lemma_only(Module::Env, "restore_env_backup"@, args);
}

/// Each command on failover runs its own operation, with its own arguments.
pub proof fn law_failover_commands_run_their_own_operations(args: JsonView)
    ensures
        does(
            "get_provider_health"@,
            args,
            "failover.provider_health"@,
            seq![(ArgKind::Text, "providerId"@), (ArgKind::App, "appType"@)],
            Shape::Value,
        ),
        does_all(
            "reset_circuit_breaker"@,
            args,
            seq![("failover.mark_healthy"@, true), ("failover.reset_breaker"@, true)],
            seq![(ArgKind::Text, "providerId"@), (ArgKind::App, "appType"@)],
            Shape::Null,
        ),
        does(
            "get_circuit_breaker_config"@,
            args,
            "failover.breaker_config"@,
            seq![],
            Shape::Value,
        ),
        does_all(
            "update_circuit_breaker_config"@,
            args,
            seq![
                ("failover.save_breaker_config"@, true),
                ("failover.apply_breaker_config"@, true),
            ],
            seq![(ArgKind::Typed, "config"@)],
            Shape::Null,
        ),
        does_all(
            "get_circuit_breaker_stats"@,
            args,
            seq![],
            seq![(ArgKind::Text, "providerId"@), (ArgKind::App, "appType"@)],
            Shape::Null,
        ),
        does(
            "get_failover_queue"@,
            args,
            "failover.queue"@,
            seq![(ArgKind::App, "appType"@)],
            Shape::Value,
        ),
        does(
            "get_available_providers_for_failover"@,
            args,
            "failover.available_providers"@,
            seq![(ArgKind::App, "appType"@)],
            Shape::Value,
        ),
        does(
            "add_to_failover_queue"@,
            args,
            "failover.add_to_queue"@,
            seq![(ArgKind::App, "appType"@), (ArgKind::Text, "providerId"@)],
            Shape::Null,
        ),
        does(
            "remove_from_failover_queue"@,
            args,
            "failover.remove_from_queue"@,
            seq![(ArgKind::App, "appType"@), (ArgKind::Text, "providerId"@)],
            Shape::Null,
        ),
        does(
            "get_auto_failover_enabled"@,
            args,
            "failover.auto_enabled"@,
            seq![(ArgKind::App, "appType"@)],
            Shape::Value,
        ),
        does(
            "set_auto_failover_enabled"@,
            args,
            "failover.set_auto_for_app"@,
            seq![(ArgKind::App, "appType"@), (ArgKind::Truth, "enabled"@)],
            Shape::Null,
        ),
{
    reveal_strlit("get_provider_health");
    reveal_strlit("reset_circuit_breaker");
    reveal_strlit("get_circuit_breaker_config");
    reveal_strlit("update_circuit_breaker_config");
    reveal_strlit("get_circuit_breaker_stats");
    reveal_strlit("get_failover_queue");
    reveal_strlit("get_available_providers_for_failover");
    reveal_strlit("add_to_failover_queue");
    reveal_strlit("remove_from_failover_queue");
    reveal_strlit("get_auto_failover_enabled");
    reveal_strlit("set_auto_failover_enabled");
    assert("get_provider_health"@.len() == 19);
    assert("reset_circuit_breaker"@.len() == 21);
    assert("get_circuit_breaker_config"@.len() == 26);
    assert("update_circuit_breaker_config"@.len() == 29);
    assert("get_circuit_breaker_stats"@.len() == 25);
    assert("get_failover_queue"@.len() == 18);
    assert("get_available_providers_for_failover"@.len() == 36);
    assert("add_to_failover_queue"@.len() == 21);
    assert("remove_from_failover_queue"@.len() == 26);
    assert("get_auto_failover_enabled"@.len() == 25);
    assert("set_auto_failover_enabled"@.len() == 25);
    assert("add_to_failover_queue"@[0] == 'a');
    assert("reset_circuit_breaker"@[0] == 'r');
    assert("remove_from_failover_queue"@[0] == 'r');
    assert("get_circuit_breaker_config"@[0] == 'g');
    assert("get_auto_failover_enabled"@[4] == 'a');
    assert("get_circuit_breaker_stats"@[4] == 'c');
    assert("set_auto_failover_enabled"@[0] == 's');
    assert("get_circuit_breaker_stats"@[0] == 'g');
    assert("get_auto_failover_enabled"@[0] == 'g');
    lemma_only(Module::Failover, "get_provider_health"@, args);
    lemma_only(Module::Failover, "reset_circuit_breaker"@, args);
    lemma_only(Module::Failover, "get_circuit_breaker_config"@, args);
    lemma_only(Module::Failover, "update_circuit_breaker_config"@, args);
    lemma_only(Module::Failover, "get_circuit_breaker_stats"@, args);
    lemma_only(Module::Failover, "get_failover_queue"@, args);
    lemma_only(Module::Failover, "get_available_providers_for_failover"@, args);
    lemma_only(Module::Failover, "add_to_failover_queue"@, args);
    lemma_only(Module::Failover, "remove_from_failover_queue"@, args);
    lemma_only(Module::Failover, "get_auto_failover_enabled"@, args);
    lemma_only(Module::Failover, "set_auto_failover_enabled"@, args);
}

/// Each command on the proxy of all requests runs its own operation, with its own arguments.
pub proof fn law_global_proxy_commands_run_their_own_operations(args: JsonView)
    ensures
        does("get_global_proxy_url"@, args, "global_proxy.url"@, seq![], Shape::Value),
        does(
            "set_global_proxy_url"@,
            args,
            "global_proxy.set_url"@,
            seq![(ArgKind::Text, "url"@)],
            Shape::Null,
        ),
{
    reveal_strlit("get_global_proxy_url");
    reveal_strlit("set_global_proxy_url");
    assert("get_global_proxy_url"@.len() == 20);
    assert("set_global_proxy_url"@.len() == 20);
    assert("set_global_proxy_url"@[0] == 's');
    assert("get_global_proxy_url"@[0] == 'g');
    lemma_only(Module::GlobalProxy, "get_global_proxy_url"@, args);
    lemma_only(Module::GlobalProxy, "set_global_proxy_url"@, args);
}

/// Each command on Hermes runs its own operation, with its own arguments.
pub proof fn law_hermes_commands_run_their_own_operations(args: JsonView)
    ensures
        does("get_hermes_model_config"@, args, "hermes.model_config"@, seq![], Shape::Value),
        does(
            "get_hermes_memory"@,
            args,
            "hermes.read_memory"@,
            seq![(ArgKind::Typed, "kind"@)],
            Shape::Value,
        ),
        does(
            "set_hermes_memory"@,
            args,
            "hermes.write_memory"@,
            seq![(ArgKind::Typed, "kind"@), (ArgKind::Text, "content"@)],
            Shape::Null,
        ),
        does(
            "get_hermes_memory_limits"@,
            args,
            "hermes.read_memory_limits"@,
            seq![],
            Shape::Value,
        ),
        does(
            "set_hermes_memory_enabled"@,
            args,
            "hermes.set_memory_enabled"@,
            seq![(ArgKind::Typed, "kind"@), (ArgKind::Flag, "enabled"@)],
            Shape::Null,
        ),
{
    reveal_strlit("get_hermes_model_config");
    reveal_strlit("get_hermes_memory");
    reveal_strlit("set_hermes_memory");
    reveal_strlit("get_hermes_memory_limits");
    reveal_strlit("set_hermes_memory_enabled");
    assert("get_hermes_model_config"@.len() == 23);
    assert("get_hermes_memory"@.len() == 17);
    assert("set_hermes_memory"@.len() == 17);
    assert("get_hermes_memory_limits"@.len() == 24);
    assert("set_hermes_memory_enabled"@.len() == 25);
    assert("set_hermes_memory"@[0] == 's');
    assert("get_hermes_memory"@[0] == 'g');
    lemma_only(Module::Hermes, "get_hermes_model_config"@, args);
    lemma_only(Module::Hermes, "get_hermes_memory"@, args);
    lemma_only(Module::Hermes, "set_hermes_memory"@, args);
    lemma_only(Module::Hermes, "get_hermes_memory_limits"@, args);
    lemma_only(Module::Hermes, "set_hermes_memory_enabled"@, args);
}

/// Each command on servers runs its own operation, with its own arguments.
pub proof fn law_mcp_commands_run_their_own_operations(args: JsonView)
    ensures
        does("get_mcp_servers"@, args, "mcp.all_servers"@, seq![], Shape::Value),
        does(
            "upsert_mcp_server"@,
            args,
            "mcp.upsert_server"@,
            seq![(ArgKind::Typed, "server"@)],
            Shape::Null,
        ),
        does(
            "delete_mcp_server"@,
            args,
            "mcp.delete_server"@,
            seq![(ArgKind::Text, "id"@)],
            Shape::Value,
        ),
        does(
            "toggle_mcp_app"@,
            args,
            "mcp.toggle_app"@,
            seq![
                (ArgKind::Text, "serverId"@),
                (ArgKind::App, "app"@),
                (ArgKind::Flag, "enabled"@),
            ],
            Shape::Null,
        ),
        does(
            "import_mcp_from_apps"@,
            args,
            "mcp.import_from_supported_apps"@,
            seq![],
            Shape::Value,
        ),
        does(
            "validate_mcp_command"@,
            args,
            "mcp.command_is_on_path"@,
            seq![(ArgKind::Text, "cmd"@)],
            Shape::Value,
        ),
{
    reveal_strlit("get_mcp_servers");
    reveal_strlit("upsert_mcp_server");
    reveal_strlit("delete_mcp_server");
    reveal_strlit("toggle_mcp_app");
    reveal_strlit("import_mcp_from_apps");
    reveal_strlit("validate_mcp_command");
    assert("get_mcp_servers"@.len() == 15);
    assert("upsert_mcp_server"@.len() == 17);
    assert("delete_mcp_server"@.len() == 17);
    assert("toggle_mcp_app"@.len() == 14);
    assert("import_mcp_from_apps"@.len() == 20);
    assert("validate_mcp_command"@.len() == 20);
    assert("delete_mcp_server"@[0] == 'd');
    assert("upsert_mcp_server"@[0] == 'u');
    assert("validate_mcp_command"@[0] == 'v');
    assert("import_mcp_from_apps"@[0] == 'i');
    lemma_only(Module::Mcp, "get_mcp_servers"@, args);
    lemma_only(Module::Mcp, "upsert_mcp_server"@, args);
    lemma_only(Module::Mcp, "delete_mcp_server"@, args);
    lemma_only(Module::Mcp, "toggle_mcp_app"@, args);
    lemma_only(Module::Mcp, "import_mcp_from_apps"@, args);
    lemma_only(Module::Mcp, "validate_mcp_command"@, args);
}

/// Each command on the servers of an application runs its own operation, with its own arguments.
pub proof fn law_mcp_config_commands_run_their_own_operations(args: JsonView)
    ensures
        does("get_claude_mcp_status"@, args, "claude_mcp.status"@, seq![], Shape::Value),
        does("read_claude_mcp_config"@, args, "claude_mcp.read_json"@, seq![], Shape::Value),
        does(
            "upsert_claude_mcp_server"@,
            args,
            "claude_mcp.upsert_server"@,
            seq![(ArgKind::Text, "id"@), (ArgKind::Present, "spec"@)],
            Shape::Value,
        ),
        does(
            "delete_claude_mcp_server"@,
            args,
            "claude_mcp.delete_server"@,
            seq![(ArgKind::Text, "id"@)],
            Shape::Value,
        ),
        does(
            "get_mcp_config"@,
            args,
            "mcp.config_of_app"@,
            seq![(ArgKind::App, "app"@)],
            Shape::Value,
        ),
        does(
            "upsert_mcp_server_in_config"@,
            args,
            "mcp.upsert_server_of_app"@,
            seq![
                (ArgKind::App, "app"@),
                (ArgKind::Text, "id"@),
                (ArgKind::Present, "spec"@),
                (ArgKind::Flag, "syncOtherSide"@),
            ],
            Shape::True,
        ),
        does(
            "delete_mcp_server_in_config"@,
            args,
            "mcp.delete_server"@,
            seq![(ArgKind::Text, "id"@)],
            Shape::Value,
        ),
        does(
            "set_mcp_enabled"@,
            args,
            "mcp.set_enabled"@,
            seq![(ArgKind::App, "app"@), (ArgKind::Text, "id"@), (ArgKind::Flag, "enabled"@)],
            Shape::Value,
        ),
{
    reveal_strlit("get_claude_mcp_status");
    reveal_strlit("read_claude_mcp_config");
    reveal_strlit("upsert_claude_mcp_server");
    reveal_strlit("delete_claude_mcp_server");
    reveal_strlit("get_mcp_config");
    reveal_strlit("upsert_mcp_server_in_config");
    reveal_strlit("delete_mcp_server_in_config");
    reveal_strlit("set_mcp_enabled");
    assert("get_claude_mcp_status"@.len() == 21);
    assert("read_claude_mcp_config"@.len() == 22);
    assert("upsert_claude_mcp_server"@.len() == 24);
    assert("delete_claude_mcp_server"@.len() == 24);
    assert("get_mcp_config"@.len() == 14);
    assert("upsert_mcp_server_in_config"@.len() == 27);
    assert("delete_mcp_server_in_config"@.len() == 27);
    assert("set_mcp_enabled"@.len() == 15);
    assert("delete_claude_mcp_server"@[0] == 'd');
    assert("upsert_claude_mcp_server"@[0] == 'u');
    assert("delete_mcp_server_in_config"@[0] == 'd');
    assert("upsert_mcp_server_in_config"@[0] == 'u');
    lemma_only(Module::McpConfig, "get_claude_mcp_status"@, args);
    lemma_only(Module::McpConfig, "read_claude_mcp_config"@, args);
    lemma_only(Module::McpConfig, "upsert_claude_mcp_server"@, args);
    lemma_only(Module::McpConfig, "delete_claude_mcp_server"@, args);
    lemma_only(Module::McpConfig, "get_mcp_config"@, args);
    lemma_only(Module::McpConfig, "upsert_mcp_server_in_config"@, args);
    lemma_only(Module::McpConfig, "delete_mcp_server_in_config"@, args);
    lemma_only(Module::McpConfig, "set_mcp_enabled"@, args);
}

/// Each command on the models of an account runs its own operation, with its own arguments.
pub proof fn law_model_fetch_commands_run_their_own_operations(args: JsonView)
    ensures
        does(
            "get_codex_oauth_models"@,
            args,
            "codex_oauth.models"@,
            seq![(ArgKind::OptionalText, "accountId"@)],
            Shape::Value,
        ),
{
    reveal_strlit("get_codex_oauth_models");
    assert("get_codex_oauth_models"@.len() == 22);
    lemma_only(Module::ModelFetch, "get_codex_oauth_models"@, args);
}

/// Each command on checks of a provider runs its own operation, with its own arguments.
pub proof fn law_model_test_commands_run_their_own_operations(args: JsonView)
    ensures
        does_all(
            "stream_check_provider"@,
            args,
            seq![
                ("stream_check.find_provider"@, true),
                ("stream_check.config"@, true),
                ("stream_check.run"@, true),
                ("stream_check.save_log"@, false),
            ],
            seq![(ArgKind::App, "appType"@), (ArgKind::Text, "providerId"@)],
            Shape::Value,
        ),
        does("get_stream_check_config"@, args, "stream_check.config"@, seq![], Shape::Value),
        does(
            "save_stream_check_config"@,
            args,
            "stream_check.save_config"@,
            seq![(ArgKind::Typed, "config"@)],
            Shape::Null,
        ),
{
    reveal_strlit("stream_check_provider");
    reveal_strlit("get_stream_check_config");
    reveal_strlit("save_stream_check_config");
    assert("stream_check_provider"@.len() == 21);
    assert("get_stream_check_config"@.len() == 23);
    assert("save_stream_check_config"@.len() == 24);
    lemma_only(Module::ModelTest, "stream_check_provider"@, args);
    lemma_only(Module::ModelTest, "get_stream_check_config"@, args);
    lemma_only(Module::ModelTest, "save_stream_check_config"@, args);
}

/// Each command on OpenClaw runs its own operation, with its own arguments.
pub proof fn law_openclaw_commands_run_their_own_operations(args: JsonView)
    ensures
        does("get_openclaw_default_model"@, args, "openclaw.default_model"@, seq![], Shape::Value),
        does(
            "set_openclaw_default_model"@,
            args,
            "openclaw.set_default_model"@,
            seq![(ArgKind::Typed, "model"@)],
            Shape::Value,
        ),
        does("get_openclaw_model_catalog"@, args, "openclaw.model_catalog"@, seq![], Shape::Value),
        does(
            "set_openclaw_model_catalog"@,
            args,
            "openclaw.set_model_catalog"@,
            seq![(ArgKind::Typed, "catalog"@)],
            Shape::Value,
        ),
        does(
            "get_openclaw_agents_defaults"@,
            args,
            "openclaw.agents_defaults"@,
            seq![],
            Shape::Value,
        ),
        does(
            "set_openclaw_agents_defaults"@,
            args,
            "openclaw.set_agents_defaults"@,
            seq![(ArgKind::Typed, "defaults"@)],
            Shape::Value,
        ),
        does("get_openclaw_env"@, args, "openclaw.env"@, seq![], Shape::Value),
        does(
            "set_openclaw_env"@,
            args,
            "openclaw.set_env"@,
            seq![(ArgKind::Typed, "env"@)],
            Shape::Value,
        ),
        does("get_openclaw_tools"@, args, "openclaw.tools"@, seq![], Shape::Value),
        does(
            "set_openclaw_tools"@,
            args,
            "openclaw.set_tools"@,
            seq![(ArgKind::Typed, "tools"@)],
            Shape::Value,
        ),
        does("scan_openclaw_config_health"@, args, "openclaw.scan_health"@, seq![], Shape::Value),
        does(
            "get_openclaw_live_provider"@,
            args,
            "openclaw.provider"@,
            seq![(ArgKind::Text, "providerId"@)],
            Shape::Value,
        ),
{
    reveal_strlit("get_openclaw_default_model");
    reveal_strlit("set_openclaw_default_model");
    reveal_strlit("get_openclaw_model_catalog");
    reveal_strlit("set_openclaw_model_catalog");
    reveal_strlit("get_openclaw_agents_defaults");
    reveal_strlit("set_openclaw_agents_defaults");
    reveal_strlit("get_openclaw_env");
    reveal_strlit("set_openclaw_env");
    reveal_strlit("get_openclaw_tools");
    reveal_strlit("set_openclaw_tools");
    reveal_strlit("scan_openclaw_config_health");
    reveal_strlit("get_openclaw_live_provider");
    assert("get_openclaw_default_model"@.len() == 26);
    assert("set_openclaw_default_model"@.len() == 26);
    assert("get_openclaw_model_catalog"@.len() == 26);
    assert("set_openclaw_model_catalog"@.len() == 26);
    assert("get_openclaw_agents_defaults"@.len() == 28);
    assert("set_openclaw_agents_defaults"@.len() == 28);
    assert("get_openclaw_env"@.len() == 16);
    assert("set_openclaw_env"@.len() == 16);
    assert("get_openclaw_tools"@.len() == 18);
    assert("set_openclaw_tools"@.len() == 18);
    assert("scan_openclaw_config_health"@.len() == 27);
    assert("get_openclaw_live_provider"@.len() == 26);
    assert("set_openclaw_default_model"@[0] == 's');
    assert("get_openclaw_default_model"@[0] == 'g');
    assert("get_openclaw_model_catalog"@[13] == 'm');
    assert("get_openclaw_default_model"@[13] == 'd');
    assert("get_openclaw_model_catalog"@[0] == 'g');
    assert("set_openclaw_model_catalog"@[0] == 's');
    assert("set_openclaw_model_catalog"@[13] == 'm');
    assert("set_openclaw_default_model"@[13] == 'd');
    assert("set_openclaw_agents_defaults"@[0] == 's');
    assert("get_openclaw_agents_defaults"@[0] == 'g');
    assert("set_openclaw_env"@[0] == 's');
    assert("get_openclaw_env"@[0] == 'g');
    assert("set_openclaw_tools"@[0] == 's');
    assert("get_openclaw_tools"@[0] == 'g');
    assert("get_openclaw_live_provider"@[13] == 'l');
    assert("get_openclaw_live_provider"@[0] == 'g');
    lemma_only(Module::Openclaw, "get_openclaw_default_model"@, args);
    lemma_only(Module::Openclaw, "set_openclaw_default_model"@, args);
    lemma_only(Module::Openclaw, "get_openclaw_model_catalog"@, args);
    lemma_only(Module::Openclaw, "set_openclaw_model_catalog"@, args);
    lemma_only(Module::Openclaw, "get_openclaw_agents_defaults"@, args);
    lemma_only(Module::Openclaw, "set_openclaw_agents_defaults"@, args);
    lemma_only(Module::Openclaw, "get_openclaw_env"@, args);
    lemma_only(Module::Openclaw, "set_openclaw_env"@, args);
    lemma_only(Module::Openclaw, "get_openclaw_tools"@, args);
    lemma_only(Module::Openclaw, "set_openclaw_tools"@, args);
    lemma_only(Module::Openclaw, "scan_openclaw_config_health"@, args);
    lemma_only(Module::Openclaw, "get_openclaw_live_provider"@, args);
}

/// Each command on the quota of an account runs its own operation, with its own arguments.
pub proof fn law_pricing_commands_run_their_own_operations(args: JsonView)
    ensures
        does(
            "get_codex_oauth_quota"@,
            args,
            "codex_oauth.quota"@,
            seq![(ArgKind::OptionalText, "accountId"@)],
            Shape::Value,
        ),
{
    reveal_strlit("get_codex_oauth_quota");
    assert("get_codex_oauth_quota"@.len() == 21);
    lemma_only(Module::Pricing, "get_codex_oauth_quota"@, args);
}

/// Each command on prompts runs its own operation, with its own arguments.
pub proof fn law_prompts_commands_run_their_own_operations(args: JsonView)
    ensures
        does("get_prompts"@, args, "prompts.list"@, seq![(ArgKind::App, "app"@)], Shape::Value),
        does(
            "upsert_prompt"@,
            args,
            "prompts.upsert"@,
            seq![(ArgKind::App, "app"@), (ArgKind::Text, "id"@), (ArgKind::Typed, "prompt"@)],
            Shape::Null,
        ),
        does(
            "delete_prompt"@,
            args,
            "prompts.delete"@,
            seq![(ArgKind::App, "app"@), (ArgKind::Text, "id"@)],
            Shape::Null,
        ),
        does(
            "enable_prompt"@,
            args,
            "prompts.enable"@,
            seq![(ArgKind::App, "app"@), (ArgKind::Text, "id"@)],
            Shape::Null,
        ),
        does(
            "import_prompt_from_file"@,
            args,
            "prompts.import_from_file"@,
            seq![(ArgKind::App, "app"@)],
            Shape::Value,
        ),
        does(
            "get_current_prompt_file_content"@,
            args,
            "prompts.current_file_content"@,
            seq![(ArgKind::App, "app"@)],
            Shape::Value,
        ),
{
    reveal_strlit("get_prompts");
    reveal_strlit("upsert_prompt");
    reveal_strlit("delete_prompt");
    reveal_strlit("enable_prompt");
    reveal_strlit("import_prompt_from_file");
    reveal_strlit("get_current_prompt_file_content");
    assert("get_prompts"@.len() == 11);
    assert("upsert_prompt"@.len() == 13);
    assert("delete_prompt"@.len() == 13);
    assert("enable_prompt"@.len() == 13);
    assert("import_prompt_from_file"@.len() == 23);
    assert("get_current_prompt_file_content"@.len() == 31);
    assert("delete_prompt"@[0] == 'd');
    assert("upsert_prompt"@[0] == 'u');
    assert("enable_prompt"@[0] == 'e');
    lemma_only(Module::Prompts, "get_prompts"@, args);
    lemma_only(Module::Prompts, "upsert_prompt"@, args);
    lemma_only(Module::Prompts, "delete_prompt"@, args);
    lemma_only(Module::Prompts, "enable_prompt"@, args);
    lemma_only(Module::Prompts, "import_prompt_from_file"@, args);
    lemma_only(Module::Prompts, "get_current_prompt_file_content"@, args);
}

/// Each command on the local proxy runs its own operation, with its own arguments.
pub proof fn law_proxy_commands_run_their_own_operations(args: JsonView)
    ensures
        does("start_proxy_server"@, args, "proxy.start"@, seq![], Shape::Value),
        does("stop_proxy_with_restore"@, args, "proxy.stop_with_restore"@, seq![], Shape::Null),
        does("get_proxy_status"@, args, "proxy.status"@, seq![], Shape::Value),
        does("is_proxy_running"@, args, "proxy.is_running"@, seq![], Shape::Value),
        does(
            "is_live_takeover_active"@,
            args,
            "proxy.is_live_takeover_active"@,
            seq![],
            Shape::Value,
        ),
        does_all(
            "switch_proxy_provider"@,
            args,
            seq![("proxy.check_target"@, true), ("proxy.switch_target"@, true)],
            seq![(ArgKind::Text, "appType"@), (ArgKind::Text, "providerId"@)],
            Shape::Null,
        ),
        does("get_proxy_takeover_status"@, args, "proxy.takeover_status"@, seq![], Shape::Value),
        does(
            "set_proxy_takeover_for_app"@,
            args,
            "proxy.set_takeover_for_app"@,
            seq![(ArgKind::Text, "appType"@), (ArgKind::Flag, "enabled"@)],
            Shape::Null,
        ),
        does("get_proxy_config"@, args, "proxy.config"@, seq![], Shape::Value),
        does(
            "update_proxy_config"@,
            args,
            "proxy.update_config"@,
            seq![(ArgKind::Typed, "config"@)],
            Shape::Null,
        ),
        does("get_global_proxy_config"@, args, "proxy.global_config"@, seq![], Shape::Value),
        does(
            "update_global_proxy_config"@,
            args,
            "proxy.update_global_config"@,
            seq![(ArgKind::Typed, "config"@)],
            Shape::Null,
        ),
        does(
            "get_proxy_config_for_app"@,
            args,
            "proxy.config_for_app"@,
            seq![(ArgKind::Text, "appType"@)],
            Shape::Value,
        ),
        does(
            "update_proxy_config_for_app"@,
            args,
            "proxy.update_config_for_app"@,
            seq![(ArgKind::Typed, "config"@)],
            Shape::Null,
        ),
        does(
            "get_default_cost_multiplier"@,
            args,
            "proxy.default_cost_multiplier"@,
            seq![(ArgKind::Text, "appType"@)],
            Shape::Value,
        ),
        does(
            "set_default_cost_multiplier"@,
            args,
            "proxy.set_default_cost_multiplier"@,
            seq![(ArgKind::Text, "appType"@), (ArgKind::Text, "value"@)],
            Shape::Null,
        ),
        does(
            "get_pricing_model_source"@,
            args,
            "proxy.pricing_model_source"@,
            seq![(ArgKind::Text, "appType"@)],
            Shape::Value,
        ),
        does(
            "set_pricing_model_source"@,
            args,
            "proxy.set_pricing_model_source"@,
            seq![(ArgKind::Text, "appType"@), (ArgKind::Text, "value"@)],
            Shape::Null,
        ),
{
    reveal_strlit("start_proxy_server");
    reveal_strlit("stop_proxy_with_restore");
    reveal_strlit("get_proxy_status");
    reveal_strlit("is_proxy_running");
    reveal_strlit("is_live_takeover_active");
    reveal_strlit("switch_proxy_provider");
    reveal_strlit("get_proxy_takeover_status");
    reveal_strlit("set_proxy_takeover_for_app");
    reveal_strlit("get_proxy_config");
    reveal_strlit("update_proxy_config");
    reveal_strlit("get_global_proxy_config");
    reveal_strlit("update_global_proxy_config");
    reveal_strlit("get_proxy_config_for_app");
    reveal_strlit("update_proxy_config_for_app");
    reveal_strlit("get_default_cost_multiplier");
    reveal_strlit("set_default_cost_multiplier");
    reveal_strlit("get_pricing_model_source");
    reveal_strlit("set_pricing_model_source");
    assert("start_proxy_server"@.len() == 18);
    assert("stop_proxy_with_restore"@.len() == 23);
    assert("get_proxy_status"@.len() == 16);
    assert("is_proxy_running"@.len() == 16);
    assert("is_live_takeover_active"@.len() == 23);
    assert("switch_proxy_provider"@.len() == 21);
    assert("get_proxy_takeover_status"@.len() == 25);
    assert("set_proxy_takeover_for_app"@.len() == 26);
    assert("get_proxy_config"@.len() == 16);
    assert("update_proxy_config"@.len() == 19);
    assert("get_global_proxy_config"@.len() == 23);
    assert("update_global_proxy_config"@.len() == 26);
    assert("get_proxy_config_for_app"@.len() == 24);
    assert("update_proxy_config_for_app"@.len() == 27);
    assert("get_default_cost_multiplier"@.len() == 27);
    assert("set_default_cost_multiplier"@.len() == 27);
    assert("get_pricing_model_source"@.len() == 24);
    assert("set_pricing_model_source"@.len() == 24);
    assert("is_proxy_running"@[0] == 'i');
    assert("get_proxy_status"@[0] == 'g');
    assert("is_live_takeover_active"@[0] == 'i');
    assert("stop_proxy_with_restore"@[0] == 's');
    assert("get_proxy_config"@[10] == 'c');
    assert("get_proxy_status"@[10] == 's');
    assert("get_proxy_config"@[0] == 'g');
    assert("get_global_proxy_config"@[0] == 'g');
    assert("update_global_proxy_config"@[0] == 'u');
    assert("set_proxy_takeover_for_app"@[0] == 's');
    assert("get_default_cost_multiplier"@[0] == 'g');
    assert("update_proxy_config_for_app"@[0] == 'u');
    assert("set_default_cost_multiplier"@[0] == 's');
    assert("get_pricing_model_source"@[6] == 'i');
    assert("get_proxy_config_for_app"@[6] == 'o');
    assert("set_pricing_model_source"@[0] == 's');
    assert("get_proxy_config_for_app"@[0] == 'g');
    assert("get_pricing_model_source"@[0] == 'g');
    lemma_only(Module::Proxy, "start_proxy_server"@, args);
    lemma_only(Module::Proxy, "stop_proxy_with_restore"@, args);
    lemma_only(Module::Proxy, "get_proxy_status"@, args);
    lemma_only(Module::Proxy, "is_proxy_running"@, args);
    lemma_only(Module::Proxy, "is_live_takeover_active"@, args);
    lemma_only(Module::Proxy, "switch_proxy_provider"@, args);
    lemma_only(Module::Proxy, "get_proxy_takeover_status"@, args);
    lemma_only(Module::Proxy, "set_proxy_takeover_for_app"@, args);
    lemma_only(Module::Proxy, "get_proxy_config"@, args);
    lemma_only(Module::Proxy, "update_proxy_config"@, args);
    lemma_only(Module::Proxy, "get_global_proxy_config"@, args);
    lemma_only(Module::Proxy, "update_global_proxy_config"@, args);
    lemma_only(Module::Proxy, "get_proxy_config_for_app"@, args);
    lemma_only(Module::Proxy, "update_proxy_config_for_app"@, args);
    lemma_only(Module::Proxy, "get_default_cost_multiplier"@, args);
    lemma_only(Module::Proxy, "set_default_cost_multiplier"@, args);
    lemma_only(Module::Proxy, "get_pricing_model_source"@, args);
    lemma_only(Module::Proxy, "set_pricing_model_source"@, args);
}

/// Each command that end the local proxy runs its own operation, with its own arguments.
pub proof fn law_proxy_extra_commands_run_their_own_operations(args: JsonView)
    ensures
        does("stop_proxy_server"@, args, "proxy.stop"@, seq![], Shape::Null),
{
    reveal_strlit("stop_proxy_server");
    assert("stop_proxy_server"@.len() == 17);
    lemma_only(Module::ProxyExtra, "stop_proxy_server"@, args);
}

/// Each command on sessions runs its own operation, with its own arguments.
pub proof fn law_sessions_commands_run_their_own_operations(args: JsonView)
    ensures
        does("list_sessions"@, args, "sessions.scan"@, seq![], Shape::Value),
        does(
            "get_session_messages"@,
            args,
            "sessions.load_messages"@,
            seq![(ArgKind::Text, "providerId"@), (ArgKind::Text, "sourcePath"@)],
            Shape::Value,
        ),
        does(
            "delete_session"@,
            args,
            "sessions.delete"@,
            seq![
                (ArgKind::Text, "providerId"@),
                (ArgKind::Text, "sessionId"@),
                (ArgKind::Text, "sourcePath"@),
            ],
            Shape::Value,
        ),
        does(
            "delete_sessions"@,
            args,
            "sessions.delete_many"@,
            seq![(ArgKind::Typed, "items"@)],
            Shape::Value,
        ),
{
    reveal_strlit("list_sessions");
    reveal_strlit("get_session_messages");
    reveal_strlit("delete_session");
    reveal_strlit("delete_sessions");
    assert("list_sessions"@.len() == 13);
    assert("get_session_messages"@.len() == 20);
    assert("delete_session"@.len() == 14);
    assert("delete_sessions"@.len() == 15);
    lemma_only(Module::Sessions, "list_sessions"@, args);
    lemma_only(Module::Sessions, "get_session_messages"@, args);
    lemma_only(Module::Sessions, "delete_session"@, args);
    lemma_only(Module::Sessions, "delete_sessions"@, args);
}

/// Each command on settings runs its own operation, with its own arguments.
pub proof fn law_settings_commands_run_their_own_operations(args: JsonView)
    ensures
        does(
            "export_config_to_file"@,
            args,
            "config.export_to_file"@,
            seq![(ArgKind::Text, "filePath"@)],
            Shape::Value,
        ),
        does(
            "import_config_from_file"@,
            args,
            "config.import_from_path"@,
            seq![(ArgKind::Text, "filePath"@)],
            Shape::Imported,
        ),
        does(
            "sync_current_providers_live"@,
            args,
            "providers.sync_current_to_live"@,
            seq![],
            Shape::Synchronized,
        ),
        args.field("official"@) == Some(JsonView::Bool(true)) ==> does(
            "apply_claude_plugin_config"@,
            args,
            "claude_plugin.clear"@,
            seq![],
            Shape::Value,
        ),
        args.field("official"@) != Some(JsonView::Bool(true)) ==> does(
            "apply_claude_plugin_config"@,
            args,
            "claude_plugin.write"@,
            seq![],
            Shape::Value,
        ),
        does(
            "apply_claude_onboarding_skip"@,
            args,
            "claude_mcp.set_completed_onboarding"@,
            seq![],
            Shape::Value,
        ),
        does(
            "clear_claude_onboarding_skip"@,
            args,
            "claude_mcp.clear_completed_onboarding"@,
            seq![],
            Shape::Value,
        ),
        does("get_rectifier_config"@, args, "settings.rectifier_config"@, seq![], Shape::Value),
        does(
            "set_rectifier_config"@,
            args,
            "settings.set_rectifier_config"@,
            seq![(ArgKind::Typed, "config"@)],
            Shape::True,
        ),
        does("get_optimizer_config"@, args, "settings.optimizer_config"@, seq![], Shape::Value),
        does(
            "set_optimizer_config"@,
            args,
            "settings.set_optimizer_config"@,
            seq![(ArgKind::Typed, "config"@)],
            Shape::True,
        ),
        does("get_log_config"@, args, "settings.log_config"@, seq![], Shape::Value),
        does(
            "set_log_config"@,
            args,
            "settings.set_log_config"@,
            seq![(ArgKind::Typed, "config"@)],
            Shape::True,
        ),
{
    reveal_strlit("export_config_to_file");
    reveal_strlit("import_config_from_file");
    reveal_strlit("sync_current_providers_live");
    reveal_strlit("apply_claude_plugin_config");
    reveal_strlit("apply_claude_onboarding_skip");
    reveal_strlit("clear_claude_onboarding_skip");
    reveal_strlit("get_rectifier_config");
    reveal_strlit("set_rectifier_config");
    reveal_strlit("get_optimizer_config");
    reveal_strlit("set_optimizer_config");
    reveal_strlit("get_log_config");
    reveal_strlit("set_log_config");
    assert("export_config_to_file"@.len() == 21);
    assert("import_config_from_file"@.len() == 23);
    assert("sync_current_providers_live"@.len() == 27);
    assert("apply_claude_plugin_config"@.len() == 26);
    assert("apply_claude_onboarding_skip"@.len() == 28);
    assert("clear_claude_onboarding_skip"@.len() == 28);
    assert("get_rectifier_config"@.len() == 20);
    assert("set_rectifier_config"@.len() == 20);
    assert("get_optimizer_config"@.len() == 20);
    assert("set_optimizer_config"@.len() == 20);
    assert("get_log_config"@.len() == 14);
    assert("set_log_config"@.len() == 14);
    assert("clear_claude_onboarding_skip"@[0] == 'c');
    assert("apply_claude_onboarding_skip"@[0] == 'a');
    assert("set_rectifier_config"@[0] == 's');
    assert("get_rectifier_config"@[0] == 'g');
    assert("get_optimizer_config"@[4] == 'o');
    assert("get_rectifier_config"@[4] == 'r');
    assert("get_optimizer_config"@[0] == 'g');
    assert("set_optimizer_config"@[0] == 's');
    assert("set_optimizer_config"@[4] == 'o');
    assert("set_rectifier_config"@[4] == 'r');
    assert("set_log_config"@[0] == 's');
    assert("get_log_config"@[0] == 'g');
    lemma_only(Module::Settings, "export_config_to_file"@, args);
    lemma_only(Module::Settings, "import_config_from_file"@, args);
    lemma_only(Module::Settings, "sync_current_providers_live"@, args);
    lemma_only(Module::Settings, "apply_claude_plugin_config"@, args);
    lemma_only(Module::Settings, "apply_claude_onboarding_skip"@, args);
    lemma_only(Module::Settings, "clear_claude_onboarding_skip"@, args);
    lemma_only(Module::Settings, "get_rectifier_config"@, args);
    lemma_only(Module::Settings, "set_rectifier_config"@, args);
    lemma_only(Module::Settings, "get_optimizer_config"@, args);
    lemma_only(Module::Settings, "set_optimizer_config"@, args);
    lemma_only(Module::Settings, "get_log_config"@, args);
    lemma_only(Module::Settings, "set_log_config"@, args);
}

/// Each command on skills runs its own operation, with its own arguments.
pub proof fn law_skills_commands_run_their_own_operations(args: JsonView)
    ensures
        does("get_installed_skills"@, args, "skills.list_installed"@, seq![], Shape::Value),
        does(
            "install_skill_unified"@,
            args,
            "skills.install_discovered"@,
            seq![(ArgKind::Typed, "skill"@), (ArgKind::App, "currentApp"@)],
            Shape::Value,
        ),
        does(
            "uninstall_skill_unified"@,
            args,
            "skills.uninstall"@,
            seq![(ArgKind::Text, "id"@)],
            Shape::EmptyObject,
        ),
        does(
            "toggle_skill_app"@,
            args,
            "skills.toggle_app"@,
            seq![(ArgKind::Text, "id"@), (ArgKind::App, "app"@), (ArgKind::Flag, "enabled"@)],
            Shape::True,
        ),
        does("scan_unmanaged_skills"@, args, "skills.scan_unmanaged"@, seq![], Shape::Value),
        does(
            "import_skills_from_apps"@,
            args,
            "skills.import_from_apps"@,
            seq![(ArgKind::Typed, "imports"@)],
            Shape::Value,
        ),
        does(
            "discover_available_skills"@,
            args,
            "skills.discover_available"@,
            seq![],
            Shape::Value,
        ),
        does("get_skills"@, args, "skills.list"@, seq![], Shape::Value),
        does(
            "get_skills_for_app"@,
            args,
            "skills.list"@,
            seq![(ArgKind::App, "app"@)],
            Shape::Value,
        ),
        does(
            "install_skill"@,
            args,
            "skills.install"@,
            seq![(ArgKind::FixedApp(AppType::Claude), "app"@), (ArgKind::Text, "directory"@)],
            Shape::True,
        ),
        does(
            "install_skill_for_app"@,
            args,
            "skills.install"@,
            seq![(ArgKind::App, "app"@), (ArgKind::Text, "directory"@)],
            Shape::True,
        ),
        does(
            "uninstall_skill"@,
            args,
            "skills.uninstall"@,
            seq![(ArgKind::Text, "directory"@)],
            Shape::EmptyObject,
        ),
        does(
            "uninstall_skill_for_app"@,
            args,
            "skills.set_for_app"@,
            seq![
                (ArgKind::App, "app"@),
                (ArgKind::Text, "directory"@),
                (ArgKind::FixedTruth(false), "enabled"@),
            ],
            Shape::EmptyObject,
        ),
        does("get_skill_repos"@, args, "skills.list_repos"@, seq![], Shape::Value),
        does(
            "add_skill_repo"@,
            args,
            "skills.upsert_repo"@,
            seq![(ArgKind::Typed, "repo"@)],
            Shape::True,
        ),
        does(
            "remove_skill_repo"@,
            args,
            "skills.remove_repo"@,
            seq![(ArgKind::Text, "owner"@), (ArgKind::Text, "name"@)],
            Shape::True,
        ),
{
    reveal_strlit("get_installed_skills");
    reveal_strlit("install_skill_unified");
    reveal_strlit("uninstall_skill_unified");
    reveal_strlit("toggle_skill_app");
    reveal_strlit("scan_unmanaged_skills");
    reveal_strlit("import_skills_from_apps");
    reveal_strlit("discover_available_skills");
    reveal_strlit("get_skills");
    reveal_strlit("get_skills_for_app");
    reveal_strlit("install_skill");
    reveal_strlit("install_skill_for_app");
    reveal_strlit("uninstall_skill");
    reveal_strlit("uninstall_skill_for_app");
    reveal_strlit("get_skill_repos");
    reveal_strlit("add_skill_repo");
    reveal_strlit("remove_skill_repo");
    assert("get_installed_skills"@.len() == 20);
    assert("install_skill_unified"@.len() == 21);
    assert("uninstall_skill_unified"@.len() == 23);
    assert("toggle_skill_app"@.len() == 16);
    assert("scan_unmanaged_skills"@.len() == 21);
    assert("import_skills_from_apps"@.len() == 23);
    assert("discover_available_skills"@.len() == 25);
    assert("get_skills"@.len() == 10);
    assert("get_skills_for_app"@.len() == 18);
    assert("install_skill"@.len() == 13);
    assert("install_skill_for_app"@.len() == 21);
    assert("uninstall_skill"@.len() == 15);
    assert("uninstall_skill_for_app"@.len() == 23);
    assert("get_skill_repos"@.len() == 15);
    assert("add_skill_repo"@.len() == 14);
    assert("remove_skill_repo"@.len() == 17);
    assert("scan_unmanaged_skills"@[0] == 's');
    assert("install_skill_unified"@[0] == 'i');
    assert("import_skills_from_apps"@[0] == 'i');
    assert("uninstall_skill_unified"@[0] == 'u');
    assert("install_skill_for_app"@[14] == 'f');
    assert("install_skill_unified"@[14] == 'u');
    assert("install_skill_for_app"@[0] == 'i');
    assert("uninstall_skill_for_app"@[16] == 'f');
    assert("uninstall_skill_unified"@[16] == 'u');
    assert("uninstall_skill_for_app"@[0] == 'u');
    assert("get_skill_repos"@[0] == 'g');
    assert("uninstall_skill"@[0] == 'u');
    lemma_only(Module::Skills, "get_installed_skills"@, args);
    lemma_only(Module::Skills, "install_skill_unified"@, args);
    lemma_only(Module::Skills, "uninstall_skill_unified"@, args);
    lemma_only(Module::Skills, "toggle_skill_app"@, args);
    lemma_only(Module::Skills, "scan_unmanaged_skills"@, args);
    lemma_only(Module::Skills, "import_skills_from_apps"@, args);
    lemma_only(Module::Skills, "discover_available_skills"@, args);
    lemma_only(Module::Skills, "get_skills"@, args);
    lemma_only(Module::Skills, "get_skills_for_app"@, args);
    lemma_only(Module::Skills, "install_skill"@, args);
    lemma_only(Module::Skills, "install_skill_for_app"@, args);
    lemma_only(Module::Skills, "uninstall_skill"@, args);
    lemma_only(Module::Skills, "uninstall_skill_for_app"@, args);
    lemma_only(Module::Skills, "get_skill_repos"@, args);
    lemma_only(Module::Skills, "add_skill_repo"@, args);
    lemma_only(Module::Skills, "remove_skill_repo"@, args);
}

/// Each command on subscriptions runs its own operation, with its own arguments.
pub proof fn law_subscription_commands_run_their_own_operations(args: JsonView)
    ensures
        does(
            "get_subscription_quota"@,
            args,
            "subscription.quota"@,
            seq![(ArgKind::Text, "tool"@)],
            Shape::Value,
        ),
        does(
            "get_coding_plan_quota"@,
            args,
            "subscription.coding_plan_quota"@,
            seq![(ArgKind::Text, "baseUrl"@), (ArgKind::Text, "apiKey"@)],
            Shape::Value,
        ),
        does(
            "get_balance"@,
            args,
            "subscription.balance"@,
            seq![(ArgKind::Text, "baseUrl"@), (ArgKind::Text, "apiKey"@)],
            Shape::Value,
        ),
{
    reveal_strlit("get_subscription_quota");
    reveal_strlit("get_coding_plan_quota");
    reveal_strlit("get_balance");
    assert("get_subscription_quota"@.len() == 22);
    assert("get_coding_plan_quota"@.len() == 21);
    assert("get_balance"@.len() == 11);
    lemma_only(Module::Subscription, "get_subscription_quota"@, args);
    lemma_only(Module::Subscription, "get_coding_plan_quota"@, args);
    lemma_only(Module::Subscription, "get_balance"@, args);
}

/// Each command on usage runs its own operation, with its own arguments.
pub proof fn law_usage_commands_run_their_own_operations(args: JsonView)
    ensures
        does(
            "queryProviderUsage"@,
            args,
            "usage.query_provider"@,
            seq![(ArgKind::App, "app"@), (ArgKind::Text, "providerId"@)],
            Shape::Value,
        ),
        does(
            "testUsageScript"@,
            args,
            "usage.test_script"@,
            seq![
                (ArgKind::App, "app"@),
                (ArgKind::Text, "providerId"@),
                (ArgKind::Text, "scriptCode"@),
                (ArgKind::Count(10), "timeout"@),
                (ArgKind::OptionalText, "apiKey"@),
                (ArgKind::OptionalText, "baseUrl"@),
                (ArgKind::OptionalText, "accessToken"@),
                (ArgKind::OptionalText, "userId"@),
                (ArgKind::OptionalText, "templateType"@),
            ],
            Shape::Value,
        ),
        does(
            "get_usage_summary"@,
            args,
            "usage.summary"@,
            seq![
                (ArgKind::OptionalSigned, "startDate"@),
                (ArgKind::OptionalSigned, "endDate"@),
                (ArgKind::OptionalText, "appType"@),
            ],
            Shape::Value,
        ),
        does(
            "get_usage_summary_by_app"@,
            args,
            "usage.summary_by_app"@,
            seq![(ArgKind::OptionalSigned, "startDate"@), (ArgKind::OptionalSigned, "endDate"@)],
            Shape::Value,
        ),
        does(
            "get_usage_trends"@,
            args,
            "usage.daily_trends"@,
            seq![
                (ArgKind::OptionalSigned, "startDate"@),
                (ArgKind::OptionalSigned, "endDate"@),
                (ArgKind::OptionalText, "appType"@),
            ],
            Shape::Value,
        ),
        does(
            "get_provider_stats"@,
            args,
            "usage.provider_stats"@,
            seq![
                (ArgKind::OptionalSigned, "startDate"@),
                (ArgKind::OptionalSigned, "endDate"@),
                (ArgKind::OptionalText, "appType"@),
            ],
            Shape::Value,
        ),
        does(
            "get_model_stats"@,
            args,
            "usage.model_stats"@,
            seq![
                (ArgKind::OptionalSigned, "startDate"@),
                (ArgKind::OptionalSigned, "endDate"@),
                (ArgKind::OptionalText, "appType"@),
            ],
            Shape::Value,
        ),
        does(
            "get_request_logs"@,
            args,
            "usage.request_logs"@,
            seq![
                (ArgKind::Typed, "filters"@),
                (ArgKind::Page(0), "page"@),
                (ArgKind::Page(20), "pageSize"@),
            ],
            Shape::Value,
        ),
        does(
            "get_request_detail"@,
            args,
            "usage.request_detail"@,
            seq![(ArgKind::Text, "requestId"@)],
            Shape::Value,
        ),
        does_all(
            "update_model_pricing"@,
            args,
            seq![("pricing.upsert_model"@, true), ("pricing.backfill_missing_costs"@, false)],
            seq![
                (ArgKind::Text, "modelId"@),
                (ArgKind::Text, "displayName"@),
                (ArgKind::Text, "inputCost"@),
                (ArgKind::Text, "outputCost"@),
                (ArgKind::Text, "cacheReadCost"@),
                (ArgKind::Text, "cacheCreationCost"@),
            ],
            Shape::Null,
        ),
        does(
            "delete_model_pricing"@,
            args,
            "pricing.delete_model"@,
            seq![(ArgKind::Text, "modelId"@)],
            Shape::Null,
        ),
        does(
            "check_provider_limits"@,
            args,
            "usage.check_provider_limits"@,
            seq![(ArgKind::Text, "providerId"@), (ArgKind::Text, "appType"@)],
            Shape::Value,
        ),
        does_all(
            "sync_session_usage"@,
            args,
            seq![("usage.sync_claude"@, true), ("usage.sync_others"@, true)],
            seq![],
            Shape::Value,
        ),
        does("get_usage_data_sources"@, args, "usage.data_sources"@, seq![], Shape::Value),
{
    reveal_strlit("queryProviderUsage");
    reveal_strlit("testUsageScript");
    reveal_strlit("get_usage_summary");
    reveal_strlit("get_usage_summary_by_app");
    reveal_strlit("get_usage_trends");
    reveal_strlit("get_provider_stats");
    reveal_strlit("get_model_stats");
    reveal_strlit("get_request_logs");
    reveal_strlit("get_request_detail");
    reveal_strlit("update_model_pricing");
    reveal_strlit("delete_model_pricing");
    reveal_strlit("check_provider_limits");
    reveal_strlit("sync_session_usage");
    reveal_strlit("get_usage_data_sources");
    assert("queryProviderUsage"@.len() == 18);
    assert("testUsageScript"@.len() == 15);
    assert("get_usage_summary"@.len() == 17);
    assert("get_usage_summary_by_app"@.len() == 24);
    assert("get_usage_trends"@.len() == 16);
    assert("get_provider_stats"@.len() == 18);
    assert("get_model_stats"@.len() == 15);
    assert("get_request_logs"@.len() == 16);
    assert("get_request_detail"@.len() == 18);
    assert("update_model_pricing"@.len() == 20);
    assert("delete_model_pricing"@.len() == 20);
    assert("check_provider_limits"@.len() == 21);
    assert("sync_session_usage"@.len() == 18);
    assert("get_usage_data_sources"@.len() == 22);
    assert("get_provider_stats"@[0] == 'g');
    assert("queryProviderUsage"@[0] == 'q');
    assert("get_model_stats"@[0] == 'g');
    assert("testUsageScript"@[0] == 't');
    assert("get_request_logs"@[4] == 'r');
    assert("get_usage_trends"@[4] == 'u');
    assert("get_request_detail"@[0] == 'g');
    assert("get_request_detail"@[4] == 'r');
    assert("get_provider_stats"@[4] == 'p');
    assert("delete_model_pricing"@[0] == 'd');
    assert("update_model_pricing"@[0] == 'u');
    assert("sync_session_usage"@[0] == 's');
    lemma_only(Module::Usage, "queryProviderUsage"@, args);
    lemma_only(Module::Usage, "testUsageScript"@, args);
    lemma_only(Module::Usage, "get_usage_summary"@, args);
    lemma_only(Module::Usage, "get_usage_summary_by_app"@, args);
    lemma_only(Module::Usage, "get_usage_trends"@, args);
    lemma_only(Module::Usage, "get_provider_stats"@, args);
    lemma_only(Module::Usage, "get_model_stats"@, args);
    lemma_only(Module::Usage, "get_request_logs"@, args);
    lemma_only(Module::Usage, "get_request_detail"@, args);
    lemma_only(Module::Usage, "update_model_pricing"@, args);
    lemma_only(Module::Usage, "delete_model_pricing"@, args);
    lemma_only(Module::Usage, "check_provider_limits"@, args);
    lemma_only(Module::Usage, "sync_session_usage"@, args);
    lemma_only(Module::Usage, "get_usage_data_sources"@, args);
}

/// Each command on endpoints runs its own operation, with its own arguments.
pub proof fn law_vscode_commands_run_their_own_operations(args: JsonView)
    ensures
        does(
            "read_live_provider_settings"@,
            args,
            "providers.read_live_settings"@,
            seq![(ArgKind::App, "app"@)],
            Shape::Value,
        ),
        does(
            "test_api_endpoints"@,
            args,
            "speedtest.test_endpoints"@,
            seq![(ArgKind::Typed, "urls"@), (ArgKind::OptionalTyped, "timeoutSecs"@)],
            Shape::Value,
        ),
        does(
            "get_custom_endpoints"@,
            args,
            "providers.custom_endpoints"@,
            seq![(ArgKind::App, "app"@), (ArgKind::Text, "providerId"@)],
            Shape::Value,
        ),
        does(
            "add_custom_endpoint"@,
            args,
            "providers.add_custom_endpoint"@,
            seq![(ArgKind::App, "app"@), (ArgKind::Text, "providerId"@), (ArgKind::Text, "url"@)],
            Shape::Null,
        ),
        does(
            "remove_custom_endpoint"@,
            args,
            "providers.remove_custom_endpoint"@,
            seq![(ArgKind::App, "app"@), (ArgKind::Text, "providerId"@), (ArgKind::Text, "url"@)],
            Shape::Null,
        ),
        does(
            "update_endpoint_last_used"@,
            args,
            "providers.update_endpoint_last_used"@,
            seq![(ArgKind::App, "app"@), (ArgKind::Text, "providerId"@), (ArgKind::Text, "url"@)],
            Shape::Null,
        ),
{
    reveal_strlit("read_live_provider_settings");
    reveal_strlit("test_api_endpoints");
    reveal_strlit("get_custom_endpoints");
    reveal_strlit("add_custom_endpoint");
    reveal_strlit("remove_custom_endpoint");
    reveal_strlit("update_endpoint_last_used");
    assert("read_live_provider_settings"@.len() == 27);
    assert("test_api_endpoints"@.len() == 18);
    assert("get_custom_endpoints"@.len() == 20);
    assert("add_custom_endpoint"@.len() == 19);
    assert("remove_custom_endpoint"@.len() == 22);
    assert("update_endpoint_last_used"@.len() == 25);
    lemma_only(Module::Vscode, "read_live_provider_settings"@, args);
    lemma_only(Module::Vscode, "test_api_endpoints"@, args);
    lemma_only(Module::Vscode, "get_custom_endpoints"@, args);
    lemma_only(Module::Vscode, "add_custom_endpoint"@, args);
    lemma_only(Module::Vscode, "remove_custom_endpoint"@, args);
    lemma_only(Module::Vscode, "update_endpoint_last_used"@, args);
}

/// Each command on workspace files runs its own operation, with its own arguments.
pub proof fn law_workspace_commands_run_their_own_operations(args: JsonView)
    ensures
        does(
            "read_workspace_file"@,
            args,
            "workspace.read_file"@,
            seq![(ArgKind::Text, "filename"@)],
            Shape::Value,
        ),
        does(
            "write_workspace_file"@,
            args,
            "workspace.write_file"@,
            seq![(ArgKind::Text, "filename"@), (ArgKind::Text, "content"@)],
            Shape::Null,
        ),
        does(
            "list_daily_memory_files"@,
            args,
            "workspace.list_daily_memory"@,
            seq![],
            Shape::Value,
        ),
        does(
            "read_daily_memory_file"@,
            args,
            "workspace.read_daily_memory"@,
            seq![(ArgKind::Text, "filename"@)],
            Shape::Value,
        ),
        does(
            "write_daily_memory_file"@,
            args,
            "workspace.write_daily_memory"@,
            seq![(ArgKind::Text, "filename"@), (ArgKind::Text, "content"@)],
            Shape::Null,
        ),
        does(
            "delete_daily_memory_file"@,
            args,
            "workspace.delete_daily_memory"@,
            seq![(ArgKind::Text, "filename"@)],
            Shape::Null,
        ),
        does(
            "search_daily_memory_files"@,
            args,
            "workspace.search_daily_memory"@,
            seq![(ArgKind::Text, "query"@)],
            Shape::Value,
        ),
{
    reveal_strlit("read_workspace_file");
    reveal_strlit("write_workspace_file");
    reveal_strlit("list_daily_memory_files");
    reveal_strlit("read_daily_memory_file");
    reveal_strlit("write_daily_memory_file");
    reveal_strlit("delete_daily_memory_file");
    reveal_strlit("search_daily_memory_files");
    assert("read_workspace_file"@.len() == 19);
    assert("write_workspace_file"@.len() == 20);
    assert("list_daily_memory_files"@.len() == 23);
    assert("read_daily_memory_file"@.len() == 22);
    assert("write_daily_memory_file"@.len() == 23);
    assert("delete_daily_memory_file"@.len() == 24);
    assert("search_daily_memory_files"@.len() == 25);
    assert("write_daily_memory_file"@[0] == 'w');
    assert("list_daily_memory_files"@[0] == 'l');
    lemma_only(Module::Workspace, "read_workspace_file"@, args);
    lemma_only(Module::Workspace, "write_workspace_file"@, args);
    lemma_only(Module::Workspace, "list_daily_memory_files"@, args);
    lemma_only(Module::Workspace, "read_daily_memory_file"@, args);
    lemma_only(Module::Workspace, "write_daily_memory_file"@, args);
    lemma_only(Module::Workspace, "delete_daily_memory_file"@, args);
    lemma_only(Module::Workspace, "search_daily_memory_files"@, args);
}

/// The commands on providers.
pub open spec fn is_provider_command(command: Seq<char>) -> bool {
    ||| command == "get_providers"@
    ||| command == "get_current_provider"@
    ||| command == "switch_provider"@
    ||| command == "add_provider"@
    ||| command == "update_provider"@
    ||| command == "delete_provider"@
    ||| command == "remove_provider_from_live_config"@
    ||| command == "import_default_config"@
    ||| command == "update_providers_sort_order"@
    ||| command == "import_opencode_providers_from_live"@
    ||| command == "import_openclaw_providers_from_live"@
    ||| command == "import_hermes_providers_from_live"@
}

/// What a command runs first.
pub open spec fn first_operation(command: Seq<char>, args: JsonView) -> Seq<char> {
    handlers::plan_of(command, args)->0.operations[0].name
}

/// No two commands on providers run the same operation.
pub proof fn law_provider_commands_run_distinct_operations(
    one: Seq<char>,
    other: Seq<char>,
    args: JsonView,
    other_args: JsonView,
)
    requires
        is_provider_command(one),
        is_provider_command(other),
        one != other,
    ensures
        first_operation(one, args) != first_operation(other, other_args),
{
    law_providers_commands_run_their_own_operations(args);
    law_providers_commands_run_their_own_operations(other_args);
    reveal_strlit("providers.list");
    reveal_strlit("providers.current");
    reveal_strlit("providers.switch");
    reveal_strlit("providers.add");
    reveal_strlit("providers.update");
    reveal_strlit("providers.delete");
    reveal_strlit("providers.remove_from_live_config");
    reveal_strlit("providers.import_default_config");
    reveal_strlit("providers.update_sort_order");
    reveal_strlit("providers.import_opencode_from_live");
    reveal_strlit("providers.import_openclaw_from_live");
    reveal_strlit("providers.import_hermes_from_live");
    assert("providers.list"@.len() == 14);
    assert("providers.current"@.len() == 17);
    assert("providers.switch"@.len() == 16);
    assert("providers.add"@.len() == 13);
    assert("providers.update"@.len() == 16);
    assert("providers.delete"@.len() == 16);
    assert("providers.remove_from_live_config"@.len() == 33);
    assert("providers.import_default_config"@.len() == 31);
    assert("providers.update_sort_order"@.len() == 27);
    assert("providers.import_opencode_from_live"@.len() == 35);
    assert("providers.import_openclaw_from_live"@.len() == 35);
    assert("providers.import_hermes_from_live"@.len() == 33);
    assert("providers.update"@[10] == 'u');
    assert("providers.switch"@[10] == 's');
    assert("providers.delete"@[10] == 'd');
    assert("providers.import_openclaw_from_live"@[22] == 'l');
    assert("providers.import_opencode_from_live"@[22] == 'o');
    assert("providers.import_hermes_from_live"@[10] == 'i');
    assert("providers.remove_from_live_config"@[10] == 'r');
}

} // verus!
