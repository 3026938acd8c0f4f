//! Whose a command is.
//!
//! No two modules have a command of the same name, so the order in which they are
//! asked does not matter.

use vstd::prelude::*;
#[allow(unused_imports)]
use crate::json::JsonView;
#[allow(unused_imports)]
use crate::web::handlers::{
    auth, config, config_misc, copilot, db_backup, deeplink, env, failover, global_proxy,
    hermes, mcp, mcp_config, meta, model_fetch, model_test, openclaw, pricing, prompts,
    providers, providers_extra, proxy, proxy_extra, sessions, settings, skills,
    subscription, usage, vscode, workspace,
};

verus! {

/// A module of commands. That of OMO has none.
#[derive(Debug, Clone, Copy, PartialEq, Eq, Structural)]
pub enum Module {
    Meta,
    Providers,
    ProvidersExtra,
    Auth,
    Config,
    ConfigMisc,
    Copilot,
    DbBackup,
    Deeplink,
    Env,
    Failover,
    GlobalProxy,
    Hermes,
    Mcp,
    McpConfig,
    ModelFetch,
    ModelTest,
    Openclaw,
    Pricing,
    Prompts,
    Proxy,
    ProxyExtra,
    Sessions,
    Settings,
    Skills,
    Subscription,
    Usage,
    Vscode,
    Workspace,
}

/// Whether a command is one of a module.
pub open spec fn claims(module: Module, command: Seq<char>, args: JsonView) -> bool {
    match module {
        Module::Meta => meta::plan_of(command) is Some,
        Module::Providers => providers::plan_of(command) is Some,
        Module::ProvidersExtra => providers_extra::plan_of(command) is Some,
        Module::Auth => auth::plan_of(command) is Some,
        Module::Config => config::plan_of(command, args) is Some,
        Module::ConfigMisc => config_misc::plan_of(command) is Some,
        Module::Copilot => copilot::plan_of(command) is Some,
        Module::DbBackup => db_backup::plan_of(command) is Some,
        Module::Deeplink => deeplink::plan_of(command) is Some,
        Module::Env => env::plan_of(command) is Some,
        Module::Failover => failover::plan_of(command) is Some,
        Module::GlobalProxy => global_proxy::plan_of(command) is Some,
        Module::Hermes => hermes::plan_of(command) is Some,
        Module::Mcp => mcp::plan_of(command) is Some,
        Module::McpConfig => mcp_config::plan_of(command) is Some,
        Module::ModelFetch => model_fetch::plan_of(command) is Some,
        Module::ModelTest => model_test::plan_of(command) is Some,
        Module::Openclaw => openclaw::plan_of(command) is Some,
        Module::Pricing => pricing::plan_of(command) is Some,
        Module::Prompts => prompts::plan_of(command) is Some,
        Module::Proxy => proxy::plan_of(command) is Some,
        Module::ProxyExtra => proxy_extra::plan_of(command) is Some,
        Module::Sessions => sessions::plan_of(command) is Some,
        Module::Settings => settings::plan_of(command, args) is Some,
        Module::Skills => skills::plan_of(command) is Some,
        Module::Subscription => subscription::plan_of(command) is Some,
        Module::Usage => usage::plan_of(command) is Some,
        Module::Vscode => vscode::plan_of(command) is Some,
        Module::Workspace => workspace::plan_of(command) is Some,
    }
}

/// The only module that a command can be one of, told from the length of its name and,
/// where that is not enough, from a letter of it.
spec fn home(command: Seq<char>) -> Module {
    if command.len() == 10 {
        Module::Skills
    } else if command.len() == 11 {
        if command[4] == '_' {
            Module::Auth
        } else if command[4] == 'b' {
            Module::Subscription
        } else {
            Module::Prompts
        }
    } else if command.len() == 12 {
        if command[0] == 'a' {
            Module::Providers
        } else {
            Module::Meta
        }
    } else if command.len() == 13 {
        if command[7] == '_' {
            Module::Skills
        } else if command[7] == 'p' {
            Module::Prompts
        } else if command[7] == 's' {
            Module::Sessions
        } else if command[7] == 't' {
            Module::Meta
        } else {
            Module::Providers
        }
    } else if command.len() == 14 {
        if command[3] == '_' {
            if command[4] == 'c' {
                Module::Meta
            } else if command[4] == 'l' {
                Module::Settings
            } else if command[4] == 'm' {
                Module::McpConfig
            } else {
                Module::Skills
            }
        } else if command[3] == 'e' {
            Module::Sessions
        } else if command[3] == 'g' {
            Module::Mcp
        } else if command[3] == 'i' {
            Module::Copilot
        } else {
            Module::Deeplink
        }
    } else if command.len() == 15 {
        if command[1] == 'e' {
            if command[command.len() - 1] == 's' {
                if command[5] == 'e' {
                    if command[7] == 'e' {
                        Module::Env
                    } else {
                        Module::Sessions
                    }
                } else if command[5] == 'c' {
                    Module::Mcp
                } else if command[5] == 'k' {
                    Module::Skills
                } else {
                    Module::Usage
                }
            } else if command[command.len() - 1] == 'd' {
                Module::McpConfig
            } else if command[command.len() - 1] == 'n' {
                Module::Meta
            } else if command[command.len() - 1] == 'r' {
                Module::Providers
            } else {
                Module::Usage
            }
        } else if command[1] == 'n' {
            Module::Skills
        } else if command[1] == 'u' {
            Module::Auth
        } else {
            Module::Providers
        }
    } else if command.len() == 16 {
        if command[command.len() - 6] == '_' {
            Module::Auth
        } else if command[command.len() - 6] == 'a' {
            Module::Openclaw
        } else if command[command.len() - 6] == 'b' {
            Module::DbBackup
        } else if command[command.len() - 6] == 'l' {
            Module::Skills
        } else if command[command.len() - 6] == 't' {
            Module::Usage
        } else if command[command.len() - 6] == 'e' || command[command.len() - 6] == 'y' {
            Module::Meta
        } else {
            Module::Proxy
        }
    } else if command.len() == 17 {
        if command[9] == '_' {
            Module::Usage
        } else if command[9] == 'e' {
            Module::Copilot
        } else if command[9] == 'i' {
            Module::Skills
        } else if command[9] == 'p' {
            Module::Mcp
        } else if command[9] == 's' {
            Module::Hermes
        } else {
            Module::ProxyExtra
        }
    } else if command.len() == 18 {
        if command[command.len() - 4] == 'u' {
            if command[0] == 'a' {
                Module::Auth
            } else {
                Module::Failover
            }
        } else if command[command.len() - 4] == '_' {
            Module::Skills
        } else if command[command.len() - 4] == 'c' {
            Module::Env
        } else if command[command.len() - 4] == 'd' {
            Module::Copilot
        } else if command[command.len() - 4] == 'i' {
            Module::Vscode
        } else if command[command.len() - 4] == 'l' {
            Module::Config
        } else if command[command.len() - 4] == 'o' {
            Module::Openclaw
        } else if command[command.len() - 4] == 'r' {
            Module::Proxy
        } else {
            Module::Usage
        }
    } else if command.len() == 19 {
        if command[7] == '_' {
            Module::Meta
        } else if command[7] == 'm' {
            Module::Auth
        } else if command[7] == 'n' {
            Module::Env
        } else if command[7] == 'p' {
            Module::Proxy
        } else if command[7] == 'r' {
            Module::Workspace
        } else if command[7] == 't' {
            Module::Vscode
        } else {
            Module::Failover
        }
    } else if command.len() == 20 {
        if command[1] == 'e' {
            if command[command.len() - 3] == 'd' {
                Module::Providers
            } else if command[command.len() - 3] == 'f' {
                Module::Settings
            } else if command[command.len() - 3] == 'g' {
                Module::Sessions
            } else if command[command.len() - 3] == 'i' {
                Module::Usage
            } else if command[command.len() - 3] == 'l' {
                Module::Skills
            } else if command[command.len() - 3] == 'n' {
                Module::Vscode
            } else if command[command.len() - 3] == 'o' {
                Module::Config
            } else {
                Module::GlobalProxy
            }
        } else if command[1] == 'p' {
            Module::Usage
        } else if command[1] == 'r' {
            Module::Workspace
        } else {
            Module::Mcp
        }
    } else if command.len() == 21 {
        if command[1] == 'e' {
            if command[8] == 'd' {
                Module::McpConfig
            } else if command[8] == 'n' {
                Module::Subscription
            } else if command[8] == 'r' {
                Module::Failover
            } else {
                Module::Pricing
            }
        } else if command[1] == 'd' {
            Module::Failover
        } else if command[1] == 'h' {
            Module::Usage
        } else if command[1] == 'm' {
            Module::Providers
        } else if command[1] == 'o' {
            Module::Copilot
        } else if command[1] == 't' {
            Module::ModelTest
        } else if command[1] == 'u' {
            Module::Auth
        } else if command[1] == 'w' {
            Module::Proxy
        } else if command[1] == 'x' {
            Module::Settings
        } else {
            Module::Skills
        }
    } else if command.len() == 22 {
        if command[7] == '_' {
            Module::Copilot
        } else if command[7] == 'a' {
            Module::McpConfig
        } else if command[7] == 'c' {
            Module::Vscode
        } else if command[7] == 'e' {
            Module::ModelFetch
        } else if command[7] == 'g' {
            Module::Usage
        } else if command[7] == 'i' {
            Module::Workspace
        } else {
            Module::Subscription
        }
    } else if command.len() == 23 {
        if command[5] == 't' {
            if command[7] == 'c' {
                Module::Settings
            } else if command[7] == 'e' {
                Module::ModelTest
            } else if command[7] == 'p' {
                Module::Prompts
            } else {
                Module::Skills
            }
        } else if command[5] == 'e' {
            Module::Hermes
        } else if command[5] == 'o' {
            Module::Copilot
        } else if command[5] == '_' || command[5] == 'd' {
            Module::Workspace
        } else {
            Module::Proxy
        }
    } else if command.len() == 24 {
        if command[1] == 'e' {
            if command[command.len() - 5] == '_' {
                Module::Workspace
            } else if command[command.len() - 5] == 'e' {
                Module::McpConfig
            } else if command[command.len() - 5] == 'i' {
                Module::Hermes
            } else if command[command.len() - 5] == 'y' {
                Module::Usage
            } else {
                Module::Proxy
            }
        } else if command[1] == 'a' {
            Module::ModelTest
        } else if command[1] == 'o' {
            Module::Copilot
        } else if command[1] == 'p' {
            Module::McpConfig
        } else {
            Module::Auth
        }
    } else if command.len() == 25 {
        if command[1] == 'e' {
            if command[2] == 't' {
                if command[command.len() - 2] == 'e' {
                    if command[7] == 'm' {
                        if command[0] == 's' {
                            if command[4] == 'c' {
                                Module::Config
                            } else {
                                Module::Hermes
                            }
                        } else {
                            Module::Meta
                        }
                    } else {
                        Module::Failover
                    }
                } else if command[command.len() - 2] == 't' {
                    Module::Failover
                } else {
                    Module::Proxy
                }
            } else {
                Module::Workspace
            }
        } else if command[1] == 'i' {
            Module::Skills
        } else if command[1] == 'o' {
            Module::Copilot
        } else {
            Module::Vscode
        }
    } else if command.len() == 26 {
        if command[4] == 'o' {
            Module::Openclaw
        } else if command[4] == 'y' {
            Module::Settings
        } else if command[4] == 'c' || command[4] == 'v' {
            Module::Failover
        } else {
            Module::Proxy
        }
    } else if command.len() == 27 {
        if command[6] == '_' {
            if command[command.len() - 1] == 'g' {
                Module::McpConfig
            } else if command[command.len() - 1] == 'p' {
                Module::Proxy
            } else {
                Module::Providers
            }
        } else if command[6] == 'a' {
            Module::ConfigMisc
        } else if command[6] == 'f' {
            Module::Proxy
        } else if command[6] == 'i' {
            Module::Vscode
        } else if command[6] == 'p' {
            Module::Openclaw
        } else if command[6] == 't' {
            Module::Copilot
        } else {
            Module::Settings
        }
    } else if command.len() == 28 {
        if command[5] == '_' {
            Module::Settings
        } else if command[5] == 'e' {
            Module::ProvidersExtra
        } else if command[5] == 'p' {
            Module::Openclaw
        } else {
            Module::Deeplink
        }
    } else if command.len() == 29 {
        if command[0] == 'c' {
            Module::Copilot
        } else if command[0] == 'e' {
            Module::Config
        } else if command[0] == 'r' {
            Module::DbBackup
        } else {
            Module::Failover
        }
    } else if command.len() == 30 {
        if command[0] == 'c' {
            Module::Copilot
        } else if command[0] == 'g' {
            Module::ProvidersExtra
        } else {
            Module::DbBackup
        }
    } else if command.len() == 31 {
        Module::Prompts
    } else if command.len() == 32 {
        if command[2] == 'm' {
            Module::Providers
        } else {
            Module::Config
        }
    } else if command.len() == 33 {
        Module::Providers
    } else if command.len() == 35 {
        Module::Providers
    } else {
        Module::Failover
    }
}

proof fn lemma_meta(command: Seq<char>)
    ensures
        meta::plan_of(command) is Some ==> home(command) == Module::Meta,
{
    reveal_strlit("get_settings");
    reveal_strlit("save_settings");
    reveal_strlit("get_config_dir");
    reveal_strlit("get_common_config_snippet");
    reveal_strlit("get_app_config_path");
    reveal_strlit("is_portable_mode");
    reveal_strlit("update_tray_menu");
    reveal_strlit("get_app_version");
}

proof fn lemma_providers(command: Seq<char>)
    ensures
        providers::plan_of(command) is Some ==> home(command) == Module::Providers,
{
    reveal_strlit("get_providers");
    reveal_strlit("get_current_provider");
    reveal_strlit("switch_provider");
    reveal_strlit("add_provider");
    reveal_strlit("update_provider");
    reveal_strlit("delete_provider");
    reveal_strlit("remove_provider_from_live_config");
    reveal_strlit("import_default_config");
    reveal_strlit("update_providers_sort_order");
    reveal_strlit("import_opencode_providers_from_live");
    reveal_strlit("import_openclaw_providers_from_live");
    reveal_strlit("import_hermes_providers_from_live");
}

proof fn lemma_providers_extra(command: Seq<char>)
    ensures
        providers_extra::plan_of(command) is Some ==> home(command) == Module::ProvidersExtra,
{
    reveal_strlit("get_opencode_live_provider_ids");
    reveal_strlit("get_openclaw_live_provider_ids");
    reveal_strlit("get_hermes_live_provider_ids");
}

proof fn lemma_auth(command: Seq<char>)
    ensures
        auth::plan_of(command) is Some ==> home(command) == Module::Auth,
{
    reveal_strlit("auth_start_login");
    reveal_strlit("auth_poll_for_account");
    reveal_strlit("auth_list_accounts");
    reveal_strlit("auth_get_status");
    reveal_strlit("auth_remove_account");
    reveal_strlit("auth_set_default_account");
    reveal_strlit("auth_logout");
}

proof fn lemma_config(command: Seq<char>, args: JsonView)
    ensures
        config::plan_of(command, args) is Some ==> home(command) == Module::Config,
{
    reveal_strlit("get_claude_common_config_snippet");
    reveal_strlit("set_claude_common_config_snippet");
    reveal_strlit("set_common_config_snippet");
    reveal_strlit("extract_common_config_snippet");
    reveal_strlit("webdav_sync_upload");
    reveal_strlit("webdav_sync_download");
}

proof fn lemma_config_misc(command: Seq<char>)
    ensures
        config_misc::plan_of(command) is Some ==> home(command) == Module::ConfigMisc,
{
    reveal_strlit("get_claude_code_config_path");
}

proof fn lemma_copilot(command: Seq<char>)
    ensures
        copilot::plan_of(command) is Some ==> home(command) == Module::Copilot,
{
    reveal_strlit("copilot_start_device_flow");
    reveal_strlit("copilot_poll_for_auth");
    reveal_strlit("copilot_get_auth_status");
    reveal_strlit("copilot_logout");
    reveal_strlit("copilot_is_authenticated");
    reveal_strlit("copilot_get_token");
    reveal_strlit("copilot_get_models");
    reveal_strlit("copilot_get_usage");
    reveal_strlit("copilot_list_accounts");
    reveal_strlit("copilot_poll_for_account");
    reveal_strlit("copilot_remove_account");
    reveal_strlit("copilot_set_default_account");
    reveal_strlit("copilot_get_token_for_account");
    reveal_strlit("copilot_get_models_for_account");
    reveal_strlit("copilot_get_usage_for_account");
}

proof fn lemma_db_backup(command: Seq<char>)
    ensures
        db_backup::plan_of(command) is Some ==> home(command) == Module::DbBackup,
{
    reveal_strlit("create_db_backup");
    reveal_strlit("has_codex_unify_history_backup");
    reveal_strlit("restore_codex_unified_history");
}

proof fn lemma_deeplink(command: Seq<char>)
    ensures
        deeplink::plan_of(command) is Some ==> home(command) == Module::Deeplink,
{
    reveal_strlit("parse_deeplink");
    reveal_strlit("import_from_deeplink_unified");
}

proof fn lemma_env(command: Seq<char>)
    ensures
        env::plan_of(command) is Some ==> home(command) == Module::Env,
{
    reveal_strlit("check_env_conflicts");
    reveal_strlit("delete_env_vars");
    reveal_strlit("restore_env_backup");
}

proof fn lemma_failover(command: Seq<char>)
    ensures
        failover::plan_of(command) is Some ==> home(command) == Module::Failover,
{
    reveal_strlit("get_provider_health");
    reveal_strlit("reset_circuit_breaker");
    reveal_strlit("get_circuit_breaker_config");
    reveal_strlit("update_circuit_breaker_config");
    reveal_strlit("get_circuit_breaker_stats");
    reveal_strlit("get_failover_queue");
    reveal_strlit("get_available_providers_for_failover");
    reveal_strlit("add_to_failover_queue");
    reveal_strlit("remove_from_failover_queue");
    reveal_strlit("get_auto_failover_enabled");
    reveal_strlit("set_auto_failover_enabled");
}

proof fn lemma_global_proxy(command: Seq<char>)
    ensures
        global_proxy::plan_of(command) is Some ==> home(command) == Module::GlobalProxy,
{
    reveal_strlit("get_global_proxy_url");
    reveal_strlit("set_global_proxy_url");
}

proof fn lemma_hermes(command: Seq<char>)
    ensures
        hermes::plan_of(command) is Some ==> home(command) == Module::Hermes,
{
    reveal_strlit("get_hermes_model_config");
    reveal_strlit("get_hermes_memory");
    reveal_strlit("set_hermes_memory");
    reveal_strlit("get_hermes_memory_limits");
    reveal_strlit("set_hermes_memory_enabled");
}

proof fn lemma_mcp(command: Seq<char>)
    ensures
        mcp::plan_of(command) is Some ==> home(command) == Module::Mcp,
{
    reveal_strlit("get_mcp_servers");
    reveal_strlit("upsert_mcp_server");
    reveal_strlit("delete_mcp_server");
    reveal_strlit("toggle_mcp_app");
    reveal_strlit("import_mcp_from_apps");
    reveal_strlit("validate_mcp_command");
}

proof fn lemma_mcp_config(command: Seq<char>)
    ensures
        mcp_config::plan_of(command) is Some ==> home(command) == Module::McpConfig,
{
    reveal_strlit("get_claude_mcp_status");
    reveal_strlit("read_claude_mcp_config");
    reveal_strlit("upsert_claude_mcp_server");
    reveal_strlit("delete_claude_mcp_server");
    reveal_strlit("get_mcp_config");
    reveal_strlit("upsert_mcp_server_in_config");
    reveal_strlit("delete_mcp_server_in_config");
    reveal_strlit("set_mcp_enabled");
}

proof fn lemma_model_fetch(command: Seq<char>)
    ensures
        model_fetch::plan_of(command) is Some ==> home(command) == Module::ModelFetch,
{
    reveal_strlit("get_codex_oauth_models");
}

proof fn lemma_model_test(command: Seq<char>)
    ensures
        model_test::plan_of(command) is Some ==> home(command) == Module::ModelTest,
{
    reveal_strlit("stream_check_provider");
    reveal_strlit("get_stream_check_config");
    reveal_strlit("save_stream_check_config");
}

proof fn lemma_openclaw(command: Seq<char>)
    ensures
        openclaw::plan_of(command) is Some ==> home(command) == Module::Openclaw,
{
    reveal_strlit("get_openclaw_default_model");
    reveal_strlit("set_openclaw_default_model");
    reveal_strlit("get_openclaw_model_catalog");
    reveal_strlit("set_openclaw_model_catalog");
    reveal_strlit("get_openclaw_agents_defaults");
    reveal_strlit("set_openclaw_agents_defaults");
    reveal_strlit("get_openclaw_env");
    reveal_strlit("set_openclaw_env");
    reveal_strlit("get_openclaw_tools");
    reveal_strlit("set_openclaw_tools");
    reveal_strlit("scan_openclaw_config_health");
    reveal_strlit("get_openclaw_live_provider");
}

proof fn lemma_pricing(command: Seq<char>)
    ensures
        pricing::plan_of(command) is Some ==> home(command) == Module::Pricing,
{
    reveal_strlit("get_codex_oauth_quota");
}

proof fn lemma_prompts(command: Seq<char>)
    ensures
        prompts::plan_of(command) is Some ==> home(command) == Module::Prompts,
{
    reveal_strlit("get_prompts");
    reveal_strlit("upsert_prompt");
    reveal_strlit("delete_prompt");
    reveal_strlit("enable_prompt");
    reveal_strlit("import_prompt_from_file");
    reveal_strlit("get_current_prompt_file_content");
}

proof fn lemma_proxy(command: Seq<char>)
    ensures
        proxy::plan_of(command) is Some ==> home(command) == Module::Proxy,
{
    reveal_strlit("start_proxy_server");
    reveal_strlit("stop_proxy_with_restore");
    reveal_strlit("get_proxy_status");
    reveal_strlit("is_proxy_running");
    reveal_strlit("is_live_takeover_active");
    reveal_strlit("switch_proxy_provider");
    reveal_strlit("get_proxy_takeover_status");
    reveal_strlit("set_proxy_takeover_for_app");
    reveal_strlit("get_proxy_config");
    reveal_strlit("update_proxy_config");
    reveal_strlit("get_global_proxy_config");
    reveal_strlit("update_global_proxy_config");
    reveal_strlit("get_proxy_config_for_app");
    reveal_strlit("update_proxy_config_for_app");
    reveal_strlit("get_default_cost_multiplier");
    reveal_strlit("set_default_cost_multiplier");
    reveal_strlit("get_pricing_model_source");
    reveal_strlit("set_pricing_model_source");
}

proof fn lemma_proxy_extra(command: Seq<char>)
    ensures
        proxy_extra::plan_of(command) is Some ==> home(command) == Module::ProxyExtra,
{
    reveal_strlit("stop_proxy_server");
}

proof fn lemma_sessions(command: Seq<char>)
    ensures
        sessions::plan_of(command) is Some ==> home(command) == Module::Sessions,
{
    reveal_strlit("list_sessions");
    reveal_strlit("get_session_messages");
    reveal_strlit("delete_session");
    reveal_strlit("delete_sessions");
}

proof fn lemma_settings(command: Seq<char>, args: JsonView)
    ensures
        settings::plan_of(command, args) is Some ==> home(command) == Module::Settings,
{
    reveal_strlit("export_config_to_file");
    reveal_strlit("import_config_from_file");
    reveal_strlit("sync_current_providers_live");
    reveal_strlit("apply_claude_plugin_config");
    reveal_strlit("apply_claude_onboarding_skip");
    reveal_strlit("clear_claude_onboarding_skip");
    reveal_strlit("get_rectifier_config");
    reveal_strlit("set_rectifier_config");
    reveal_strlit("get_optimizer_config");
    reveal_strlit("set_optimizer_config");
    reveal_strlit("get_log_config");
    reveal_strlit("set_log_config");
}

proof fn lemma_skills(command: Seq<char>)
    ensures
        skills::plan_of(command) is Some ==> home(command) == Module::Skills,
{
    reveal_strlit("get_installed_skills");
    reveal_strlit("install_skill_unified");
    reveal_strlit("uninstall_skill_unified");
    reveal_strlit("toggle_skill_app");
    reveal_strlit("scan_unmanaged_skills");
    reveal_strlit("import_skills_from_apps");
    reveal_strlit("discover_available_skills");
    reveal_strlit("get_skills");
    reveal_strlit("get_skills_for_app");
    reveal_strlit("install_skill");
    reveal_strlit("install_skill_for_app");
    reveal_strlit("uninstall_skill");
    reveal_strlit("uninstall_skill_for_app");
    reveal_strlit("get_skill_repos");
    reveal_strlit("add_skill_repo");
    reveal_strlit("remove_skill_repo");
}

proof fn lemma_subscription(command: Seq<char>)
    ensures
        subscription::plan_of(command) is Some ==> home(command) == Module::Subscription,
{
    reveal_strlit("get_subscription_quota");
    reveal_strlit("get_coding_plan_quota");
    reveal_strlit("get_balance");
}

proof fn lemma_usage(command: Seq<char>)
    ensures
        usage::plan_of(command) is Some ==> home(command) == Module::Usage,
{
    reveal_strlit("queryProviderUsage");
    reveal_strlit("testUsageScript");
    reveal_strlit("get_usage_summary");
    reveal_strlit("get_usage_summary_by_app");
    reveal_strlit("get_usage_trends");
    reveal_strlit("get_provider_stats");
    reveal_strlit("get_model_stats");
    reveal_strlit("get_request_logs");
    reveal_strlit("get_request_detail");
    reveal_strlit("update_model_pricing");
    reveal_strlit("delete_model_pricing");
    reveal_strlit("check_provider_limits");
    reveal_strlit("sync_session_usage");
    reveal_strlit("get_usage_data_sources");
}

proof fn lemma_vscode(command: Seq<char>)
    ensures
        vscode::plan_of(command) is Some ==> home(command) == Module::Vscode,
{
    reveal_strlit("read_live_provider_settings");
    reveal_strlit("test_api_endpoints");
    reveal_strlit("get_custom_endpoints");
    reveal_strlit("add_custom_endpoint");
    reveal_strlit("remove_custom_endpoint");
    reveal_strlit("update_endpoint_last_used");
}

proof fn lemma_workspace(command: Seq<char>)
    ensures
        workspace::plan_of(command) is Some ==> home(command) == Module::Workspace,
{
    reveal_strlit("read_workspace_file");
    reveal_strlit("write_workspace_file");
    reveal_strlit("list_daily_memory_files");
    reveal_strlit("read_daily_memory_file");
    reveal_strlit("write_daily_memory_file");
    reveal_strlit("delete_daily_memory_file");
    reveal_strlit("search_daily_memory_files");
}

proof fn lemma_home(module: Module, command: Seq<char>, args: JsonView)
    requires
        claims(module, command, args),
    ensures
        home(command) == module,
{
    match module {
        Module::Meta => lemma_meta(command),
        Module::Providers => lemma_providers(command),
        Module::ProvidersExtra => lemma_providers_extra(command),
        Module::Auth => lemma_auth(command),
        Module::Config => lemma_config(command, args),
        Module::ConfigMisc => lemma_config_misc(command),
        Module::Copilot => lemma_copilot(command),
        Module::DbBackup => lemma_db_backup(command),
        Module::Deeplink => lemma_deeplink(command),
        Module::Env => lemma_env(command),
        Module::Failover => lemma_failover(command),
        Module::GlobalProxy => lemma_global_proxy(command),
        Module::Hermes => lemma_hermes(command),
        Module::Mcp => lemma_mcp(command),
        Module::McpConfig => lemma_mcp_config(command),
        Module::ModelFetch => lemma_model_fetch(command),
        Module::ModelTest => lemma_model_test(command),
        Module::Openclaw => lemma_openclaw(command),
        Module::Pricing => lemma_pricing(command),
        Module::Prompts => lemma_prompts(command),
        Module::Proxy => lemma_proxy(command),
        Module::ProxyExtra => lemma_proxy_extra(command),
        Module::Sessions => lemma_sessions(command),
        Module::Settings => lemma_settings(command, args),
        Module::Skills => lemma_skills(command),
        Module::Subscription => lemma_subscription(command),
        Module::Usage => lemma_usage(command),
        Module::Vscode => lemma_vscode(command),
        Module::Workspace => lemma_workspace(command),
    }
}

/// A command is one of at most one module.
pub proof fn law_commands_have_one_module(
    command: Seq<char>,
    args: JsonView,
    one: Module,
    other: Module,
)
    requires
        claims(one, command, args),
        claims(other, command, args),
    ensures
        one == other,
{
    lemma_home(one, command, args);
    lemma_home(other, command, args);
}

} // verus!
