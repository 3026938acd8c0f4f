//! The applications whose configuration is managed.

use vstd::prelude::*;
use vstd::string::*;

verus! {

/// An application.
#[derive(Debug, Clone, Copy, PartialEq, Eq, Structural)]
pub enum AppType {
    Claude,
    Codex,
    Gemini,
    OpenCode,
    Hermes,
    OpenClaw,
}

/// For which applications something is enabled. OpenClaw takes neither MCP servers
/// nor skills, so there is no mark for it.
#[derive(Debug, Clone, Copy, PartialEq, Eq, Structural)]
pub struct EnabledApps {
    pub claude: bool,
    pub codex: bool,
    pub gemini: bool,
    pub opencode: bool,
    pub hermes: bool,
}

impl EnabledApps {
    /// Whether it is enabled for an application.
    pub open spec fn has(self, app: AppType) -> bool {
        match app {
            AppType::Claude => self.claude,
            AppType::Codex => self.codex,
            AppType::Gemini => self.gemini,
            AppType::OpenCode => self.opencode,
            AppType::Hermes => self.hermes,
            AppType::OpenClaw => false,
        }
    }

    /// Whether it is enabled for an application.
    pub fn is_enabled_for(&self, app: AppType) -> (r: bool)
        ensures
            r == self.has(app),
    {
        match app {
            AppType::Claude => self.claude,
            AppType::Codex => self.codex,
            AppType::Gemini => self.gemini,
            AppType::OpenCode => self.opencode,
            AppType::Hermes => self.hermes,
            AppType::OpenClaw => false,
        }
    }

    /// Enabled for no application.
    pub fn nowhere() -> (r: EnabledApps)
        ensures
            forall|app: AppType| !#[trigger] r.has(app),
    {
        EnabledApps { claude: false, codex: false, gemini: false, opencode: false, hermes: false }
    }

    /// Enables or disables it for an application.
    pub fn set_enabled_for(&mut self, app: AppType, enabled: bool)
        ensures
            forall|other: AppType| #[trigger]
                final(self).has(other) == (if other == app && app != AppType::OpenClaw {
                    enabled
                } else {
                    old(self).has(other)
                }),
    {
        match app {
            AppType::Claude => {
                self.claude = enabled;
            },
            AppType::Codex => {
                self.codex = enabled;
            },
            AppType::Gemini => {
                self.gemini = enabled;
            },
            AppType::OpenCode => {
                self.opencode = enabled;
            },
            AppType::Hermes => {
                self.hermes = enabled;
            },
            AppType::OpenClaw => {},
        }
    }
}

/// Each application has a mark of its own; there is none for OpenClaw.
pub proof fn law_each_application_has_its_own_mark(apps: EnabledApps)
    ensures
        apps.has(AppType::Claude) == apps.claude,
        apps.has(AppType::Codex) == apps.codex,
        apps.has(AppType::Gemini) == apps.gemini,
        apps.has(AppType::OpenCode) == apps.opencode,
        apps.has(AppType::Hermes) == apps.hermes,
        !apps.has(AppType::OpenClaw),
{
}

/// What the applications are called on the screen.
#[derive(Debug)]
pub struct AppLabels {
    pub claude: String,
    pub codex: String,
    pub gemini: String,
    pub opencode: String,
    pub hermes: String,
}

impl AppLabels {
    /// What the applications are called on the screen, where the first of them is called
    /// as given.
    pub fn after(claude: String) -> (r: AppLabels)
        ensures
            r.claude == claude,
            r.codex@ == "Codex"@,
            r.gemini@ == "Gemini"@,
            r.opencode@ == "OpenCode"@,
            r.hermes@ == "Hermes"@,
    {
        AppLabels {
            claude,
            codex: "Codex".to_owned(),
            gemini: "Gemini".to_owned(),
            opencode: "OpenCode".to_owned(),
            hermes: "Hermes".to_owned(),
        }
    }
}

} // verus!
