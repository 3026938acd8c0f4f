//! Synchronisation over WebDAV, as far as the terminal interface decides on it.

use vstd::prelude::*;
use vstd::string::*;
use crate::text;

verus! {

/// How to synchronise over WebDAV.
#[derive(Debug)]
pub struct WebDavSyncSettings {
    pub enabled: bool,
    pub base_url: String,
    pub remote_root: String,
    pub profile: String,
    pub username: String,
    pub password: String,
    pub last_error: Option<String>,
}

/// The model of [`WebDavSyncSettings`].
pub struct SettingsView {
    pub enabled: bool,
    pub base_url: Seq<char>,
    pub remote_root: Seq<char>,
    pub profile: Seq<char>,
    pub username: Seq<char>,
    pub password: Seq<char>,
    pub last_error: Option<Seq<char>>,
}

impl View for WebDavSyncSettings {
    type V = SettingsView;

    open spec fn view(&self) -> SettingsView {
        SettingsView {
            enabled: self.enabled,
            base_url: self.base_url@,
            remote_root: self.remote_root@,
            profile: self.profile@,
            username: self.username@,
            password: self.password@,
            last_error: text::option_view(self.last_error),
        }
    }
}

/// The settings for Jianguoyun.
pub open spec fn jianguoyun(username: Seq<char>, password: Seq<char>) -> SettingsView {
    SettingsView {
        enabled: true,
        base_url: "https://dav.jianguoyun.com/dav"@,
        remote_root: "cc-switch-sync"@,
        profile: "default"@,
        username: text::trim(username),
        password: text::trim(password),
        last_error: None,
    }
}

/// What is done next to set up synchronisation with Jianguoyun.
#[derive(Debug)]
pub enum QuickSetup {
    /// Save these settings.
    Save(WebDavSyncSettings),
    /// See whether the server can be reached.
    CheckConnection,
    /// It has come to this.
    Finished(Result<(), String>),
}

/// What is done next to set up synchronisation with Jianguoyun: the settings, without
/// white space around what was typed, are saved, and where that works, the server is
/// tried.
pub fn apply_webdav_jianguoyun_quick_setup(
    username: &str,
    password: &str,
    saved: Option<Result<(), String>>,
    checked: Option<Result<(), String>>,
) -> (r: QuickSetup)
    ensures
        match (saved, checked) {
            (None, _) => r is Save && r->Save_0@ == jianguoyun(username@, password@),
            (Some(Err(error)), _) => r == QuickSetup::Finished(Err(error)),
            (Some(Ok(_)), None) => r == QuickSetup::CheckConnection,
            (Some(Ok(_)), Some(outcome)) => r == QuickSetup::Finished(outcome),
        },
{
    match saved {
        None => QuickSetup::Save(
            WebDavSyncSettings {
                enabled: true,
                base_url: "https://dav.jianguoyun.com/dav".to_owned(),
                remote_root: "cc-switch-sync".to_owned(),
                profile: "default".to_owned(),
                username: text::trimmed(username).to_owned(),
                password: text::trimmed(password).to_owned(),
                last_error: None,
            },
        ),
        Some(Err(error)) => QuickSetup::Finished(Err(error)),
        Some(Ok(_)) => match checked {
            None => QuickSetup::CheckConnection,
            Some(outcome) => QuickSetup::Finished(outcome),
        },
    }
}

/// The settings that are to be saved so that they tell of an error; none where nothing
/// has been set up.
pub fn update_webdav_last_error(error: Option<String>, settings: Option<WebDavSyncSettings>) -> (r:
    Option<WebDavSyncSettings>)
    ensures
        match settings {
            Some(before) => r is Some && r->Some_0@ == (SettingsView {
                last_error: text::option_view(error),
                ..before@
            }),
            None => r is None,
        },
{
    match settings {
        Some(before) => {
            let mut after = before;
            after.last_error = error;
            Some(after)
        },
        None => None,
    }
}

/// What synchronisation is asked.
#[derive(Debug)]
pub enum WebDavReqKind {
    CheckConnection,
    Upload,
    Download,
    JianguoyunQuickSetup { username: String, password: String },
}

/// A request to synchronise.
#[derive(Debug)]
pub struct WebDavReq {
    pub request_id: u64,
    pub kind: WebDavReqKind,
}

/// The latest of the requests that are waiting: `first`, and those behind it.
pub fn drain_latest_webdav_req(first: WebDavReq, rest: Vec<WebDavReq>) -> (r: WebDavReq)
    ensures
        r == (if rest@.len() == 0 {
            first
        } else {
            rest@.last()
        }),
{
    let mut rest = rest;
    match rest.pop() {
        Some(latest) => latest,
        None => first,
    }
}

} // verus!
