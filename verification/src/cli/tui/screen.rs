//! What lies over the pages of the terminal interface, and the requests that it has
//! made.

use vstd::prelude::*;
use vstd::string::*;
use crate::app_type::AppType;
use crate::cli::tui::notice::{Notice, Toast, ToastKind};
#[allow(unused_imports)]
use crate::cli::tui::notice::{NoticeView, ToastView};
use crate::text;

verus! {

/// How many milliseconds pass between two ticks.
pub const TUI_TICK_MILLIS: u64 = 200;

/// What is waited for.
#[derive(Debug, Clone, Copy, PartialEq, Eq, Structural)]
pub enum LoadingKind {
    Proxy,
    UpdateCheck,
}

/// A skill that is not managed.
#[derive(Debug)]
pub struct UnmanagedSkill {
    pub directory: String,
    pub name: String,
    pub description: Option<String>,
    pub found_in: Vec<String>,
}

/// The model of [`UnmanagedSkill`].
pub struct UnmanagedView {
    pub directory: Seq<char>,
    pub name: Seq<char>,
    pub description: Option<Seq<char>>,
    pub found_in: Seq<Seq<char>>,
}

impl View for UnmanagedSkill {
    type V = UnmanagedView;

    open spec fn view(&self) -> UnmanagedView {
        UnmanagedView {
            directory: self.directory@,
            name: self.name@,
            description: text::option_view(self.description),
            found_in: text::views(self.found_in@),
        }
    }
}

/// The models of skills.
pub open spec fn unmanaged_views(skills: Seq<UnmanagedSkill>) -> Seq<UnmanagedView> {
    Seq::new(skills.len(), |i: int| skills[i]@)
}

/// What lies over the page.
#[derive(Debug)]
pub enum Overlay {
    /// Nothing.
    Hidden,
    /// Something is waited for.
    Loading(LoadingKind),
    /// Skills can be chosen for import; those whose directories are listed are chosen.
    SkillsImportPicker { skills: Vec<UnmanagedSkill>, selected_idx: usize, chosen: Vec<String> },
    /// A newer version can be had.
    UpdateAvailable { current: String, latest: String, selected: usize },
    /// An update has succeeded or failed.
    UpdateResult { success: bool, message: String },
}

/// The model of [`Overlay`].
pub enum OverlayView {
    Hidden,
    Loading(LoadingKind),
    SkillsImportPicker {
        skills: Seq<UnmanagedView>,
        selected_idx: usize,
        chosen: Seq<Seq<char>>,
    },
    UpdateAvailable { current: Seq<char>, latest: Seq<char>, selected: usize },
    UpdateResult { success: bool, message: Seq<char> },
}

/// The directories of skills.
pub open spec fn directories(skills: Seq<UnmanagedSkill>) -> Seq<Seq<char>> {
    Seq::new(skills.len(), |i: int| skills[i].directory@)
}

impl View for Overlay {
    type V = OverlayView;

    open spec fn view(&self) -> OverlayView {
        match *self {
            Overlay::Hidden => OverlayView::Hidden,
            Overlay::Loading(kind) => OverlayView::Loading(kind),
            Overlay::SkillsImportPicker { skills, selected_idx, chosen } => {
                OverlayView::SkillsImportPicker {
                    skills: unmanaged_views(skills@),
                    selected_idx,
                    chosen: text::views(chosen@),
                }
            },
            Overlay::UpdateAvailable { current, latest, selected } => OverlayView::UpdateAvailable {
                current: current@,
                latest: latest@,
                selected,
            },
            Overlay::UpdateResult { success, message } => OverlayView::UpdateResult {
                success,
                message: message@,
            },
        }
    }
}

/// What is shown besides the page.
#[derive(Debug)]
pub struct Screen {
    pub overlay: Overlay,
    pub toast: Option<Toast>,
    pub should_quit: bool,
}

impl Screen {
    /// Nothing but the page.
    pub fn new() -> (r: Screen)
        ensures
            r.overlay@ == OverlayView::Hidden,
            r.toast is None,
            !r.should_quit,
    {
        Screen { overlay: Overlay::Hidden, toast: None, should_quit: false }
    }
}

/// Opens the choice of skills for import, all of them chosen.
pub fn open_skills_import_picker(screen: &mut Screen, skills: Vec<UnmanagedSkill>)
    ensures
        final(screen).overlay@ == (OverlayView::SkillsImportPicker {
            skills: unmanaged_views(skills@),
            selected_idx: 0,
            chosen: directories(skills@),
        }),
        final(screen).toast == old(screen).toast,
        final(screen).should_quit == old(screen).should_quit,
{
    let mut selected: Vec<String> = Vec::new();
    let mut i: usize = 0;
    while i < skills.len()
        invariant
            i <= skills@.len(),
            selected@.len() == i,
            forall|k: int| 0 <= k < i ==> (#[trigger] selected@[k])@ == skills@[k].directory@,
        decreases skills@.len() - i,
    {
        selected.push(skills[i].directory.clone());
        i = i + 1;
    }
    assert(text::views(selected@) =~= directories(skills@));
    screen.overlay = Overlay::SkillsImportPicker { skills, selected_idx: 0, chosen: selected };
}

/// The number of the request whose answer is waited for, if any.
#[derive(Debug, Clone, Copy, PartialEq, Eq, Structural)]
pub struct RequestTracker {
    /// The number of the last request.
    pub last: u64,
    pub active: Option<u64>,
}

impl RequestTracker {
    /// No request has been made.
    pub fn new() -> (r: RequestTracker)
        ensures
            r.last == 0,
            r.active is None,
    {
        RequestTracker { last: 0, active: None }
    }

    /// Numbers a request, whose answer is waited for from now on.
    pub fn start(&mut self) -> (id: u64)
        ensures
            id == (if old(self).last < u64::MAX {
                (old(self).last + 1) as u64
            } else {
                0
            }),
            final(self).last == id,
            final(self).active == Some(id),
    {
        let id: u64 = if self.last < u64::MAX {
            self.last + 1
        } else {
            0
        };
        self.last = id;
        self.active = Some(id);
        id
    }
}

/// What the proxy is asked.
#[derive(Debug, Clone, Copy, PartialEq, Eq, Structural)]
pub struct ProxyReq {
    pub request_id: u64,
    pub app_type: AppType,
    pub enabled: bool,
}

/// Asks the proxy to take over an application, or to let go of it, and waits; where
/// the proxy cannot be asked, that is told.
pub fn queue_managed_proxy_action(
    screen: &mut Screen,
    worker: bool,
    loading: &mut RequestTracker,
    app_type: AppType,
    enabled: bool,
) -> (r: Option<ProxyReq>)
    ensures
        final(screen).should_quit == old(screen).should_quit,
        worker ==> {
            &&& r == Some(
                ProxyReq { request_id: final(loading).last, app_type, enabled },
            )
            &&& final(loading).active == Some(final(loading).last)
            &&& final(loading).last == (if old(loading).last < u64::MAX {
                (old(loading).last + 1) as u64
            } else {
                0
            })
            &&& final(screen).overlay@ == OverlayView::Loading(LoadingKind::Proxy)
            &&& final(screen).toast == old(screen).toast
        },
        !worker ==> {
            &&& r is None
            &&& *final(loading) == *old(loading)
            &&& final(screen).overlay == old(screen).overlay
            &&& final(screen).toast is Some
            &&& final(screen).toast->Some_0@ == (ToastView {
                notice: NoticeView::ProxyWorkerUnavailable,
                kind: ToastKind::Warning,
            })
        },
{
    if worker {
        let request_id = loading.start();
        screen.overlay = Overlay::Loading(LoadingKind::Proxy);
        Some(ProxyReq { request_id, app_type, enabled })
    } else {
        screen.toast = Some(
            Toast { notice: Notice::ProxyWorkerUnavailable, kind: ToastKind::Warning },
        );
        None
    }
}

/// What is heard of an update.
#[derive(Debug)]
pub enum UpdateMsg {
    /// A version newer than the current one was found.
    CheckFinished { request_id: u64, current: String, latest: String },
    /// The update was installed, in this version, or failed, for this reason.
    DownloadFinished(Result<String, String>),
}

/// What lies over the page once something is heard of an update.
pub open spec fn overlay_after(
    overlay: OverlayView,
    active: Option<u64>,
    msg: UpdateMsg,
) -> OverlayView {
    match msg {
        UpdateMsg::CheckFinished { request_id, current, latest } => if active == Some(request_id) {
            OverlayView::UpdateAvailable { current: current@, latest: latest@, selected: 0 }
        } else {
            overlay
        },
        UpdateMsg::DownloadFinished(Ok(version)) => OverlayView::UpdateResult {
            success: true,
            message: version@,
        },
        UpdateMsg::DownloadFinished(Err(reason)) => OverlayView::UpdateResult {
            success: false,
            message: reason@,
        },
    }
}

/// The request whose answer is still waited for once something is heard of an update.
pub open spec fn active_after(active: Option<u64>, msg: UpdateMsg) -> Option<u64> {
    match msg {
        UpdateMsg::CheckFinished { request_id, current, latest } => if active == Some(request_id) {
            None
        } else {
            active
        },
        UpdateMsg::DownloadFinished(_) => active,
    }
}

/// Shows what is heard of an update. An answer that is not waited for is passed over,
/// and the program is not left.
pub fn handle_update_msg(screen: &mut Screen, update_check: &mut RequestTracker, msg: UpdateMsg)
    ensures
        final(screen).overlay@ == overlay_after(
            old(screen).overlay@,
            old(update_check).active,
            msg,
        ),
        final(screen).toast == old(screen).toast,
        final(screen).should_quit == old(screen).should_quit,
        final(update_check).active == active_after(old(update_check).active, msg),
        final(update_check).last == old(update_check).last,
{
    match msg {
        UpdateMsg::CheckFinished { request_id, current, latest } => {
            let awaited = match update_check.active {
                Some(active) => active == request_id,
                None => false,
            };
            if awaited {
                update_check.active = None;
                screen.overlay = Overlay::UpdateAvailable { current, latest, selected: 0 };
            }
        },
        UpdateMsg::DownloadFinished(Ok(version)) => {
            screen.overlay = Overlay::UpdateResult { success: true, message: version };
        },
        UpdateMsg::DownloadFinished(Err(reason)) => {
            screen.overlay = Overlay::UpdateResult { success: false, message: reason };
        },
    }
}

/// The answer to a request counts once: a second one changes nothing.
pub proof fn law_answers_count_once(overlay: OverlayView, active: Option<u64>, msg: UpdateMsg)
    requires
        msg is CheckFinished,
    ensures
        overlay_after(
            overlay_after(overlay, active, msg),
            active_after(active, msg),
            msg,
        ) == overlay_after(overlay, active, msg),
        active_after(active_after(active, msg), msg) == active_after(active, msg),
{
}

} // verus!
