//! What the terminal interface tells its user in passing.

use vstd::prelude::*;
use crate::app_type::AppType;

verus! {

/// How a notice is shown.
#[derive(Debug, Clone, Copy, PartialEq, Eq, Structural)]
pub enum ToastKind {
    Info,
    Success,
    Warning,
    Error,
}

/// What is told.
#[derive(Debug)]
pub enum Notice {
    /// So many MCP servers were imported.
    McpImported(usize),
    McpUpdated,
    McpServerDeleted,
    McpServerNotFound,
    /// An MCP server was changed, but not in the configuration of this application,
    /// which has not been set up.
    McpUpdatedUninitialized(AppType),
    /// An MCP server was changed, but not in the configurations of these applications.
    McpUpdatedWithoutLiveSync(Vec<AppType>),
    /// So many skills were found that are not managed.
    UnmanagedScanned(usize),
    /// So many skills that were not managed were imported.
    UnmanagedImported(usize),
    /// The proxy could not be asked.
    ProxyWorkerUnavailable,
}

/// The model of [`Notice`].
pub enum NoticeView {
    McpImported(usize),
    McpUpdated,
    McpServerDeleted,
    McpServerNotFound,
    McpUpdatedUninitialized(AppType),
    McpUpdatedWithoutLiveSync(Seq<AppType>),
    UnmanagedScanned(usize),
    UnmanagedImported(usize),
    ProxyWorkerUnavailable,
}

impl View for Notice {
    type V = NoticeView;

    open spec fn view(&self) -> NoticeView {
        match *self {
            Notice::McpImported(count) => NoticeView::McpImported(count),
            Notice::McpUpdated => NoticeView::McpUpdated,
            Notice::McpServerDeleted => NoticeView::McpServerDeleted,
            Notice::McpServerNotFound => NoticeView::McpServerNotFound,
            Notice::McpUpdatedUninitialized(app) => NoticeView::McpUpdatedUninitialized(app),
            Notice::McpUpdatedWithoutLiveSync(apps) => NoticeView::McpUpdatedWithoutLiveSync(apps@),
            Notice::UnmanagedScanned(count) => NoticeView::UnmanagedScanned(count),
            Notice::UnmanagedImported(count) => NoticeView::UnmanagedImported(count),
            Notice::ProxyWorkerUnavailable => NoticeView::ProxyWorkerUnavailable,
        }
    }
}

/// A notice and how it is shown.
#[derive(Debug)]
pub struct Toast {
    pub notice: Notice,
    pub kind: ToastKind,
}

/// The model of [`Toast`].
pub struct ToastView {
    pub notice: NoticeView,
    pub kind: ToastKind,
}

impl View for Toast {
    type V = ToastView;

    open spec fn view(&self) -> ToastView {
        ToastView { notice: self.notice@, kind: self.kind }
    }
}

/// What is told once the MCP servers of an application have been imported.
pub fn mcp_import_toast(count: usize) -> (r: Toast)
    ensures
        r@ == (ToastView { notice: NoticeView::McpImported(count), kind: ToastKind::Info }),
{
    Toast { notice: Notice::McpImported(count), kind: ToastKind::Info }
}

/// What is told once the skills that are not managed have been looked for.
pub fn unmanaged_scan_toast(count: usize) -> (r: Toast)
    ensures
        r@ == (ToastView { notice: NoticeView::UnmanagedScanned(count), kind: ToastKind::Info }),
{
    Toast { notice: Notice::UnmanagedScanned(count), kind: ToastKind::Info }
}

/// What is told once skills that were not managed have been imported.
pub fn skills_import_toast(count: usize) -> (r: Toast)
    ensures
        r@ == (ToastView { notice: NoticeView::UnmanagedImported(count), kind: ToastKind::Info }),
{
    Toast { notice: Notice::UnmanagedImported(count), kind: ToastKind::Info }
}

} // verus!
