//! What the host hands out and takes back: leases on panes and on input capture.
use crate::ids::{CaptureLeaseId, HostPaneId, HostTabId, ModalScopeId, PendingPaneLeaseId, UiSessionId};
use crate::table::{opt_view, same_option, Key};
use vstd::prelude::*;

verus! {

/// The host's promise that the broker alone closes or releases a pane.
#[derive(Debug, PartialEq, Eq)]
pub struct PendingPaneLease {
    pub id: PendingPaneLeaseId,
    pub ui_session: UiSessionId,
}

impl View for PendingPaneLease {
    type V = (Seq<char>, Seq<char>);

    open spec fn view(&self) -> (Seq<char>, Seq<char>) {
        (self.id@, self.ui_session@)
    }
}

impl Clone for PendingPaneLease {
    fn clone(&self) -> (r: Self)
        ensures
            r == *self,
    {
        PendingPaneLease { id: self.id.clone(), ui_session: self.ui_session.clone() }
    }
}

impl Key for PendingPaneLease {
    fn same(&self, other: &Self) -> (r: bool) {
        self.id.same(&other.id) && self.ui_session.same(&other.ui_session)
    }

    fn duplicate(&self) -> (r: Self) {
        self.clone()
    }
}

/// A pane that the broker asks the host to watch for a session.
#[derive(Debug, PartialEq, Eq)]
pub struct PendingPaneRegistration {
    pub ui_session: UiSessionId,
    pub pane: HostPaneId,
    pub temporary_tab: Option<HostTabId>,
}

impl View for PendingPaneRegistration {
    type V = (Seq<char>, Seq<char>, Option<Seq<char>>);

    open spec fn view(&self) -> (Seq<char>, Seq<char>, Option<Seq<char>>) {
        (self.ui_session@, self.pane@, opt_view(self.temporary_tab))
    }
}

impl Clone for PendingPaneRegistration {
    fn clone(&self) -> (r: Self)
        ensures
            r == *self,
    {
        PendingPaneRegistration {
            ui_session: self.ui_session.clone(),
            pane: self.pane.clone(),
            temporary_tab: clone_option(&self.temporary_tab),
        }
    }
}

impl Key for PendingPaneRegistration {
    fn same(&self, other: &Self) -> (r: bool) {
        self.ui_session.same(&other.ui_session) && self.pane.same(&other.pane) && same_option(
            &self.temporary_tab,
            &other.temporary_tab,
        )
    }

    fn duplicate(&self) -> (r: Self) {
        self.clone()
    }
}

/// A copy of an optional tab.
pub fn clone_option(value: &Option<HostTabId>) -> (r: Option<HostTabId>)
    ensures
        r == *value,
{
    match value {
        Some(value) => Some(value.clone()),
        None => None,
    }
}

/// The host's input capture, held for one session in one scope.
#[derive(Debug, PartialEq, Eq)]
pub struct CaptureLease {
    pub id: CaptureLeaseId,
    pub ui_session: UiSessionId,
    pub modal_scope: ModalScopeId,
}

impl View for CaptureLease {
    type V = (Seq<char>, Seq<char>, Seq<char>);

    open spec fn view(&self) -> (Seq<char>, Seq<char>, Seq<char>) {
        (self.id@, self.ui_session@, self.modal_scope@)
    }
}

impl Clone for CaptureLease {
    fn clone(&self) -> (r: Self)
        ensures
            r == *self,
    {
        CaptureLease {
            id: self.id.clone(),
            ui_session: self.ui_session.clone(),
            modal_scope: self.modal_scope.clone(),
        }
    }
}

} // verus!
