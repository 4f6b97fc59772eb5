//! Identities: opaque names chosen by the host or the broker, and fixed-width byte identities.
use crate::table::Key;
use crate::text::{debug_form, debug_text};
use vstd::prelude::*;
use vstd::string::StringExecFns;

verus! {

/// One UI session.
#[derive(Debug, PartialEq, Eq, Hash)]
pub struct UiSessionId {
    value: String,
}

impl View for UiSessionId {
    type V = Seq<char>;

    closed spec fn view(&self) -> Seq<char> {
        self.value@
    }
}

impl UiSessionId {
    pub fn new(value: &str) -> (r: Self)
        ensures
            r@ == value@,
    {
        UiSessionId { value: value.to_owned() }
    }

    pub fn from_string(value: String) -> (r: Self)
        ensures
            r@ == value@,
    {
        UiSessionId { value }
    }

    pub fn as_str(&self) -> (r: &str)
        ensures
            r@ == self@,
    {
        self.value.as_str()
    }

    /// How the session reads in an error.
    pub open spec fn text(self) -> Seq<char> {
        "UiSessionId("@ + debug_form(self@) + ")"@
    }

    /// How the session reads in an error.
    pub fn message(&self) -> (r: String)
        ensures
            r@ == self.text(),
    {
        let quoted = debug_text(self.value.as_str());
        "UiSessionId(".to_owned().concat(quoted.as_str()).concat(")")
    }
}

impl Clone for UiSessionId {
    fn clone(&self) -> (r: Self)
        ensures
            r == *self,
    {
        UiSessionId { value: self.value.clone() }
    }
}

impl Key for UiSessionId {
    fn same(&self, other: &Self) -> (r: bool) {
        self.value == other.value
    }

    fn duplicate(&self) -> (r: Self) {
        self.clone()
    }
}

/// The part of the host that shows at most one menu at a time.
#[derive(Debug, PartialEq, Eq, Hash)]
pub struct ModalScopeId {
    value: String,
}

impl View for ModalScopeId {
    type V = Seq<char>;

    closed spec fn view(&self) -> Seq<char> {
        self.value@
    }
}

impl ModalScopeId {
    pub fn new(value: &str) -> (r: Self)
        ensures
            r@ == value@,
    {
        ModalScopeId { value: value.to_owned() }
    }

    pub fn from_string(value: String) -> (r: Self)
        ensures
            r@ == value@,
    {
        ModalScopeId { value }
    }

    pub fn as_str(&self) -> (r: &str)
        ensures
            r@ == self@,
    {
        self.value.as_str()
    }
}

impl Clone for ModalScopeId {
    fn clone(&self) -> (r: Self)
        ensures
            r == *self,
    {
        ModalScopeId { value: self.value.clone() }
    }
}

impl Key for ModalScopeId {
    fn same(&self, other: &Self) -> (r: bool) {
        self.value == other.value
    }

    fn duplicate(&self) -> (r: Self) {
        self.clone()
    }
}

/// A pane of the host.
#[derive(Debug, PartialEq, Eq, Hash)]
pub struct HostPaneId {
    value: String,
}

impl View for HostPaneId {
    type V = Seq<char>;

    closed spec fn view(&self) -> Seq<char> {
        self.value@
    }
}

impl HostPaneId {
    pub fn new(value: &str) -> (r: Self)
        ensures
            r@ == value@,
    {
        HostPaneId { value: value.to_owned() }
    }

    pub fn from_string(value: String) -> (r: Self)
        ensures
            r@ == value@,
    {
        HostPaneId { value }
    }

    pub fn as_str(&self) -> (r: &str)
        ensures
            r@ == self@,
    {
        self.value.as_str()
    }
}

impl Clone for HostPaneId {
    fn clone(&self) -> (r: Self)
        ensures
            r == *self,
    {
        HostPaneId { value: self.value.clone() }
    }
}

impl Key for HostPaneId {
    fn same(&self, other: &Self) -> (r: bool) {
        self.value == other.value
    }

    fn duplicate(&self) -> (r: Self) {
        self.clone()
    }
}

/// A tab of the host.
#[derive(Debug, PartialEq, Eq, Hash)]
pub struct HostTabId {
    value: String,
}

impl View for HostTabId {
    type V = Seq<char>;

    closed spec fn view(&self) -> Seq<char> {
        self.value@
    }
}

impl HostTabId {
    pub fn new(value: &str) -> (r: Self)
        ensures
            r@ == value@,
    {
        HostTabId { value: value.to_owned() }
    }

    pub fn from_string(value: String) -> (r: Self)
        ensures
            r@ == value@,
    {
        HostTabId { value }
    }

    pub fn as_str(&self) -> (r: &str)
        ensures
            r@ == self@,
    {
        self.value.as_str()
    }
}

impl Clone for HostTabId {
    fn clone(&self) -> (r: Self)
        ensures
            r == *self,
    {
        HostTabId { value: self.value.clone() }
    }
}

impl Key for HostTabId {
    fn same(&self, other: &Self) -> (r: bool) {
        self.value == other.value
    }

    fn duplicate(&self) -> (r: Self) {
        self.clone()
    }
}

/// A lease on the host's input capture.
#[derive(Debug, PartialEq, Eq, Hash)]
pub struct CaptureLeaseId {
    value: String,
}

impl View for CaptureLeaseId {
    type V = Seq<char>;

    closed spec fn view(&self) -> Seq<char> {
        self.value@
    }
}

impl CaptureLeaseId {
    pub fn new(value: &str) -> (r: Self)
        ensures
            r@ == value@,
    {
        CaptureLeaseId { value: value.to_owned() }
    }

    pub fn from_string(value: String) -> (r: Self)
        ensures
            r@ == value@,
    {
        CaptureLeaseId { value }
    }

    pub fn as_str(&self) -> (r: &str)
        ensures
            r@ == self@,
    {
        self.value.as_str()
    }
}

impl Clone for CaptureLeaseId {
    fn clone(&self) -> (r: Self)
        ensures
            r == *self,
    {
        CaptureLeaseId { value: self.value.clone() }
    }
}

impl Key for CaptureLeaseId {
    fn same(&self, other: &Self) -> (r: bool) {
        self.value == other.value
    }

    fn duplicate(&self) -> (r: Self) {
        self.clone()
    }
}

/// A lease on a pane that the broker must close or release.
#[derive(Debug, PartialEq, Eq, Hash)]
pub struct PendingPaneLeaseId {
    value: String,
}

impl View for PendingPaneLeaseId {
    type V = Seq<char>;

    closed spec fn view(&self) -> Seq<char> {
        self.value@
    }
}

impl PendingPaneLeaseId {
    pub fn new(value: &str) -> (r: Self)
        ensures
            r@ == value@,
    {
        PendingPaneLeaseId { value: value.to_owned() }
    }

    pub fn from_string(value: String) -> (r: Self)
        ensures
            r@ == value@,
    {
        PendingPaneLeaseId { value }
    }

    pub fn as_str(&self) -> (r: &str)
        ensures
            r@ == self@,
    {
        self.value.as_str()
    }
}

impl Clone for PendingPaneLeaseId {
    fn clone(&self) -> (r: Self)
        ensures
            r == *self,
    {
        PendingPaneLeaseId { value: self.value.clone() }
    }
}

impl Key for PendingPaneLeaseId {
    fn same(&self, other: &Self) -> (r: bool) {
        self.value == other.value
    }

    fn duplicate(&self) -> (r: Self) {
        self.clone()
    }
}

/// Whether two 16-byte identities hold the same bytes.
fn bytes_equal(left: &[u8; 16], right: &[u8; 16]) -> (r: bool)
    ensures
        r == (left@ == right@),
{
    let mut i: usize = 0;
    while i < 16
        invariant
            i <= 16,
            forall|j: int| 0 <= j < i ==> left@[j] == right@[j],
        decreases 16 - i,
    {
        if left[i] != right[i] {
            assert(left@[i as int] != right@[i as int]);
            return false;
        }
        i += 1;
    }
    assert(left@ =~= right@);
    true
}

/// Whether every byte is zero.
pub open spec fn all_zero(bytes: Seq<u8>) -> bool {
    forall|i: int| 0 <= i < bytes.len() ==> bytes[i] == 0
}

/// Whether every one of the 16 bytes is zero.
fn bytes_all_zero(bytes: &[u8; 16]) -> (r: bool)
    ensures
        r == all_zero(bytes@),
{
    let mut i: usize = 0;
    while i < 16
        invariant
            i <= 16,
            forall|j: int| 0 <= j < i ==> bytes@[j] == 0,
        decreases 16 - i,
    {
        if bytes[i] != 0 {
            assert(bytes@[i as int] != 0);
            return false;
        }
        i += 1;
    }
    true
}

/// The one-use secret that ties a launcher to the UI it starts.
#[derive(Clone, Copy, Debug, PartialEq, Eq, Hash)]
pub struct PendingLaunchToken(pub [u8; 16]);

impl View for PendingLaunchToken {
    type V = Seq<u8>;

    open spec fn view(&self) -> Seq<u8> {
        self.0@
    }
}

impl PendingLaunchToken {
    /// Whether every byte is zero; such an identity names nothing.
    pub fn is_zero(&self) -> (r: bool)
        ensures
            r == all_zero(self@),
    {
        bytes_all_zero(&self.0)
    }
}

impl Key for PendingLaunchToken {
    fn same(&self, other: &Self) -> (r: bool) {
        bytes_equal(&self.0, &other.0)
    }

    fn duplicate(&self) -> (r: Self) {
        *self
    }
}

/// A request on one connection.
#[derive(Clone, Copy, Debug, PartialEq, Eq, Hash)]
pub struct RequestId(pub [u8; 16]);

impl View for RequestId {
    type V = Seq<u8>;

    open spec fn view(&self) -> Seq<u8> {
        self.0@
    }
}

impl RequestId {
    /// Whether every byte is zero; such an identity names nothing.
    pub fn is_zero(&self) -> (r: bool)
        ensures
            r == all_zero(self@),
    {
        bytes_all_zero(&self.0)
    }
}

impl Key for RequestId {
    fn same(&self, other: &Self) -> (r: bool) {
        bytes_equal(&self.0, &other.0)
    }

    fn duplicate(&self) -> (r: Self) {
        *self
    }
}

/// An execution, as the wire names it.
#[derive(Clone, Copy, Debug, PartialEq, Eq, Hash)]
pub struct ExecutionId(pub [u8; 16]);

impl View for ExecutionId {
    type V = Seq<u8>;

    open spec fn view(&self) -> Seq<u8> {
        self.0@
    }
}

impl ExecutionId {
    /// Whether every byte is zero; such an identity names nothing.
    pub fn is_zero(&self) -> (r: bool)
        ensures
            r == all_zero(self@),
    {
        bytes_all_zero(&self.0)
    }
}

impl Key for ExecutionId {
    fn same(&self, other: &Self) -> (r: bool) {
        bytes_equal(&self.0, &other.0)
    }

    fn duplicate(&self) -> (r: Self) {
        *self
    }
}

/// An event sent to a UI.
#[derive(Clone, Copy, Debug, PartialEq, Eq, Hash)]
pub struct EventId(pub [u8; 16]);

impl View for EventId {
    type V = Seq<u8>;

    open spec fn view(&self) -> Seq<u8> {
        self.0@
    }
}

impl EventId {
    /// Whether every byte is zero; such an identity names nothing.
    pub fn is_zero(&self) -> (r: bool)
        ensures
            r == all_zero(self@),
    {
        bytes_all_zero(&self.0)
    }
}

impl Key for EventId {
    fn same(&self, other: &Self) -> (r: bool) {
        bytes_equal(&self.0, &other.0)
    }

    fn duplicate(&self) -> (r: Self) {
        *self
    }
}

/// One activation handoff between two brokers.
#[derive(Clone, Copy, Debug, PartialEq, Eq, Hash)]
pub struct HandoffId(pub [u8; 16]);

impl View for HandoffId {
    type V = Seq<u8>;

    open spec fn view(&self) -> Seq<u8> {
        self.0@
    }
}

impl HandoffId {
    /// Whether every byte is zero; such an identity names nothing.
    pub fn is_zero(&self) -> (r: bool)
        ensures
            r == all_zero(self@),
    {
        bytes_all_zero(&self.0)
    }
}

impl Key for HandoffId {
    fn same(&self, other: &Self) -> (r: bool) {
        bytes_equal(&self.0, &other.0)
    }

    fn duplicate(&self) -> (r: Self) {
        *self
    }
}

/// An execution, as the broker and the host name it.
#[derive(Clone, Copy, Debug, PartialEq, Eq, Hash)]
pub struct CoreExecutionId(pub u64);

impl View for CoreExecutionId {
    type V = u64;

    open spec fn view(&self) -> u64 {
        self.0
    }
}

impl Key for CoreExecutionId {
    fn same(&self, other: &Self) -> (r: bool) {
        self.0 == other.0
    }

    fn duplicate(&self) -> (r: Self) {
        *self
    }
}

} // verus!
