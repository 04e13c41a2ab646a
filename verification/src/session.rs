//! The device session: at most one open handle per execution context, opened
//! on demand and reopened after a transport failure.
//!
//! The host owns the raw handle and performs the blocking calls (close, open,
//! device-control request); the session decides every transition. The only
//! states are "unopened" and "open and believed live" — there is no third.
//! Reinitialisation runs: [`Session::begin_init`] (close any held handle),
//! the resolver (see [`crate::resolver`]), [`device_path`] on the resolved
//! link, the host's open attempt, then [`Session::complete_init`].

use vstd::prelude::*;
use vstd::string::StringExecFns;

verus! {

/// The fixed device-control code carried by every control request.
pub const IOCTL_MOUSE: u32 = 0x88883020;

/// A session is either unopened (no live handle) or open.
#[derive(Clone, Copy, Debug, PartialEq, Eq, Structural)]
pub enum SessionState {
    Unopened,
    Open,
}

/// The lifecycle of one device handle.
pub struct Session {
    pub state: SessionState,
}

/// The fully-qualified device path for a resolved symbolic link name: the
/// extended-length prefix followed by the link name.
pub open spec fn device_path_of(link: Seq<char>) -> Seq<char> {
    "\\\\?\\"@ + link
}

/// Builds the device path that the host opens for a resolved link name.
pub fn device_path(link: &str) -> (r: String)
    ensures
        r@ == device_path_of(link@),
{
    let mut path = String::from_str("\\\\?\\");
    path.append(link);
    path
}

impl Session {
    pub open spec fn is_open(&self) -> bool {
        self.state is Open
    }

    /// A fresh session holds no handle.
    pub fn new() -> (s: Session)
        ensures
            !s.is_open(),
    {
        Session { state: SessionState::Unopened }
    }

    /// First step of (re)initialisation: the session gives up whatever handle
    /// it held. Returns whether the host must close a handle; idempotent when
    /// none is held.
    pub fn begin_init(&mut self) -> (need_close: bool)
        ensures
            !final(self).is_open(),
            need_close == old(self).is_open(),
    {
        let was_open = match self.state {
            SessionState::Open => true,
            SessionState::Unopened => false,
        };
        self.state = SessionState::Unopened;
        was_open
    }

    /// Last step of (re)initialisation: records whether the host's open of
    /// the device path succeeded, and reports exactly that to the caller. On
    /// failure the session stays unopened and every later send is refused
    /// until a fresh initialisation succeeds.
    pub fn complete_init(&mut self, opened: bool) -> (r: bool)
        requires
            !old(self).is_open(),
        ensures
            r == opened,
            final(self).is_open() == opened,
    {
        if opened {
            self.state = SessionState::Open;
        }
        opened
    }

    /// Whether a control request may be issued at all: with no open handle a
    /// send is a silent no-op that reports failure, and the host must not
    /// touch the transport.
    pub fn should_send(&self) -> (r: bool)
        ensures
            r == self.is_open(),
    {
        match self.state {
            SessionState::Open => true,
            SessionState::Unopened => false,
        }
    }

    /// Takes the transport's verdict on one control request. Returns whether
    /// the host must attempt exactly one recovery reinitialisation: that is
    /// so precisely when the request failed. The failed request itself is
    /// still reported as failed to the caller whatever recovery brings; only
    /// the next request can profit from a reopened handle.
    pub fn on_send_result(&mut self, ok: bool) -> (recover: bool)
        requires
            old(self).is_open(),
        ensures
            recover == !ok,
            final(self).is_open(),
    {
        !ok
    }
}

} // verus!
