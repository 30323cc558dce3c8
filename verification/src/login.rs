//! The single slot that holds the login attempt of a session.
//!
//! The slot starts empty. The first request to log in fills it with a pending
//! attempt, and the attempt's completion makes it ready. Nothing empties the
//! slot again, and nothing starts a second attempt.

use vstd::prelude::*;

verus! {

/// The state of the login slot.
#[derive(Clone, Copy, Debug, PartialEq, Eq, Structural)]
pub enum LoginHandle {
    /// No attempt was started.
    Absent,
    /// An attempt is under way.
    Pending,
    /// The attempt has completed and its connection is at hand.
    Ready,
}

impl LoginHandle {
    /// The slot after a request to log in: an empty slot gets a pending
    /// attempt, a filled one stays as it is.
    pub open spec fn spec_begin(self) -> LoginHandle {
        match self {
            LoginHandle::Absent => LoginHandle::Pending,
            LoginHandle::Pending => LoginHandle::Pending,
            LoginHandle::Ready => LoginHandle::Ready,
        }
    }

    /// The slot after the attempt's completion was seen: a pending attempt
    /// becomes ready, and any other state stays.
    pub open spec fn spec_complete(self) -> LoginHandle {
        match self {
            LoginHandle::Absent => LoginHandle::Absent,
            LoginHandle::Pending => LoginHandle::Ready,
            LoginHandle::Ready => LoginHandle::Ready,
        }
    }

    /// Whether the screen offers to log in: only while the slot is empty.
    pub open spec fn spec_offers_login(self) -> bool {
        self is Absent
    }

    /// The empty slot of a fresh session.
    pub fn new() -> (handle: LoginHandle)
        ensures
            handle == LoginHandle::Absent,
    {
        LoginHandle::Absent
    }

    /// Takes a request to log in. The second component says whether an
    /// attempt is to be started now: exactly where logging in was on offer.
    pub fn begin(self) -> (next: (LoginHandle, bool))
        ensures
            next.0 == self.spec_begin(),
            next.1 == self.spec_offers_login(),
    {
        match self {
            LoginHandle::Absent => (LoginHandle::Pending, true),
            LoginHandle::Pending => (LoginHandle::Pending, false),
            LoginHandle::Ready => (LoginHandle::Ready, false),
        }
    }

    /// Takes the news that the attempt has completed.
    pub fn complete(self) -> (next: LoginHandle)
        ensures
            next == self.spec_complete(),
    {
        match self {
            LoginHandle::Absent => LoginHandle::Absent,
            LoginHandle::Pending => LoginHandle::Ready,
            LoginHandle::Ready => LoginHandle::Ready,
        }
    }

    /// Whether the screen offers to log in.
    pub fn offers_login(&self) -> (offered: bool)
        ensures
            offered == self.spec_offers_login(),
    {
        match self {
            LoginHandle::Absent => true,
            LoginHandle::Pending => false,
            LoginHandle::Ready => false,
        }
    }
}

/// How far the slot has come: empty, then pending, then ready.
pub open spec fn login_rank(handle: LoginHandle) -> nat {
    match handle {
        LoginHandle::Absent => 0,
        LoginHandle::Pending => 1,
        LoginHandle::Ready => 2,
    }
}

/// Neither a request nor a completion takes the slot back to an earlier
/// state, and neither empties a filled slot.
pub proof fn lemma_login_moves_forward(handle: LoginHandle)
    ensures
        login_rank(handle) <= login_rank(handle.spec_begin()),
        login_rank(handle) <= login_rank(handle.spec_complete()),
        !handle.spec_begin().spec_offers_login(),
        !handle.spec_offers_login() ==> !handle.spec_complete().spec_offers_login(),
{
}

} // verus!
