//! The cancellation signal that is broadcast to workers and the one-shot
//! token each worker derives from it.

use vstd::prelude::*;

verus! {

/// The reason a cancellation was requested.
#[derive(Clone, Copy, Debug, PartialEq, Eq, Structural)]
pub enum CancelKind {
    /// An interrupt (Ctrl-C) was received.
    Interrupt,
}

/// The message published to every subscribed worker.
#[derive(Clone, Copy, Debug, PartialEq, Eq, Structural)]
pub struct CancelMessage {
    pub kind: CancelKind,
}

impl CancelMessage {
    pub fn new(kind: CancelKind) -> (message: CancelMessage)
        ensures
            message.kind == kind,
    {
        CancelMessage { kind }
    }
}

/// A trigger that fires at most once.
#[derive(Clone, Copy, Debug, PartialEq, Eq, Structural)]
pub struct CancelToken {
    pub armed: bool,
}

impl CancelToken {
    pub fn new() -> (token: CancelToken)
        ensures
            token.armed,
    {
        CancelToken { armed: true }
    }

    /// Takes the trigger out of the token. Returns `true` exactly when the
    /// token was still armed, that is on the first call only.
    pub fn trigger(&mut self) -> (fired: bool)
        ensures
            fired == old(self).armed,
            !final(self).armed,
    {
        let fired = self.armed;
        self.armed = false;
        fired
    }

    pub fn is_armed(&self) -> (r: bool)
        ensures
            r == self.armed,
    {
        self.armed
    }
}

} // verus!
