//! The shutdown token: armed when the host starts, fired once by the
//! interrupt, and never armed again.
use vstd::prelude::*;

verus! {

/// A single-fire shutdown signal.
#[derive(Debug)]
pub struct ShutdownToken {
    fired: bool,
}

impl View for ShutdownToken {
    type V = bool;

    /// Whether the token has fired.
    closed spec fn view(&self) -> bool {
        self.fired
    }
}

impl ShutdownToken {
    /// An armed token.
    pub fn new() -> (t: ShutdownToken)
        ensures
            !t@,
    {
        ShutdownToken { fired: false }
    }

    /// Fires the token. Returns whether this call fired it, that is whether
    /// it was still armed; a fired token stays fired.
    pub fn fire(&mut self) -> (first: bool)
        ensures
            final(self)@,
            first == !old(self)@,
    {
        let first = !self.fired;
        self.fired = true;
        first
    }

    /// Whether the token has fired.
    pub fn is_fired(&self) -> (r: bool)
        ensures
            r == self@,
    {
        self.fired
    }
}

} // verus!
