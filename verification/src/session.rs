//! The terminal session lifecycle.
//!
//! Putting the terminal into raw mode on an alternate screen is a change to
//! process-wide state, made by the binary; what is verified here is the
//! lifecycle it must follow. A session moves from `Uninitialized` to
//! `Acquired` exactly once, and from there only to `Released` — there is no
//! way back to `Acquired` within one process lifetime. Release is safe to
//! request in any phase and from any exit path, normal or abnormal, and
//! always leaves the session released.

use vstd::prelude::*;

verus! {

/// Where a session stands in its lifecycle.
#[derive(Clone, Copy, Debug, PartialEq, Eq, Structural)]
pub enum Phase {
    Uninitialized,
    Acquired,
    Released,
}

/// Exclusive ownership of the terminal's configuration for the life of the
/// process. The binary changes the real terminal mode in lockstep with this
/// record: acquired means raw mode on the alternate screen, released means
/// the configuration the process started with.
pub struct Session {
    phase: Phase,
}

impl Session {
    /// The lifecycle phase this session is in.
    pub closed spec fn phase(self) -> Phase {
        self.phase
    }

    /// Reads the lifecycle phase this session is in.
    pub fn current_phase(&self) -> (p: Phase)
        ensures
            p == self.phase(),
    {
        self.phase
    }

    /// A fresh session, before the terminal has been touched.
    pub fn new() -> (s: Session)
        ensures
            s.phase() == Phase::Uninitialized,
    {
        Session { phase: Phase::Uninitialized }
    }

    /// Takes the terminal: only possible once, from the initial phase.
    pub fn acquire(&mut self)
        requires
            old(self).phase() == Phase::Uninitialized,
        ensures
            final(self).phase() == Phase::Acquired,
    {
        self.phase = Phase::Acquired;
    }

    /// Gives the terminal back. Callable in every phase, so an abnormal exit
    /// path may request it without knowing how far startup got; afterwards
    /// the session is released, and releasing again changes nothing.
    pub fn release(&mut self)
        ensures
            final(self).phase() == Phase::Released,
    {
        self.phase = Phase::Released;
    }
}

} // verus!
