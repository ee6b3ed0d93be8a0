//! The cancellation gate: what turns the termination signals into one request
//! to stop.
//!
//! It is a trigger that fires once. Every signal fires it, and firing it again
//! changes nothing. The manager is told at every step whether it has fired.

use vstd::prelude::*;

verus! {

/// A termination signal.
#[derive(Debug, Clone, Copy, PartialEq, Eq, Structural)]
pub enum Signal {
    /// The interrupt from the keyboard.
    Interrupt,
    /// The request to terminate.
    Terminate,
}

/// The cancellation gate.
#[derive(Debug)]
pub struct CancellationGate {
    fired: bool,
}

impl View for CancellationGate {
    type V = bool;

    closed spec fn view(&self) -> bool {
        self.fired
    }
}

impl CancellationGate {
    /// A cancellation gate that has not fired.
    pub fn new() -> (g: CancellationGate)
        ensures
            !g@,
    {
        CancellationGate { fired: false }
    }

    /// Fires the trigger. Where it has fired already, this changes nothing.
    pub fn trigger(&mut self)
        ensures
            final(self)@,
    {
        self.fired = true;
    }

    /// Takes a signal. Both signals fire the trigger.
    pub fn signal(&mut self, signal: Signal)
        ensures
            final(self)@,
    {
        match signal {
            Signal::Interrupt => self.trigger(),
            Signal::Terminate => self.trigger(),
        }
    }

    /// Whether the trigger has fired.
    pub fn is_cancelled(&self) -> (r: bool)
        ensures
            r == self@,
    {
        self.fired
    }
}

} // verus!
