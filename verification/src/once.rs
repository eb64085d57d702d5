//! The fire-once guard of a call site.

use vstd::prelude::*;

verus! {

/// One flag per call site. It starts unfired, fires at the first attempt and
/// stays fired: nothing resets it.
///
/// An attempt takes the flag by `&mut`, so no two attempts overlap. A
/// program that reaches one call site from several contexts keeps the flag
/// where it keeps the registry, behind its critical section.
///
/// Its view is whether it has fired.
pub struct OnceFlag {
    fired: bool,
}

impl View for OnceFlag {
    type V = bool;

    closed spec fn view(&self) -> bool {
        self.fired
    }
}

impl OnceFlag {
    /// A flag that has not fired.
    pub fn new() -> (flag: Self)
        ensures
            !flag@,
    {
        OnceFlag { fired: false }
    }

    /// Whether the flag has fired.
    pub fn has_fired(&self) -> (fired: bool)
        ensures
            fired == self@,
    {
        self.fired
    }

    /// Exchanges unfired for fired. The caller wins where the flag was
    /// unfired, and only then; in either case the flag is fired afterwards.
    pub fn try_fire(&mut self) -> (won: bool)
        ensures
            won == !old(self)@,
            final(self)@,
    {
        if self.fired {
            false
        } else {
            self.fired = true;
            true
        }
    }
}

} // verus!
