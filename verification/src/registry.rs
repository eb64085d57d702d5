//! The slot that holds the one active sink.

use crate::handler::TraceHandler;
use crate::level::Level;
use vstd::prelude::*;

verus! {

/// Owner of the single sink slot.
///
/// The registry is either unregistered or holds one sink, and goes from the
/// one to the other by `setup` and `cleanup`, any number of times. Nothing
/// is kept for later: a message goes to the sink that is registered when it
/// is dispatched, or to none.
///
/// Exclusive access is the critical section: whoever holds `&mut` to the
/// registry is the only one to change the slot or to write to the sink.
pub struct HandlerRegistry<S: TraceHandler> {
    slot: Option<S>,
}

impl<S: TraceHandler> HandlerRegistry<S> {
    /// The sink in the slot, if there is one.
    pub closed spec fn handler(&self) -> Option<S> {
        self.slot
    }

    /// True when a sink is in the slot.
    pub open spec fn registered(&self) -> bool {
        self.handler() is Some
    }

    /// Every message the sink in the slot was handed so far, the oldest
    /// first; empty where the slot is empty.
    pub open spec fn delivered(&self) -> Seq<(Level, Seq<char>)> {
        match self.handler() {
            Some(sink) => sink.received(),
            None => Seq::empty(),
        }
    }

    /// A registry with an empty slot.
    pub fn new() -> (registry: Self)
        ensures
            registry.handler() is None,
    {
        HandlerRegistry { slot: None }
    }

    /// Installs `sink` as the active sink. A sink that was in the slot is
    /// dropped.
    pub fn setup(&mut self, sink: S)
        ensures
            final(self).handler() == Some(sink),
    {
        self.slot = Some(sink);
    }

    /// Empties the slot and hands back the sink that was in it.
    pub fn cleanup(&mut self) -> (removed: Option<S>)
        ensures
            final(self).handler() is None,
            removed == old(self).handler(),
    {
        self.slot.take()
    }

    /// Whether a sink is registered.
    pub fn query(&self) -> (registered: bool)
        ensures
            registered == self.registered(),
    {
        self.slot.is_some()
    }

    /// The sink in the slot, if there is one.
    pub fn sink(&self) -> (sink: Option<&S>)
        ensures
            sink is Some <==> self.registered(),
            sink matches Some(s) ==> Some(*s) == self.handler(),
    {
        self.slot.as_ref()
    }

    /// Hands `msg` to the registered sink.
    ///
    /// To dispatch with no sink registered is the caller's error, a
    /// forgotten `setup`, and a host is to fail hard in its place: the call
    /// is not to be made then.
    pub fn dispatch(&mut self, level: Level, msg: &str)
        requires
            old(self).registered(),
        ensures
            final(self).registered(),
            final(self).delivered() == old(self).delivered().push((level, msg@)),
    {
        match &mut self.slot {
            Some(sink) => {
                sink.trace_write(level, msg);
            },
            None => {},
        }
    }

    /// Hands `msg` to the registered sink, and does nothing where none is
    /// registered. This is the way for a program that is already failing:
    /// it never asks for a second failure.
    pub fn dispatch_panic(&mut self, level: Level, msg: &str)
        ensures
            final(self).registered() == old(self).registered(),
            old(self).registered() ==> final(self).delivered() == old(self).delivered().push(
                (level, msg@),
            ),
            !old(self).registered() ==> *final(self) == *old(self),
    {
        if self.slot.is_some() {
            self.dispatch(level, msg);
        }
    }
}

} // verus!
