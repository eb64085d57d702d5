//! What a sink is, and the sink that wraps a function.

use crate::level::Level;
use vstd::prelude::*;

verus! {

/// A consumer of formatted trace messages.
///
/// A sink takes one message at a time. The slice it is handed is valid for
/// the call only, and a sink must not panic.
pub trait TraceHandler {
    /// Every message this sink was handed so far, the oldest first.
    spec fn received(&self) -> Seq<(Level, Seq<char>)>;

    /// Takes the message `msg` of severity `level`.
    fn trace_write(&mut self, level: Level, msg: &str)
        ensures
            final(self).received() == old(self).received().push((level, msg@)),
    ;
}

/// A sink that hands every message to a function or closure.
pub struct FnHandler<F: Fn(Level, &str)> {
    write: F,
    log: Ghost<Seq<(Level, Seq<char>)>>,
}

impl<F: Fn(Level, &str)> FnHandler<F> {
    #[verifier::type_invariant]
    spec fn inv(self) -> bool {
        forall|level: Level, msg: &str| self.write.requires((level, msg))
    }

    /// The function that this sink hands its messages to.
    pub closed spec fn function(&self) -> F {
        self.write
    }

    /// A sink that calls `write` for each message. The function must take
    /// every message.
    pub fn new(write: F) -> (handler: Self)
        requires
            forall|level: Level, msg: &str| write.requires((level, msg)),
        ensures
            handler.function() == write,
            handler.received() == Seq::<(Level, Seq<char>)>::empty(),
    {
        FnHandler { write, log: Ghost(Seq::empty()) }
    }
}

impl<F: Fn(Level, &str)> TraceHandler for FnHandler<F> {
    closed spec fn received(&self) -> Seq<(Level, Seq<char>)> {
        self.log@
    }

    /// Calls the function with the message.
    fn trace_write(&mut self, level: Level, msg: &str)
        ensures
            final(self).function() == old(self).function(),
            old(self).function().ensures((level, msg), ()),
    {
        proof {
            use_type_invariant(&*self);
        }
        (self.write)(level, msg);
        self.log = Ghost(self.log@.push((level, msg@)));
    }
}

} // verus!
