//! The tokens that accompany every store call.

use vstd::prelude::*;

verus! {

/// An opaque handle for the logical operation a store call belongs to.
///
/// A backend that supports transactions uses the handle to group the calls of
/// one protocol step into an atomic unit. The handle carries no protocol
/// meaning of its own, and nothing is promised about the thread-safety of
/// whatever it stands for.
#[derive(Debug, Clone, Copy, PartialEq, Eq, Structural)]
pub struct Context {
    handle: usize,
}

impl View for Context {
    type V = usize;

    closed spec fn view(&self) -> usize {
        self.handle
    }
}

impl Context {
    /// Wraps a raw handle.
    pub fn new(handle: usize) -> (ctx: Self)
        ensures
            ctx@ == handle,
    {
        Context { handle }
    }

    /// The raw handle this token was made from.
    pub fn handle(&self) -> (handle: usize)
        ensures
            handle == self@,
    {
        self.handle
    }
}

/// Which way a message travels when an identity is vetted.
///
/// A backend may be stricter in one direction than in the other, so every
/// trust check says which one it is for.
#[derive(Debug, Clone, Copy, PartialEq, Eq, Structural)]
pub enum Direction {
    Sending,
    Receiving,
}

} // verus!
