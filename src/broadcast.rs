//! The capacity broadcaster: at most one observer, sent the free-slot count as
//! a decimal text frame whenever it changes.

use vstd::prelude::*;
use crate::text::{decimal, decimal_text};

verus! {

/// The text frame that tells an observer how many slots are free.
pub fn capacity_frame(available: usize) -> (r: String)
    ensures
        r@ == decimal(available as nat),
{
    decimal_text(available as u64)
}

/// Holds the current observer's sink `S`, if any.
///
/// A publish takes the sink out (`begin_publish`), the caller sends the frame,
/// and `finish_publish` puts it back or drops it according to the outcome.
pub struct CapacityBroadcaster<S> {
    observer: Option<S>,
}

impl<S> CapacityBroadcaster<S> {
    pub closed spec fn observer(&self) -> Option<S> {
        self.observer
    }

    /// A broadcaster with no observer.
    pub fn new() -> (r: Self)
        ensures
            r.observer() is None,
    {
        CapacityBroadcaster { observer: None }
    }

    pub fn has_observer(&self) -> (r: bool)
        ensures
            r == self.observer() is Some,
    {
        self.observer.is_some()
    }

    /// Makes `sink` the observer and hands back the one it replaces, for closing.
    pub fn register(&mut self, sink: S) -> (r: Option<S>)
        ensures
            final(self).observer() == Some(sink),
            r == old(self).observer(),
    {
        let mut slot = Some(sink);
        std::mem::swap(&mut slot, &mut self.observer);
        slot
    }

    /// Starts a publish of `available`: with an observer, takes its sink out and
    /// returns it with the frame to send; without one there is nothing to do.
    pub fn begin_publish(&mut self, available: usize) -> (r: Option<(S, String)>)
        ensures
            final(self).observer() is None,
            match old(self).observer() {
                Some(s) => r matches Some((t, f)) && t == s && f@ == decimal(available as nat),
                None => r is None,
            },
    {
        let mut slot: Option<S> = None;
        std::mem::swap(&mut slot, &mut self.observer);
        match slot {
            Some(s) => Some((s, capacity_frame(available))),
            None => None,
        }
    }

    /// Ends a publish with the sink taken out by `begin_publish`. A sink whose send
    /// failed is dropped (handed back for closing); one that was sent on becomes
    /// the observer again unless another registered meanwhile, in which case it is
    /// handed back for closing.
    pub fn finish_publish(&mut self, sink: S, sent: bool) -> (r: Option<S>)
        ensures
            sent && old(self).observer() is None ==> final(self).observer() == Some(sink)
                && r is None,
            !(sent && old(self).observer() is None) ==> final(self).observer() == old(
                self,
            ).observer() && r == Some(sink),
    {
        if sent && self.observer.is_none() {
            self.observer = Some(sink);
            None
        } else {
            Some(sink)
        }
    }
}

} // verus!
