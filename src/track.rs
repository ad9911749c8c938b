//! Recording call sites as a failure is passed on.
use crate::site::CallSite;
use vstd::prelude::*;

verus! {

/// A failure that can keep the call sites it passes through.
///
/// A failure that keeps no trace records nothing: its `records` holds when
/// `after == before`, and its `track` leaves it as it is.
pub trait Track: Sized {
    /// `after` is `before` with `site` recorded on it.
    spec fn records(before: Self, after: Self, site: CallSite) -> bool;

    /// Records one call site.
    fn track(&mut self, site: CallSite)
        ensures
            Self::records(*old(self), *final(self), site),
    ;
}

} // verus!
