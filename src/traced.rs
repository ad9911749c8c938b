//! A failure that keeps its own call-site trace and may wrap another.
use crate::any::Request;
use crate::error::{chain_ends, walk, Error};
use crate::site::CallSite;
use crate::tag::{Erased, Ref, Tag, TagId};
use crate::track::Track;
use vstd::prelude::*;

verus! {

/// A named failure with the call sites it was raised or passed at, and the
/// failure it wraps, if any.
pub struct TracedError {
    pub name: String,
    pub frames: Vec<CallSite>,
    pub source: Option<Box<TracedError>>,
}

impl TracedError {
    /// A failure named `name`, raised at `site`, wrapping nothing.
    pub fn new(name: String, site: CallSite) -> (r: TracedError)
        ensures
            r.name@ == name@,
            r.frames@ == seq![site],
            r.source is None,
    {
        let mut frames: Vec<CallSite> = Vec::new();
        frames.push(site);
        TracedError { name, frames, source: None }
    }

    /// A failure named `name` that wraps `self`, with an empty trace of its own.
    pub fn wrap(self, name: String) -> (r: TracedError)
        ensures
            r.name@ == name@,
            r.frames@ == Seq::<CallSite>::empty(),
            r.source == Some(Box::new(self)),
    {
        TracedError { name, frames: Vec::new(), source: Some(Box::new(self)) }
    }
}

impl Track for TracedError {
    /// The site is pushed onto the trace; name and source stay.
    open spec fn records(before: TracedError, after: TracedError, site: CallSite) -> bool {
        &&& after.frames@ == before.frames@.push(site)
        &&& after.name == before.name
        &&& after.source == before.source
    }

    fn track(&mut self, site: CallSite) {
        self.frames.push(site);
    }
}

impl Error for TracedError {
    fn message(&self) -> (r: String)
        ensures
            r@ == self.name@,
    {
        self.name.clone()
    }

    fn debug_message(&self) -> (r: String)
        ensures
            r@ == self.name@,
    {
        self.name.clone()
    }

    open spec fn spec_source(&self) -> Option<&TracedError> {
        match self.source {
            Some(b) => Some(&*b),
            None => None,
        }
    }

    fn source(&self) -> (r: Option<&TracedError>) {
        match &self.source {
            Some(b) => Some(&**b),
            None => None,
        }
    }

    /// The trace, both as a vector and as a slice.
    open spec fn offer<'a>(&'a self, id: TagId) -> Option<Erased<'a>> {
        if id == Ref::<Vec<CallSite>>::tag() {
            Some(Erased::SitesRef(&self.frames))
        } else if id == Ref::<[CallSite]>::tag() {
            Some(Erased::SliceRef(choose|s: &'a [CallSite]| #[trigger] s@ == self.frames@))
        } else {
            None
        }
    }

    fn provide_context<'a>(&'a self, request: &mut Request<'a>) {
        let slice = self.frames.as_slice();
        request.provide_ref::<Vec<CallSite>>(&self.frames).provide_ref::<[CallSite]>(slice);
    }
}

/// How many failures `e` wraps, one inside the other.
pub open spec fn depth(e: &TracedError) -> nat
    decreases e,
{
    match e.source {
        Some(b) => 1 + depth(&*b),
        None => 0,
    }
}

/// The chain of a `TracedError` comes to an end: after one step more than
/// its depth.
pub proof fn lemma_traced_chain_ends(e: &TracedError)
    ensures
        walk(Some(e), depth(e) + 1) is None,
        chain_ends(e),
    decreases e,
{
    match e.source {
        Some(b) => {
            lemma_traced_chain_ends(&*b);
            assert(walk(Some(e), depth(e) + 1) == walk(Some(&*b), depth(&*b) + 1));
        },
        None => {
            assert(walk(Some(e), 1) == walk(e.spec_source(), 0));
        },
    }
    assert(walk(Some(e), depth(e) + 1) is None);
}

} // verus!
