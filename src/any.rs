//! The typed output slot: a request bound to one marker, which providers fill
//! by offering payloads under markers of their choice.
use crate::tag::{answers_agree, Erased, Known, KnownSized, Ref, RefMut, Tag, TagId};
use vstd::prelude::*;

verus! {

/// Marks the types that may be `Tagged`.
pub trait Sealed {}

/// A type-erased value that knows the marker it was made for.
pub trait Tagged<'a>: Sealed {
    /// The identity of the marker this value was made for.
    spec fn spec_tag_id(&self) -> TagId;

    /// The identity of the marker this value was made for.
    fn tag_id(&self) -> (r: TagId)
        ensures
            r == self.spec_tag_id(),
    ;

    /// Whether this value was made for marker `I`.
    fn is<I: Tag<'a>>(&self) -> (r: bool)
        ensures
            r == (self.spec_tag_id() == I::tag()),
    {
        self.tag_id() == I::id()
    }
}

/// A request for one payload: bound to one marker for its whole life, empty
/// until a provider fills it.
pub struct Request<'a> {
    tag: TagId,
    slot: Option<Erased<'a>>,
}

/// `after` is `before` once `v` was provided under marker `I`: filled (the
/// last write wins) if the request is bound to `I`, unchanged otherwise.
pub open spec fn provided<'a, I: Tag<'a>>(before: Request<'a>, after: Request<'a>, v: I::Type) -> bool {
    &&& after.bound() == before.bound()
    &&& if before.bound() == I::tag() {
        after.held() matches Some(e) && I::embeds(e, v)
    } else {
        after.held() == before.held()
    }
}

/// `after` is `before` once a provider offered `offer` under the marker that
/// the request is bound to (`None`: nothing under that marker).
pub open spec fn answered<'a>(before: Request<'a>, after: Request<'a>, offer: Option<Erased<'a>>) -> bool {
    &&& after.bound() == before.bound()
    &&& match offer {
        Some(p) => after.held() matches Some(e) && e.agrees(p),
        None => after.held() == before.held(),
    }
}

/// What marker `I` reads from a payload that may be absent.
pub open spec fn read<'a, I: Tag<'a>>(held: Option<Erased<'a>>) -> Option<I::Type> {
    match held {
        Some(e) => I::spec_extract(e),
        None => None,
    }
}

impl<'a> Request<'a> {
    /// The marker identity this request is bound to.
    pub closed spec fn bound(&self) -> TagId {
        self.tag
    }

    /// The payload stored so far, if any.
    pub closed spec fn held(&self) -> Option<Erased<'a>> {
        self.slot
    }

    /// An empty request bound to marker `I`.
    pub(crate) fn empty<I: Tag<'a>>() -> (r: Self)
        ensures
            r.bound() == I::tag(),
            r.held() is None,
    {
        Request { tag: I::id(), slot: None }
    }

    /// Reads the stored payload back as marker `I`.
    pub(crate) fn answer<I: Tag<'a>>(self) -> (r: Option<I::Type>)
        ensures
            answers_agree::<'a, I>(r, read::<'a, I>(self.held())),
    {
        match self.slot {
            Some(e) => I::extract(e),
            None => None,
        }
    }

    /// Whether this request is bound to marker `I`.
    pub fn is<I: Tag<'a>>(&self) -> (r: bool)
        ensures
            r == (self.bound() == I::tag()),
    {
        self.tag == I::id()
    }

    /// Stores `value` if this request is bound to `I`; otherwise does nothing.
    pub fn provide<I: Tag<'a>>(&mut self, value: I::Type) -> (r: &mut Self)
        ensures
            provided::<'a, I>(*old(self), *r, value),
            *final(self) == *final(r),
    {
        if self.tag == I::id() {
            self.slot = Some(I::embed(value));
        }
        self
    }

    /// Stores the shared reference `value` if this request is bound to
    /// `Ref<T>`; otherwise does nothing.
    pub fn provide_ref<T: ?Sized + Known + 'static>(&mut self, value: &'a T) -> (r: &mut Self)
        ensures
            r.bound() == old(self).bound(),
            r.held() == if old(self).bound() == Ref::<T>::tag() {
                Some(T::spec_erase_ref(value))
            } else {
                old(self).held()
            },
            *final(self) == *final(r),
    {
        if self.tag == Ref::<T>::id() {
            self.slot = Some(T::erase_ref(value));
        }
        self
    }

    /// Stores the exclusive reference `value` itself if this request is bound
    /// to `RefMut<T>`; otherwise does nothing.
    pub fn provide_mut<T: KnownSized + 'static>(&mut self, value: &'a mut T) -> (r: &mut Self)
        ensures
            r.bound() == old(self).bound(),
            old(self).bound() == RefMut::<T>::tag() ==> (r.held() matches Some(e)
                && T::spec_unerase_mut(e) matches Some(x) && *x == *old(value) && *final(x)
                == *final(value)),
            old(self).bound() != RefMut::<T>::tag() ==> r.held() == old(self).held(),
            *final(self) == *final(r),
    {
        if self.tag == RefMut::<T>::id() {
            self.slot = Some(T::erase_mut(value));
        }
        self
    }

    /// Calls `f` and stores its result if this request is bound to `I`;
    /// otherwise does nothing and leaves `f` uncalled.
    pub fn provide_with<I: Tag<'a>, F: FnOnce() -> I::Type>(&mut self, f: F) -> (r: &mut Self)
        requires
            old(self).bound() == I::tag() ==> f.requires(()),
        ensures
            r.bound() == old(self).bound(),
            old(self).bound() == I::tag() ==> exists|v: I::Type|
                f.ensures((), v) && (r.held() matches Some(e) && I::embeds(e, v)),
            old(self).bound() != I::tag() ==> r.held() == old(self).held(),
            *final(self) == *final(r),
    {
        if self.tag == I::id() {
            let v = f();
            self.slot = Some(I::embed(v));
        }
        self
    }
}

impl<'a> Sealed for Request<'a> {}

impl<'a> Tagged<'a> for Request<'a> {
    open spec fn spec_tag_id(&self) -> TagId {
        self.bound()
    }

    fn tag_id(&self) -> (r: TagId) {
        self.tag
    }
}

/// A source of typed payloads: fills any request whose marker it knows.
///
/// `offer` defaults to offering nothing; an implementation that provides
/// payloads states them there, and only a verified one is held to it.
pub trait Provider {
    /// What this provider offers under the marker with identity `id`.
    open spec fn offer<'a>(&'a self, id: TagId) -> Option<Erased<'a>> {
        None
    }

    /// Fills `request` with what this provider offers under its marker.
    fn provide<'a>(&'a self, request: &mut Request<'a>)
        ensures
            answered(*old(request), *final(request), self.offer(old(request).bound())),
    ;

    /// Asks this provider for the payload of marker `I`.
    fn request<'a, I: Tag<'a>>(&'a self) -> (r: Option<I::Type>)
        ensures
            answers_agree::<'a, I>(r, read::<'a, I>(self.offer(I::tag()))),
    {
        let fill = |q: &mut Request<'a>|
            ensures
                answered(*old(q), *final(q), self.offer(old(q).bound())),
            {
                self.provide(q);
            };
        let r = request::<I, _>(fill);
        proof {
            let q = choose|q: &mut Request<'a>|
                #[trigger] fill.ensures((q,), ()) && q.bound() == I::tag() && q.held() is None
                    && answers_agree::<'a, I>(r, read::<'a, I>(final(q).held()));
            lemma_answer_of_offer::<'a, I>(*q, *final(q), self.offer(I::tag()));
        }
        r
    }
}

/// A request for marker `I` filled from `offer` reads back what `offer` holds.
pub proof fn lemma_answer_of_offer<'a, I: Tag<'a>>(
    before: Request<'a>,
    after: Request<'a>,
    offer: Option<Erased<'a>>,
)
    requires
        before.held() is None,
        answered(before, after, offer),
    ensures
        forall|r: Option<I::Type>|
            answers_agree::<'a, I>(r, read::<'a, I>(after.held())) ==> answers_agree::<'a, I>(
                r,
                read::<'a, I>(offer),
            ),
{
    if let Some(p) = offer {
        let e = after.held()->Some_0;
        I::lemma_extract_agrees(e, p);
    }
    assert forall|r: Option<I::Type>|
        answers_agree::<'a, I>(r, read::<'a, I>(after.held())) implies answers_agree::<'a, I>(
            r,
            read::<'a, I>(offer),
        ) by {
        crate::tag::lemma_answers_agree_equivalence::<'a, I>(
            r,
            read::<'a, I>(after.held()),
            read::<'a, I>(offer),
        );
    }
}

/// Builds an empty request bound to marker `I`, lets `f` fill it, and reads
/// it back: `Some` payload if `f` provided one under `I`, `None` otherwise.
pub fn request<'a, I: Tag<'a>, F: FnOnce(&mut Request<'a>)>(f: F) -> (r: Option<I::Type>)
    requires
        forall|q: &mut Request<'a>| #[trigger] f.requires((q,)),
    ensures
        exists|q: &mut Request<'a>|
            #[trigger] f.ensures((q,), ()) && q.bound() == I::tag() && q.held() is None
                && answers_agree::<'a, I>(r, read::<'a, I>(final(q).held())),
{
    let mut req = Request::empty::<I>();
    f(&mut req);
    req.answer::<I>()
}

/// Builds an empty request bound to `RefMut<T>`, lets `f` fill it, and
/// hands back the very exclusive reference stored last, if any.
pub fn request_mut<'a, T: KnownSized + 'static, F: FnOnce(&mut Request<'a>)>(f: F) -> (r: Option<
    &'a mut T,
>)
    requires
        forall|q: &mut Request<'a>| #[trigger] f.requires((q,)),
    ensures
        exists|q: &mut Request<'a>|
            #[trigger] f.ensures((q,), ()) && q.bound() == RefMut::<T>::tag() && q.held() is None
                && match final(q).held() {
                Some(e) => match (r, T::spec_unerase_mut(e)) {
                    (None, None) => true,
                    (Some(x), Some(w)) => *x == *w && *final(x) == *final(w),
                    _ => false,
                },
                None => r is None,
            },
{
    let mut req = Request::empty::<RefMut<T>>();
    f(&mut req);
    match req.slot {
        Some(e) => T::unerase_mut(e),
        None => None,
    }
}

/// Providing `v` under the marker that an empty request is bound to, then
/// reading the request back, gives `v`.
pub proof fn lemma_provide_then_read<'a, M: Tag<'a>>(
    before: Request<'a>,
    after: Request<'a>,
    v: M::Type,
)
    requires
        before.bound() == M::tag(),
        before.held() is None,
        provided::<'a, M>(before, after, v),
    ensures
        read::<'a, M>(after.held()) matches Some(w) && M::agrees(w, v),
{
    M::lemma_round_trip(after.held()->Some_0, v);
}

/// Providing under a marker other than the one an empty request is bound to
/// leaves it empty: the value never reaches a request for another marker.
pub proof fn lemma_provide_other_marker<'a, M1: Tag<'a>, M2: Tag<'a>>(
    before: Request<'a>,
    after: Request<'a>,
    v: M2::Type,
)
    requires
        before.bound() == M1::tag(),
        M1::tag() != M2::tag(),
        before.held() is None,
        provided::<'a, M2>(before, after, v),
    ensures
        read::<'a, M1>(after.held()) is None,
{
}

/// Of two values provided in turn under the marker a request is bound to,
/// the second is the one read back.
pub proof fn lemma_last_provide_wins<'a, M: Tag<'a>>(
    before: Request<'a>,
    middle: Request<'a>,
    after: Request<'a>,
    v1: M::Type,
    v2: M::Type,
)
    requires
        before.bound() == M::tag(),
        provided::<'a, M>(before, middle, v1),
        provided::<'a, M>(middle, after, v2),
    ensures
        read::<'a, M>(after.held()) matches Some(w) && M::agrees(w, v2),
{
    M::lemma_round_trip(after.held()->Some_0, v2);
}

} // verus!
