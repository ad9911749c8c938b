//! Markers: types that stand for one payload type each, and the closed set of
//! payloads that a request can carry.
use crate::site::CallSite;
use std::marker::PhantomData;
use vstd::prelude::*;

verus! {

/// The payload types that markers can select.
#[derive(PartialEq, Eq, Structural, Clone, Copy)]
pub enum Kind {
    Site,
    Sites,
    SiteSlice,
    Text,
    Count,
}

/// How a payload is handed over: borrowed, borrowed exclusively, or owned.
#[derive(PartialEq, Eq, Structural, Clone, Copy)]
pub enum Shape {
    Shared,
    Exclusive,
    Owned,
}

/// The run-time identity of a marker.
#[derive(PartialEq, Eq, Structural, Clone, Copy)]
pub struct TagId {
    pub shape: Shape,
    pub kind: Kind,
}

/// A payload with its type erased into one of the known shapes and kinds.
pub enum Erased<'a> {
    SiteRef(&'a CallSite),
    SiteMut(&'a mut CallSite),
    SiteVal(CallSite),
    SitesRef(&'a Vec<CallSite>),
    SitesMut(&'a mut Vec<CallSite>),
    SitesVal(Vec<CallSite>),
    SliceRef(&'a [CallSite]),
    TextRef(&'a String),
    TextMut(&'a mut String),
    TextVal(String),
    CountRef(&'a u64),
    CountMut(&'a mut u64),
    CountVal(u64),
}

impl<'a> Erased<'a> {
    /// Two payloads agree when they have the same shape and kind and hold the
    /// same value; an exclusive reference is compared by its referent, a
    /// slice by its elements.
    pub open spec fn agrees(self, other: Erased<'a>) -> bool {
        match (self, other) {
            (Erased::SiteRef(a), Erased::SiteRef(b)) => a == b,
            (Erased::SiteMut(a), Erased::SiteMut(b)) => *a == *b,
            (Erased::SiteVal(a), Erased::SiteVal(b)) => a == b,
            (Erased::SitesRef(a), Erased::SitesRef(b)) => a == b,
            (Erased::SitesMut(a), Erased::SitesMut(b)) => *a == *b,
            (Erased::SitesVal(a), Erased::SitesVal(b)) => a == b,
            (Erased::SliceRef(a), Erased::SliceRef(b)) => a@ == b@,
            (Erased::TextRef(a), Erased::TextRef(b)) => a == b,
            (Erased::TextMut(a), Erased::TextMut(b)) => *a == *b,
            (Erased::TextVal(a), Erased::TextVal(b)) => a == b,
            (Erased::CountRef(a), Erased::CountRef(b)) => a == b,
            (Erased::CountMut(a), Erased::CountMut(b)) => *a == *b,
            (Erased::CountVal(a), Erased::CountVal(b)) => a == b,
            _ => false,
        }
    }
}

/// A type whose shared references can travel through a request.
pub trait Known {
    spec fn kind() -> Kind;

    fn kind_of() -> (r: Kind)
        ensures
            r == Self::kind(),
    ;

    /// Two references of this type stand for the same value.
    spec fn same(a: &Self, b: &Self) -> bool;

    spec fn spec_erase_ref<'a>(v: &'a Self) -> Erased<'a>;

    spec fn spec_unerase_ref<'a>(e: Erased<'a>) -> Option<&'a Self>;

    fn erase_ref<'a>(v: &'a Self) -> (e: Erased<'a>)
        ensures
            e == Self::spec_erase_ref(v),
    ;

    fn unerase_ref<'a>(e: Erased<'a>) -> (r: Option<&'a Self>)
        ensures
            r == Self::spec_unerase_ref(e),
    ;

    proof fn lemma_ref_round_trip<'a>(v: &'a Self)
        ensures
            Self::spec_unerase_ref(Self::spec_erase_ref(v)) == Some(v),
    ;

    proof fn lemma_ref_agrees<'a>(e1: Erased<'a>, e2: Erased<'a>)
        requires
            e1.agrees(e2),
        ensures
            match (Self::spec_unerase_ref(e1), Self::spec_unerase_ref(e2)) {
                (None, None) => true,
                (Some(x), Some(y)) => Self::same(x, y),
                _ => false,
            },
    ;

    proof fn lemma_same_equivalence(a: &Self, b: &Self, c: &Self)
        ensures
            Self::same(a, a),
            Self::same(a, b) ==> Self::same(b, a),
            Self::same(a, b) && Self::same(b, c) ==> Self::same(a, c),
    ;
}

/// A sized type whose exclusive references and owned values can also travel
/// through a request.
pub trait KnownSized: Known + Sized {
    /// `e` is an exclusive reference of this kind whose referent is `v`.
    spec fn carries_mut<'a>(e: Erased<'a>, v: Self) -> bool;

    spec fn spec_unerase_mut<'a>(e: Erased<'a>) -> Option<&'a mut Self>;

    spec fn spec_erase_val<'a>(v: Self) -> Erased<'a>;

    spec fn spec_unerase_val<'a>(e: Erased<'a>) -> Option<Self>;

    /// Erases `v`; the payload holds `v` itself (same referent now and at
    /// the end of the borrow).
    fn erase_mut<'a>(v: &'a mut Self) -> (e: Erased<'a>)
        ensures
            Self::carries_mut(e, *old(v)),
            Self::spec_unerase_mut(e) matches Some(x) && *x == *old(v) && *final(x) == *final(v),
    ;

    /// The exclusive reference `e` holds, if it holds one of this kind: the
    /// same reference (same referent now and at the end of the borrow).
    fn unerase_mut<'a>(e: Erased<'a>) -> (r: Option<&'a mut Self>)
        ensures
            match (r, Self::spec_unerase_mut(e)) {
                (None, None) => true,
                (Some(x), Some(w)) => *x == *w && *final(x) == *final(w),
                _ => false,
            },
    ;

    fn erase_val<'a>(v: Self) -> (e: Erased<'a>)
        ensures
            e == Self::spec_erase_val(v),
    ;

    fn unerase_val<'a>(e: Erased<'a>) -> (r: Option<Self>)
        ensures
            r == Self::spec_unerase_val(e),
    ;

    proof fn lemma_mut_round_trip<'a>(e: Erased<'a>, v: Self)
        requires
            Self::carries_mut(e, v),
        ensures
            Self::spec_unerase_mut(e) matches Some(w) && *w == v,
    ;

    proof fn lemma_val_round_trip(v: Self)
        ensures
            Self::spec_unerase_val(Self::spec_erase_val(v)) == Some(v),
    ;

    proof fn lemma_mut_agrees<'a>(e1: Erased<'a>, e2: Erased<'a>)
        requires
            e1.agrees(e2),
        ensures
            match (Self::spec_unerase_mut(e1), Self::spec_unerase_mut(e2)) {
                (None, None) => true,
                (Some(x), Some(y)) => *x == *y,
                _ => false,
            },
    ;

    proof fn lemma_val_agrees<'a>(e1: Erased<'a>, e2: Erased<'a>)
        requires
            e1.agrees(e2),
        ensures
            Self::spec_unerase_val(e1) == Self::spec_unerase_val(e2),
    ;
}

impl Known for CallSite {
    open spec fn kind() -> Kind {
        Kind::Site
    }

    open spec fn same(a: &Self, b: &Self) -> bool {
        a == b
    }

    fn kind_of() -> (r: Kind) {
        Kind::Site
    }

    open spec fn spec_erase_ref<'a>(v: &'a Self) -> Erased<'a> {
        Erased::SiteRef(v)
    }

    open spec fn spec_unerase_ref<'a>(e: Erased<'a>) -> Option<&'a Self> {
        match e {
            Erased::SiteRef(v) => Some(v),
            _ => None,
        }
    }

    fn erase_ref<'a>(v: &'a Self) -> (e: Erased<'a>) {
        Erased::SiteRef(v)
    }

    fn unerase_ref<'a>(e: Erased<'a>) -> (r: Option<&'a Self>) {
        match e {
            Erased::SiteRef(v) => Some(v),
            _ => None,
        }
    }

    proof fn lemma_ref_round_trip<'a>(v: &'a Self) {
    }

    proof fn lemma_ref_agrees<'a>(e1: Erased<'a>, e2: Erased<'a>) {
    }

    proof fn lemma_same_equivalence(a: &Self, b: &Self, c: &Self) {
    }
}

impl Known for Vec<CallSite> {
    open spec fn kind() -> Kind {
        Kind::Sites
    }

    open spec fn same(a: &Self, b: &Self) -> bool {
        a == b
    }

    fn kind_of() -> (r: Kind) {
        Kind::Sites
    }

    open spec fn spec_erase_ref<'a>(v: &'a Self) -> Erased<'a> {
        Erased::SitesRef(v)
    }

    open spec fn spec_unerase_ref<'a>(e: Erased<'a>) -> Option<&'a Self> {
        match e {
            Erased::SitesRef(v) => Some(v),
            _ => None,
        }
    }

    fn erase_ref<'a>(v: &'a Self) -> (e: Erased<'a>) {
        Erased::SitesRef(v)
    }

    fn unerase_ref<'a>(e: Erased<'a>) -> (r: Option<&'a Self>) {
        match e {
            Erased::SitesRef(v) => Some(v),
            _ => None,
        }
    }

    proof fn lemma_ref_round_trip<'a>(v: &'a Self) {
    }

    proof fn lemma_ref_agrees<'a>(e1: Erased<'a>, e2: Erased<'a>) {
    }

    proof fn lemma_same_equivalence(a: &Self, b: &Self, c: &Self) {
    }
}

impl Known for String {
    open spec fn kind() -> Kind {
        Kind::Text
    }

    open spec fn same(a: &Self, b: &Self) -> bool {
        a == b
    }

    fn kind_of() -> (r: Kind) {
        Kind::Text
    }

    open spec fn spec_erase_ref<'a>(v: &'a Self) -> Erased<'a> {
        Erased::TextRef(v)
    }

    open spec fn spec_unerase_ref<'a>(e: Erased<'a>) -> Option<&'a Self> {
        match e {
            Erased::TextRef(v) => Some(v),
            _ => None,
        }
    }

    fn erase_ref<'a>(v: &'a Self) -> (e: Erased<'a>) {
        Erased::TextRef(v)
    }

    fn unerase_ref<'a>(e: Erased<'a>) -> (r: Option<&'a Self>) {
        match e {
            Erased::TextRef(v) => Some(v),
            _ => None,
        }
    }

    proof fn lemma_ref_round_trip<'a>(v: &'a Self) {
    }

    proof fn lemma_ref_agrees<'a>(e1: Erased<'a>, e2: Erased<'a>) {
    }

    proof fn lemma_same_equivalence(a: &Self, b: &Self, c: &Self) {
    }
}

impl Known for u64 {
    open spec fn kind() -> Kind {
        Kind::Count
    }

    open spec fn same(a: &Self, b: &Self) -> bool {
        a == b
    }

    fn kind_of() -> (r: Kind) {
        Kind::Count
    }

    open spec fn spec_erase_ref<'a>(v: &'a Self) -> Erased<'a> {
        Erased::CountRef(v)
    }

    open spec fn spec_unerase_ref<'a>(e: Erased<'a>) -> Option<&'a Self> {
        match e {
            Erased::CountRef(v) => Some(v),
            _ => None,
        }
    }

    fn erase_ref<'a>(v: &'a Self) -> (e: Erased<'a>) {
        Erased::CountRef(v)
    }

    fn unerase_ref<'a>(e: Erased<'a>) -> (r: Option<&'a Self>) {
        match e {
            Erased::CountRef(v) => Some(v),
            _ => None,
        }
    }

    proof fn lemma_ref_round_trip<'a>(v: &'a Self) {
    }

    proof fn lemma_ref_agrees<'a>(e1: Erased<'a>, e2: Erased<'a>) {
    }

    proof fn lemma_same_equivalence(a: &Self, b: &Self, c: &Self) {
    }
}

impl Known for [CallSite] {
    open spec fn kind() -> Kind {
        Kind::SiteSlice
    }

    open spec fn same(a: &Self, b: &Self) -> bool {
        a@ == b@
    }

    fn kind_of() -> (r: Kind) {
        Kind::SiteSlice
    }

    open spec fn spec_erase_ref<'a>(v: &'a Self) -> Erased<'a> {
        Erased::SliceRef(v)
    }

    open spec fn spec_unerase_ref<'a>(e: Erased<'a>) -> Option<&'a Self> {
        match e {
            Erased::SliceRef(v) => Some(v),
            _ => None,
        }
    }

    fn erase_ref<'a>(v: &'a Self) -> (e: Erased<'a>) {
        Erased::SliceRef(v)
    }

    fn unerase_ref<'a>(e: Erased<'a>) -> (r: Option<&'a Self>) {
        match e {
            Erased::SliceRef(v) => Some(v),
            _ => None,
        }
    }

    proof fn lemma_ref_round_trip<'a>(v: &'a Self) {
    }

    proof fn lemma_ref_agrees<'a>(e1: Erased<'a>, e2: Erased<'a>) {
    }

    proof fn lemma_same_equivalence(a: &Self, b: &Self, c: &Self) {
    }
}

impl KnownSized for CallSite {
    open spec fn carries_mut<'a>(e: Erased<'a>, v: Self) -> bool {
        e matches Erased::SiteMut(a) && *a == v
    }

    open spec fn spec_unerase_mut<'a>(e: Erased<'a>) -> Option<&'a mut Self> {
        match e {
            Erased::SiteMut(v) => Some(v),
            _ => None,
        }
    }

    open spec fn spec_erase_val<'a>(v: Self) -> Erased<'a> {
        Erased::SiteVal(v)
    }

    open spec fn spec_unerase_val<'a>(e: Erased<'a>) -> Option<Self> {
        match e {
            Erased::SiteVal(v) => Some(v),
            _ => None,
        }
    }

    fn erase_mut<'a>(v: &'a mut Self) -> (e: Erased<'a>) {
        Erased::SiteMut(v)
    }

    fn unerase_mut<'a>(e: Erased<'a>) -> (r: Option<&'a mut Self>) {
        match e {
            Erased::SiteMut(v) => Some(v),
            _ => None,
        }
    }

    fn erase_val<'a>(v: Self) -> (e: Erased<'a>) {
        Erased::SiteVal(v)
    }

    fn unerase_val<'a>(e: Erased<'a>) -> (r: Option<Self>) {
        match e {
            Erased::SiteVal(v) => Some(v),
            _ => None,
        }
    }

    proof fn lemma_mut_round_trip<'a>(e: Erased<'a>, v: Self) {
    }

    proof fn lemma_val_round_trip(v: Self) {
    }

    proof fn lemma_mut_agrees<'a>(e1: Erased<'a>, e2: Erased<'a>) {
    }

    proof fn lemma_val_agrees<'a>(e1: Erased<'a>, e2: Erased<'a>) {
    }
}

impl KnownSized for Vec<CallSite> {
    open spec fn carries_mut<'a>(e: Erased<'a>, v: Self) -> bool {
        e matches Erased::SitesMut(a) && *a == v
    }

    open spec fn spec_unerase_mut<'a>(e: Erased<'a>) -> Option<&'a mut Self> {
        match e {
            Erased::SitesMut(v) => Some(v),
            _ => None,
        }
    }

    open spec fn spec_erase_val<'a>(v: Self) -> Erased<'a> {
        Erased::SitesVal(v)
    }

    open spec fn spec_unerase_val<'a>(e: Erased<'a>) -> Option<Self> {
        match e {
            Erased::SitesVal(v) => Some(v),
            _ => None,
        }
    }

    fn erase_mut<'a>(v: &'a mut Self) -> (e: Erased<'a>) {
        Erased::SitesMut(v)
    }

    fn unerase_mut<'a>(e: Erased<'a>) -> (r: Option<&'a mut Self>) {
        match e {
            Erased::SitesMut(v) => Some(v),
            _ => None,
        }
    }

    fn erase_val<'a>(v: Self) -> (e: Erased<'a>) {
        Erased::SitesVal(v)
    }

    fn unerase_val<'a>(e: Erased<'a>) -> (r: Option<Self>) {
        match e {
            Erased::SitesVal(v) => Some(v),
            _ => None,
        }
    }

    proof fn lemma_mut_round_trip<'a>(e: Erased<'a>, v: Self) {
    }

    proof fn lemma_val_round_trip(v: Self) {
    }

    proof fn lemma_mut_agrees<'a>(e1: Erased<'a>, e2: Erased<'a>) {
    }

    proof fn lemma_val_agrees<'a>(e1: Erased<'a>, e2: Erased<'a>) {
    }
}

impl KnownSized for String {
    open spec fn carries_mut<'a>(e: Erased<'a>, v: Self) -> bool {
        e matches Erased::TextMut(a) && *a == v
    }

    open spec fn spec_unerase_mut<'a>(e: Erased<'a>) -> Option<&'a mut Self> {
        match e {
            Erased::TextMut(v) => Some(v),
            _ => None,
        }
    }

    open spec fn spec_erase_val<'a>(v: Self) -> Erased<'a> {
        Erased::TextVal(v)
    }

    open spec fn spec_unerase_val<'a>(e: Erased<'a>) -> Option<Self> {
        match e {
            Erased::TextVal(v) => Some(v),
            _ => None,
        }
    }

    fn erase_mut<'a>(v: &'a mut Self) -> (e: Erased<'a>) {
        Erased::TextMut(v)
    }

    fn unerase_mut<'a>(e: Erased<'a>) -> (r: Option<&'a mut Self>) {
        match e {
            Erased::TextMut(v) => Some(v),
            _ => None,
        }
    }

    fn erase_val<'a>(v: Self) -> (e: Erased<'a>) {
        Erased::TextVal(v)
    }

    fn unerase_val<'a>(e: Erased<'a>) -> (r: Option<Self>) {
        match e {
            Erased::TextVal(v) => Some(v),
            _ => None,
        }
    }

    proof fn lemma_mut_round_trip<'a>(e: Erased<'a>, v: Self) {
    }

    proof fn lemma_val_round_trip(v: Self) {
    }

    proof fn lemma_mut_agrees<'a>(e1: Erased<'a>, e2: Erased<'a>) {
    }

    proof fn lemma_val_agrees<'a>(e1: Erased<'a>, e2: Erased<'a>) {
    }
}

impl KnownSized for u64 {
    open spec fn carries_mut<'a>(e: Erased<'a>, v: Self) -> bool {
        e matches Erased::CountMut(a) && *a == v
    }

    open spec fn spec_unerase_mut<'a>(e: Erased<'a>) -> Option<&'a mut Self> {
        match e {
            Erased::CountMut(v) => Some(v),
            _ => None,
        }
    }

    open spec fn spec_erase_val<'a>(v: Self) -> Erased<'a> {
        Erased::CountVal(v)
    }

    open spec fn spec_unerase_val<'a>(e: Erased<'a>) -> Option<Self> {
        match e {
            Erased::CountVal(v) => Some(v),
            _ => None,
        }
    }

    fn erase_mut<'a>(v: &'a mut Self) -> (e: Erased<'a>) {
        Erased::CountMut(v)
    }

    fn unerase_mut<'a>(e: Erased<'a>) -> (r: Option<&'a mut Self>) {
        match e {
            Erased::CountMut(v) => Some(v),
            _ => None,
        }
    }

    fn erase_val<'a>(v: Self) -> (e: Erased<'a>) {
        Erased::CountVal(v)
    }

    fn unerase_val<'a>(e: Erased<'a>) -> (r: Option<Self>) {
        match e {
            Erased::CountVal(v) => Some(v),
            _ => None,
        }
    }

    proof fn lemma_mut_round_trip<'a>(e: Erased<'a>, v: Self) {
    }

    proof fn lemma_val_round_trip(v: Self) {
    }

    proof fn lemma_mut_agrees<'a>(e1: Erased<'a>, e2: Erased<'a>) {
    }

    proof fn lemma_val_agrees<'a>(e1: Erased<'a>, e2: Erased<'a>) {
    }
}

/// A marker: a type that stands for one payload type.
///
/// A request tells markers apart by `tag()` alone, so a marker defined
/// outside this crate must not share its `tag()` with any other marker.
pub trait Tag<'a>: Sized {
    /// The payload type this marker selects.
    type Type;

    spec fn tag() -> TagId;

    fn id() -> (r: TagId)
        ensures
            r == Self::tag(),
    ;

    /// `e` carries the payload `v` of this marker.
    spec fn embeds(e: Erased<'a>, v: Self::Type) -> bool;

    spec fn spec_extract(e: Erased<'a>) -> Option<Self::Type>;

    /// When a payload read back stands for the one that was stored.
    spec fn agrees(got: Self::Type, put: Self::Type) -> bool;

    fn embed(v: Self::Type) -> (e: Erased<'a>)
        ensures
            Self::embeds(e, v),
    ;

    fn extract(e: Erased<'a>) -> (r: Option<Self::Type>)
        ensures
            match (r, Self::spec_extract(e)) {
                (None, None) => true,
                (Some(x), Some(y)) => Self::agrees(x, y),
                _ => false,
            },
    ;

    /// Reading back a payload gives the one it carries.
    proof fn lemma_round_trip(e: Erased<'a>, v: Self::Type)
        requires
            Self::embeds(e, v),
        ensures
            Self::spec_extract(e) matches Some(w) && Self::agrees(w, v),
    ;

    /// Payloads that agree read back alike.
    proof fn lemma_extract_agrees(e1: Erased<'a>, e2: Erased<'a>)
        requires
            e1.agrees(e2),
        ensures
            match (Self::spec_extract(e1), Self::spec_extract(e2)) {
                (None, None) => true,
                (Some(x), Some(y)) => Self::agrees(x, y),
                _ => false,
            },
    ;

    /// Agreement is an equivalence.
    proof fn lemma_agrees_equivalence(a: Self::Type, b: Self::Type, c: Self::Type)
        ensures
            Self::agrees(a, a),
            Self::agrees(a, b) ==> Self::agrees(b, a),
            Self::agrees(a, b) && Self::agrees(b, c) ==> Self::agrees(a, c),
    ;
}

/// Two optional payloads of marker `I` agree: both absent, or both present
/// and agreeing.
pub open spec fn answers_agree<'a, I: Tag<'a>>(a: Option<I::Type>, b: Option<I::Type>) -> bool {
    match (a, b) {
        (None, None) => true,
        (Some(x), Some(y)) => I::agrees(x, y),
        _ => false,
    }
}

/// Agreement of optional payloads is an equivalence.
pub proof fn lemma_answers_agree_equivalence<'a, I: Tag<'a>>(
    a: Option<I::Type>,
    b: Option<I::Type>,
    c: Option<I::Type>,
)
    ensures
        answers_agree::<'a, I>(a, a),
        answers_agree::<'a, I>(a, b) ==> answers_agree::<'a, I>(b, a),
        answers_agree::<'a, I>(a, b) && answers_agree::<'a, I>(b, c) ==> answers_agree::<'a, I>(
            a,
            c,
        ),
{
    if let (Some(x), Some(y), Some(z)) = (a, b, c) {
        I::lemma_agrees_equivalence(x, y, z);
    } else if let Some(x) = a {
        I::lemma_agrees_equivalence(x, x, x);
        if let Some(y) = b {
            I::lemma_agrees_equivalence(x, y, y);
            I::lemma_agrees_equivalence(y, x, x);
        }
    } else if let Some(y) = b {
        I::lemma_agrees_equivalence(y, y, y);
    }
}

/// Marker for a shared reference `&'a T`.
pub struct Ref<T: ?Sized + 'static>(PhantomData<T>);

impl<'a, T: ?Sized + Known + 'static> Tag<'a> for Ref<T> {
    type Type = &'a T;

    open spec fn tag() -> TagId {
        TagId { shape: Shape::Shared, kind: T::kind() }
    }

    fn id() -> (r: TagId) {
        TagId { shape: Shape::Shared, kind: T::kind_of() }
    }

    open spec fn embeds(e: Erased<'a>, v: &'a T) -> bool {
        e == T::spec_erase_ref(v)
    }

    open spec fn spec_extract(e: Erased<'a>) -> Option<&'a T> {
        T::spec_unerase_ref(e)
    }

    open spec fn agrees(got: &'a T, put: &'a T) -> bool {
        T::same(got, put)
    }

    fn embed(v: &'a T) -> (e: Erased<'a>) {
        T::erase_ref(v)
    }

    fn extract(e: Erased<'a>) -> (r: Option<&'a T>) {
        let r = T::unerase_ref(e);
        proof {
            if let Some(x) = r {
                T::lemma_same_equivalence(x, x, x);
            }
        }
        r
    }

    proof fn lemma_round_trip(e: Erased<'a>, v: &'a T) {
        T::lemma_ref_round_trip(v);
        T::lemma_same_equivalence(v, v, v);
    }

    proof fn lemma_extract_agrees(e1: Erased<'a>, e2: Erased<'a>) {
        T::lemma_ref_agrees(e1, e2);
    }

    proof fn lemma_agrees_equivalence(a: &'a T, b: &'a T, c: &'a T) {
        T::lemma_same_equivalence(a, b, c);
    }
}

/// Marker for an exclusive reference `&'a mut T`.
///
/// Through a generic marker, a reference read back is only known to have the
/// same referent as the one stored (`agrees`): equality of exclusive
/// references involves their value at the end of the borrow, which only
/// postconditions can speak of. `Request::provide_mut` and `request_mut`
/// state that the very reference comes back.
pub struct RefMut<T: 'static>(PhantomData<T>);

impl<'a, T: KnownSized + 'static> Tag<'a> for RefMut<T> {
    type Type = &'a mut T;

    open spec fn tag() -> TagId {
        TagId { shape: Shape::Exclusive, kind: T::kind() }
    }

    fn id() -> (r: TagId) {
        TagId { shape: Shape::Exclusive, kind: T::kind_of() }
    }

    open spec fn embeds(e: Erased<'a>, v: &'a mut T) -> bool {
        T::carries_mut(e, *v)
    }

    open spec fn spec_extract(e: Erased<'a>) -> Option<&'a mut T> {
        T::spec_unerase_mut(e)
    }

    open spec fn agrees(got: &'a mut T, put: &'a mut T) -> bool {
        *got == *put
    }

    fn embed(v: &'a mut T) -> (e: Erased<'a>)
        ensures
            T::spec_unerase_mut(e) matches Some(x) && *x == *old(v) && *final(x) == *final(v),
    {
        T::erase_mut(v)
    }

    fn extract(e: Erased<'a>) -> (r: Option<&'a mut T>)
        ensures
            match (r, T::spec_unerase_mut(e)) {
                (None, None) => true,
                (Some(x), Some(w)) => *x == *w && *final(x) == *final(w),
                _ => false,
            },
    {
        T::unerase_mut(e)
    }

    proof fn lemma_round_trip(e: Erased<'a>, v: &'a mut T) {
        T::lemma_mut_round_trip(e, *v);
    }

    proof fn lemma_extract_agrees(e1: Erased<'a>, e2: Erased<'a>) {
        T::lemma_mut_agrees(e1, e2);
    }

    proof fn lemma_agrees_equivalence(a: &'a mut T, b: &'a mut T, c: &'a mut T) {
    }
}

/// Marker for an owned value `T`.
pub struct Value<T: 'static>(PhantomData<T>);

impl<'a, T: KnownSized + 'static> Tag<'a> for Value<T> {
    type Type = T;

    open spec fn tag() -> TagId {
        TagId { shape: Shape::Owned, kind: T::kind() }
    }

    fn id() -> (r: TagId) {
        TagId { shape: Shape::Owned, kind: T::kind_of() }
    }

    open spec fn embeds(e: Erased<'a>, v: T) -> bool {
        e == T::spec_erase_val(v)
    }

    open spec fn spec_extract(e: Erased<'a>) -> Option<T> {
        T::spec_unerase_val(e)
    }

    open spec fn agrees(got: T, put: T) -> bool {
        got == put
    }

    fn embed(v: T) -> (e: Erased<'a>) {
        T::erase_val(v)
    }

    fn extract(e: Erased<'a>) -> (r: Option<T>) {
        T::unerase_val(e)
    }

    proof fn lemma_round_trip(e: Erased<'a>, v: T) {
        T::lemma_val_round_trip(v);
    }

    proof fn lemma_extract_agrees(e1: Erased<'a>, e2: Erased<'a>) {
        T::lemma_val_agrees(e1, e2);
    }

    proof fn lemma_agrees_equivalence(a: T, b: T, c: T) {
    }
}

} // verus!
