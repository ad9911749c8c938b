//! Diagnosable failures: a textual rendering, an optional predecessor, and
//! typed context offered through requests.
use crate::any::{answered, lemma_answer_of_offer, read, request, Request};
use crate::site::CallSite;
use crate::tag::{answers_agree, Erased, Known, KnownSized, Ref, Tag, TagId, Value};
use vstd::prelude::*;

verus! {

/// A failure that can be rendered, may wrap the failure that caused it, and
/// may offer typed context.
///
/// A failure wraps a failure of its own type (`source` returns
/// `Option<&Self>`), so a cause chain holds one failure type throughout; a
/// type with several kinds of failure, such as `TracedError`, names them.
/// `source` and `provide_context` have no default bodies: an implementation
/// writes them together with `spec_source` and `offer`, which default to
/// "nothing".
pub trait Error: Sized {
    /// The user-oriented rendering.
    fn message(&self) -> String;

    /// The debug-oriented rendering.
    fn debug_message(&self) -> String;

    /// The failure this one wraps, if any.
    open spec fn spec_source(&self) -> Option<&Self> {
        None
    }

    /// The failure this one wraps, if any (`None` for a failure that wraps
    /// nothing).
    fn source(&self) -> (r: Option<&Self>)
        ensures
            r == self.spec_source(),
    ;

    /// What this failure offers as context under the marker with identity `id`.
    open spec fn offer<'a>(&'a self, id: TagId) -> Option<Erased<'a>> {
        None
    }

    /// Fills `request` with the context this failure offers under its marker
    /// (a failure without context leaves it as it is).
    fn provide_context<'a>(&'a self, request: &mut Request<'a>)
        ensures
            answered(*old(request), *final(request), self.offer(old(request).bound())),
    ;

    /// A fixed text kept for callers of older interfaces.
    fn description(&self) -> (r: &str)
        ensures
            r@ == DEPRECATED_DESCRIPTION@,
    {
        DEPRECATED_DESCRIPTION
    }

    /// The failure this one wraps, if any; the same as `source`.
    fn cause(&self) -> (r: Option<&Self>)
        ensures
            r == self.spec_source(),
    {
        self.source()
    }

    /// The context of marker `I` that this failure offers, if any.
    fn request_context<'a, I: Tag<'a>>(&'a self) -> (r: Option<I::Type>)
        ensures
            answers_agree::<'a, I>(r, read::<'a, I>(self.offer(I::tag()))),
    {
        let fill = |q: &mut Request<'a>|
            ensures
                answered(*old(q), *final(q), self.offer(old(q).bound())),
            {
                self.provide_context(q);
            };
        let r = request::<I, _>(fill);
        proof {
            let q = choose|q: &mut Request<'a>|
                #[trigger] fill.ensures((q,), ()) && q.bound() == I::tag() && q.held() is None
                    && answers_agree::<'a, I>(r, read::<'a, I>(final(q).held()));
            lemma_answer_of_offer::<'a, I>(*q, *final(q), self.offer(I::tag()));
        }
        r
    }

    /// A shared reference to the context of type `T` that this failure
    /// offers, if any (a slice is given up to its elements).
    fn context_ref<'a, T: ?Sized + Known + 'static>(&'a self) -> (r: Option<&'a T>)
        ensures
            answers_agree::<'a, Ref<T>>(r, read::<'a, Ref<T>>(self.offer(Ref::<T>::tag()))),
    {
        self.request_context::<Ref<T>>()
    }

    /// The context of type `T` that this failure offers by value, if any.
    fn context<T: KnownSized + 'static>(&self) -> (r: Option<T>)
        ensures
            r == read::<'_, Value<T>>(self.offer(Value::<T>::tag())),
    {
        self.request_context::<Value<T>>()
    }

    /// The walk from this failure through its predecessors.
    fn chain(&self) -> (r: Chain<'_, Self>)
        ensures
            r.current() == Some(self),
    {
        Chain { current: Some(self) }
    }
}

/// What `description` returns.
pub const DEPRECATED_DESCRIPTION: &'static str = "description() is deprecated; use Display";

/// The walk from a failure through its predecessors, one at a time. It ends
/// only if the predecessors do: a failure that is its own predecessor, at any
/// distance, makes it go on forever.
pub struct Chain<'a, E> {
    current: Option<&'a E>,
}

impl<'a, E> Chain<'a, E> {
    /// The failure the next step yields, if any.
    pub closed spec fn current(&self) -> Option<&'a E> {
        self.current
    }
}

impl<'a, E: Error> Chain<'a, E> {
    /// Yields the current failure and moves on to its predecessor; yields
    /// `None` once the walk has passed a failure without predecessor.
    pub fn next(&mut self) -> (r: Option<&'a E>)
        ensures
            r == old(self).current(),
            final(self).current() == match r {
                Some(e) => e.spec_source(),
                None => None,
            },
    {
        let current = self.current;
        self.current = match current {
            Some(e) => e.source(),
            None => None,
        };
        current
    }
}

/// Where a chain stands after `n` steps from `cur`.
pub open spec fn walk<'a, E: Error>(cur: Option<&'a E>, n: nat) -> Option<&'a E>
    decreases n,
{
    if n == 0 {
        cur
    } else {
        match cur {
            Some(e) => walk(e.spec_source(), (n - 1) as nat),
            None => None,
        }
    }
}

/// The failures that the first `n` steps of a chain standing at `cur` yield.
pub open spec fn chain_items<'a, E: Error>(cur: Option<&'a E>, n: nat) -> Seq<&'a E>
    decreases n,
{
    if n == 0 {
        seq![]
    } else {
        match cur {
            Some(e) => seq![e].add(chain_items(e.spec_source(), (n - 1) as nat)),
            None => seq![],
        }
    }
}

/// The predecessors of `e` come to an end.
pub open spec fn chain_ends<E: Error>(e: &E) -> bool {
    exists|n: nat| walk(Some(e), n) is None
}

/// The call sites that `e` offers as a slice, or none.
pub open spec fn local_trace<'a, E: Error>(e: &'a E) -> Seq<CallSite> {
    match read::<'a, Ref<[CallSite]>>(e.offer(Ref::<[CallSite]>::tag())) {
        Some(s) => s@,
        None => seq![],
    }
}

/// The call sites offered as slices by the first `n` failures of a chain
/// standing at `cur`, in chain order.
pub open spec fn trace_items<'a, E: Error>(cur: Option<&'a E>, n: nat) -> Seq<CallSite>
    decreases n,
{
    if n == 0 {
        seq![]
    } else {
        match cur {
            Some(e) => local_trace(e).add(trace_items(e.spec_source(), (n - 1) as nat)),
            None => seq![],
        }
    }
}

/// The full return trace of `e`: the slice-shaped call-site context of each
/// failure of its chain, outermost first, one after another.
pub fn return_trace<E: Error>(e: &E) -> (r: Vec<CallSite>)
    requires
        chain_ends(e),
    ensures
        forall|n: nat| walk(Some(e), n) is None ==> r@ == trace_items(Some(e), n),
{
    let ghost end = choose|n: nat| walk(Some(e), n) is None;
    let mut out: Vec<CallSite> = Vec::new();
    let mut chain = e.chain();
    let ghost k: nat = 0;
    loop
        invariant
            walk(Some(e), end) is None,
            chain.current() == walk(Some(e), k),
            forall|j: nat| j < k ==> walk(Some(e), j) is Some,
            forall|n: nat|
                #![trigger trace_items(chain.current(), n)]
                trace_items(Some(e), n + k) == out@.add(trace_items(chain.current(), n)),
            forall|n: nat|
                #![trigger walk(chain.current(), n)]
                walk(Some(e), n + k) == walk(chain.current(), n),
        ensures
            chain.current() is None,
        decreases end - k,
    {
        let ghost cur = chain.current();
        match chain.next() {
            None => {
                break ;
            },
            Some(item) => {
                assert(k < end) by {
                    if end <= k {
                        if end < k {
                            assert(walk(Some(e), end) is Some);
                        } else {
                            assert(walk(Some(e), 0 + k) == walk(cur, 0));
                        }
                    }
                }
                let ghost before = out@;
                if let Some(sites) = item.context_ref::<[CallSite]>() {
                    let mut i: usize = 0;
                    while i < sites.len()
                        invariant
                            0 <= i <= sites@.len(),
                            out@ == before.add(sites@.subrange(0, i as int)),
                        decreases sites@.len() - i,
                    {
                        out.push(sites[i]);
                        i = i + 1;
                        assert(out@ =~= before.add(sites@.subrange(0, i as int)));
                    }
                    assert(sites@.subrange(0, sites@.len() as int) =~= sites@);
                }
                assert(out@ == before.add(local_trace(item)));
                assert forall|n: nat|
                    #![trigger trace_items(chain.current(), n)]
                    trace_items(Some(e), n + (k + 1)) == out@.add(trace_items(chain.current(), n)) by {
                    assert(trace_items(Some(e), (n + 1) + k) == before.add(trace_items(cur, n + 1)));
                    assert(trace_items(cur, n + 1) == local_trace(item).add(trace_items(item.spec_source(), n)));
                    assert(before.add(local_trace(item)).add(trace_items(chain.current(), n)) =~= before.add(local_trace(item).add(trace_items(chain.current(), n))));
                    assert(n + (k + 1) == (n + 1) + k);
                }
                assert forall|n: nat|
                    #![trigger walk(chain.current(), n)]
                    walk(Some(e), n + (k + 1)) == walk(chain.current(), n) by {
                    assert(walk(Some(e), (n + 1) + k) == walk(cur, n + 1));
                    assert(n + (k + 1) == (n + 1) + k);
                }
                assert(walk(Some(e), 0 + (k + 1)) == walk(chain.current(), 0));
                proof {
                    k = k + 1;
                }
            },
        }
    }
    assert forall|n: nat| walk(Some(e), n) is None implies out@ == trace_items(Some(e), n) by {
        if n < k {
            assert(walk(Some(e), n) is Some);
        } else {
            let m = (n - k) as nat;
            assert(trace_items(Some(e), m + k) == out@.add(trace_items(chain.current(), m)));
            assert(trace_items(chain.current(), m) =~= seq![]) by {
                if m > 0 {
                }
            }
            assert(m + k == n);
            assert(out@.add(seq![]) =~= out@);
        }
    }
    out
}

/// A chain started at `a`, where `a` wraps `b`, `b` wraps `c` and `c` wraps
/// nothing, yields `a`, `b`, `c` in that order and then ends.
pub proof fn lemma_chain_of_three<'a, E: Error>(a: &'a E, b: &'a E, c: &'a E)
    requires
        a.spec_source() == Some(b),
        b.spec_source() == Some(c),
        c.spec_source() is None,
    ensures
        walk(Some(a), 3) is None,
        chain_ends(a),
        forall|n: nat| n >= 3 ==> #[trigger] chain_items(Some(a), n) == seq![a, b, c],
{
    assert(walk(Some(a), 3) is None) by {
        reveal_with_fuel(walk, 4);
    }
    assert forall|n: nat| n >= 3 implies #[trigger] chain_items(Some(a), n) == seq![a, b, c] by {
        let n1 = (n - 1) as nat;
        let n2 = (n1 - 1) as nat;
        let n3 = (n2 - 1) as nat;
        assert(chain_items(c.spec_source(), n3) == Seq::<&'a E>::empty());
        assert(chain_items(Some(c), n2) =~= seq![c]);
        assert(chain_items(Some(b), n1) =~= seq![b, c]);
        assert(chain_items(Some(a), n) =~= seq![a, b, c]);
    }
}

/// Along a chain `a`, `b`, `c` (as above) the slice-shaped call-site context
/// of each failure, taken in chain order and put one after another, is the
/// trace of `a`, then that of `b`, then that of `c`.
pub proof fn lemma_trace_of_three<'a, E: Error>(a: &'a E, b: &'a E, c: &'a E)
    requires
        a.spec_source() == Some(b),
        b.spec_source() == Some(c),
        c.spec_source() is None,
    ensures
        forall|n: nat|
            n >= 3 ==> #[trigger] trace_items(Some(a), n) == local_trace(a).add(local_trace(b)).add(
                local_trace(c),
            ),
{
    assert forall|n: nat| n >= 3 implies #[trigger] trace_items(Some(a), n) == local_trace(a).add(
        local_trace(b),
    ).add(local_trace(c)) by {
        let n1 = (n - 1) as nat;
        let n2 = (n1 - 1) as nat;
        let n3 = (n2 - 1) as nat;
        assert(trace_items(c.spec_source(), n3) == Seq::<CallSite>::empty());
        assert(trace_items(Some(c), n2) =~= local_trace(c));
        assert(trace_items(Some(b), n1) =~= local_trace(b).add(local_trace(c)));
        assert(trace_items(Some(a), n) =~= local_trace(a).add(local_trace(b)).add(local_trace(c)));
    }
}

/// Asking a failure twice for the context of one marker gives agreeing
/// answers: the query reads the failure and changes nothing.
pub proof fn lemma_context_repeatable<'a, E: Error, I: Tag<'a>>(
    e: &'a E,
    r1: Option<I::Type>,
    r2: Option<I::Type>,
)
    requires
        answers_agree::<'a, I>(r1, read::<'a, I>(e.offer(I::tag()))),
        answers_agree::<'a, I>(r2, read::<'a, I>(e.offer(I::tag()))),
    ensures
        answers_agree::<'a, I>(r1, r2),
{
    crate::tag::lemma_answers_agree_equivalence::<'a, I>(r1, read::<'a, I>(e.offer(I::tag())), r2);
    crate::tag::lemma_answers_agree_equivalence::<'a, I>(r2, read::<'a, I>(e.offer(I::tag())), r1);
}

/// A failure that offers nothing under any marker answers every context
/// query with `None`.
pub proof fn lemma_silent_failure<'a, E: Error, I: Tag<'a>>(e: &'a E)
    requires
        forall|id: TagId| #[trigger] e.offer(id) is None,
    ensures
        read::<'a, I>(e.offer(I::tag())) is None,
{
    assert(e.offer(I::tag()) is None);
}

} // verus!
