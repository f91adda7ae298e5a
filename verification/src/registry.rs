//! The subscription registry: binds sets of tags to delivery channels and
//! routes each inbound envelope to the one channel that claims its tag.
//!
//! Every subscription is created before the connection starts processing
//! inbound traffic. A tag has at most one owner at any time; claiming a tag
//! twice is a construction defect, ruled out here by the preconditions of the
//! subscribe operations. Delivery appends to the owner's queue and drops
//! nothing; each queue is FIFO, so arrival order is kept per tag.

use vstd::prelude::*;

use crate::envelope::Envelope;
use crate::tag::{lemma_tag_ordinal_injective, lemma_tag_ordinal_inverse, tag_ordinal, TypeTag,
    TAG_COUNT};

verus! {

/// The delivery-queue capacity a subscription gets when none is asked for.
pub const BASELINE_CHANNEL_CAPACITY: usize = 256;

/// One registered subscription: a bounded FIFO delivery queue.
struct Subscription {
    capacity: usize,
    queue: Vec<Envelope>,
}

/// Maps every claimed tag to its one delivery channel.
pub struct Registry {
    /// The owning subscription of each tag, indexed by the tag's ordinal.
    owner: Vec<Option<usize>>,
    /// The delivery channels, in order of registration.
    subs: Vec<Subscription>,
}

/// The predicate "this envelope carries tag `t`", used to state per-tag order.
pub open spec fn has_tag(t: TypeTag) -> spec_fn(Envelope) -> bool {
    |e: Envelope| e.tag == t
}

/// The predicate "this envelope's tag is owned by subscription `s` of `pre`".
pub open spec fn owned_by(pre: Registry, s: int) -> spec_fn(Envelope) -> bool {
    |e: Envelope| pre.owner_of(e.tag) matches Some(o) && o == s
}

impl Registry {
    /// How many subscriptions are registered.
    pub closed spec fn sub_count(self) -> nat {
        self.subs@.len()
    }

    /// The subscription that claims tag `t`, if any.
    pub closed spec fn owner_of(self, t: TypeTag) -> Option<usize> {
        if 0 <= tag_ordinal(t) < self.owner@.len() {
            self.owner@[tag_ordinal(t)]
        } else {
            None
        }
    }

    /// Whether some subscription claims tag `t`.
    pub open spec fn claimed(self, t: TypeTag) -> bool {
        self.owner_of(t) is Some
    }

    /// The pending envelopes of subscription `s`, oldest first.
    pub closed spec fn queue_of(self, s: int) -> Seq<Envelope> {
        self.subs@[s].queue@
    }

    /// The queue capacity subscription `s` was registered with.
    pub closed spec fn capacity_of(self, s: int) -> usize {
        self.subs@[s].capacity
    }

    /// Well-formedness: the owner table spans the whole tag universe and
    /// points only at registered subscriptions, each with a usable capacity.
    pub closed spec fn wf(self) -> bool {
        &&& self.owner@.len() == TAG_COUNT
        &&& forall|j: int| 0 <= j < self.owner@.len()
                ==> (#[trigger] self.owner@[j] matches Some(s) ==> s < self.subs@.len())
        &&& forall|s: int| 0 <= s < self.subs@.len()
                ==> #[trigger] self.subs@[s].capacity >= 1
    }

    /// An empty registry: no subscription, no tag claimed.
    pub fn new() -> (r: Registry)
        ensures
            r.wf(),
            r.sub_count() == 0,
            forall|t: TypeTag| #[trigger] r.owner_of(t) is None,
    {
        let mut owner: Vec<Option<usize>> = Vec::new();
        let mut j: usize = 0;
        while j < TAG_COUNT
            invariant
                owner@.len() == j,
                j <= TAG_COUNT,
                forall|i: int| 0 <= i < j ==> owner@[i] is None,
            decreases TAG_COUNT - j,
        {
            owner.push(None);
            j += 1;
        }
        let r = Registry { owner, subs: Vec::new() };
        proof {
            assert forall|t: TypeTag| #[trigger] r.owner_of(t) is None by {
                lemma_tag_ordinal_inverse(t);
            }
        }
        r
    }

    /// Register a new subscription over `tags` with the given queue capacity.
    ///
    /// Claiming a tag twice is a construction defect, not a runtime
    /// condition: the precondition rules it out, so no registered tag may
    /// stand in `tags`.
    pub fn subscribe_with_capacity(&mut self, tags: &Vec<TypeTag>, capacity: usize) -> (sid: usize)
        requires
            old(self).wf(),
            capacity >= 1,
            forall|i: int| 0 <= i < tags@.len() ==> !old(self).claimed(#[trigger] tags@[i]),
            forall|i: int, j: int| 0 <= i < j < tags@.len() ==> tags@[i] != tags@[j],
        ensures
            final(self).wf(),
            sid == old(self).sub_count(),
            final(self).sub_count() == old(self).sub_count() + 1,
            final(self).capacity_of(sid as int) == capacity,
            final(self).queue_of(sid as int) == Seq::<Envelope>::empty(),
            forall|i: int| 0 <= i < tags@.len()
                ==> #[trigger] final(self).owner_of(tags@[i]) == Some(sid),
            forall|t: TypeTag| #[trigger] tags@.contains(t)
                ==> final(self).owner_of(t) == Some(sid),
            forall|t: TypeTag| !tags@.contains(t)
                ==> #[trigger] final(self).owner_of(t) == old(self).owner_of(t),
            forall|s: int| 0 <= s < old(self).sub_count()
                ==> #[trigger] final(self).queue_of(s) == old(self).queue_of(s),
            forall|s: int| 0 <= s < old(self).sub_count()
                ==> #[trigger] final(self).capacity_of(s) == old(self).capacity_of(s),
    {
        let sid = self.subs.len();
        self.subs.push(Subscription { capacity, queue: Vec::new() });
        let mut i: usize = 0;
        while i < tags.len()
            invariant
                old(self).wf(),
                i <= tags@.len(),
                sid == old(self).subs@.len(),
                self.subs@.len() == old(self).subs@.len() + 1,
                forall|s: int| 0 <= s < sid
                    ==> #[trigger] self.subs@[s].queue@ == old(self).subs@[s].queue@
                        && self.subs@[s].capacity == old(self).subs@[s].capacity,
                self.subs@[sid as int].capacity == capacity,
                self.subs@[sid as int].queue@ == Seq::<Envelope>::empty(),
                self.owner@.len() == old(self).owner@.len(),
                forall|i2: int| 0 <= i2 < tags@.len() ==> !old(self).claimed(#[trigger] tags@[i2]),
                forall|j: int| 0 <= j < self.owner@.len()
                    ==> #[trigger] self.owner@[j] == (
                        if exists|k: int| 0 <= k < i && tag_ordinal(tags@[k]) == j {
                            Some(sid)
                        } else {
                            old(self).owner@[j]
                        }),
            decreases tags@.len() - i,
        {
            let t = tags[i];
            let idx = t.index();
            proof {
                lemma_tag_ordinal_inverse(tags@[i as int]);
            }
            self.owner[idx] = Some(sid);
            proof {
                let gi = i as int;
                assert forall|j: int| 0 <= j < self.owner@.len()
                    implies #[trigger] self.owner@[j] == (
                        if exists|k: int| 0 <= k < gi + 1 && tag_ordinal(tags@[k]) == j {
                            Some(sid)
                        } else {
                            old(self).owner@[j]
                        }) by {
                    if j == tag_ordinal(tags@[gi]) {
                        assert(exists|k: int| 0 <= k < gi + 1 && tag_ordinal(tags@[k]) == j);
                    } else {
                        if exists|k: int| 0 <= k < gi + 1 && tag_ordinal(tags@[k]) == j {
                            let k = choose|k: int| 0 <= k < gi + 1 && tag_ordinal(tags@[k]) == j;
                            assert(k < gi);
                            assert(exists|k2: int| 0 <= k2 < gi && tag_ordinal(tags@[k2]) == j);
                        }
                    }
                }
            }
            i += 1;
        }
        proof {
            assert forall|j: int| 0 <= j < self.owner@.len()
                implies (#[trigger] self.owner@[j] matches Some(s) ==> s < self.subs@.len()) by {
                if !(exists|k: int| 0 <= k < tags@.len() && tag_ordinal(tags@[k]) == j) {
                    assert(self.owner@[j] == old(self).owner@[j]);
                    assert(old(self).owner@[j] matches Some(s) ==> s < old(self).subs@.len());
                }
            }
            assert forall|s: int| 0 <= s < self.subs@.len()
                implies #[trigger] self.subs@[s].capacity >= 1 by {
                if s < sid {
                    assert(old(self).subs@[s].capacity >= 1);
                    assert(self.subs@[s].queue@ == old(self).subs@[s].queue@);
                }
            }
            assert(self.wf());
            lemma_tag_ordinal_injective();
            assert forall|t: TypeTag| tags@.contains(t)
                implies self.owner_of(t) == Some(sid) by {
                lemma_tag_ordinal_inverse(t);
                let k = choose|k: int| 0 <= k < tags@.len() && tags@[k] == t;
                assert(tag_ordinal(tags@[k]) == tag_ordinal(t));
            }
            assert forall|t: TypeTag| !tags@.contains(t)
                implies self.owner_of(t) == old(self).owner_of(t) by {
                lemma_tag_ordinal_inverse(t);
                if exists|k: int| 0 <= k < tags@.len() && tag_ordinal(tags@[k]) == tag_ordinal(t) {
                    let k = choose|k: int| 0 <= k < tags@.len()
                        && tag_ordinal(tags@[k]) == tag_ordinal(t);
                    assert(tags@[k] == t);
                    assert(tags@.contains(t));
                }
            }
            assert forall|s: int| 0 <= s < old(self).sub_count()
                implies #[trigger] self.queue_of(s) == old(self).queue_of(s) by {
                assert(self.subs@[s].queue@ == old(self).subs@[s].queue@);
            }
            assert forall|s: int| 0 <= s < old(self).sub_count()
                implies #[trigger] self.capacity_of(s) == old(self).capacity_of(s) by {
                assert(self.subs@[s].queue@ == old(self).subs@[s].queue@);
            }
        }
        sid
    }

    /// Register a new subscription over `tags` with the baseline capacity.
    pub fn subscribe(&mut self, tags: &Vec<TypeTag>) -> (sid: usize)
        requires
            old(self).wf(),
            forall|i: int| 0 <= i < tags@.len() ==> !old(self).claimed(#[trigger] tags@[i]),
            forall|i: int, j: int| 0 <= i < j < tags@.len() ==> tags@[i] != tags@[j],
        ensures
            final(self).wf(),
            sid == old(self).sub_count(),
            final(self).sub_count() == old(self).sub_count() + 1,
            final(self).capacity_of(sid as int) == BASELINE_CHANNEL_CAPACITY,
            final(self).queue_of(sid as int) == Seq::<Envelope>::empty(),
            forall|i: int| 0 <= i < tags@.len()
                ==> #[trigger] final(self).owner_of(tags@[i]) == Some(sid),
            forall|t: TypeTag| #[trigger] tags@.contains(t)
                ==> final(self).owner_of(t) == Some(sid),
            forall|t: TypeTag| !tags@.contains(t)
                ==> #[trigger] final(self).owner_of(t) == old(self).owner_of(t),
            forall|s: int| 0 <= s < old(self).sub_count()
                ==> #[trigger] final(self).queue_of(s) == old(self).queue_of(s),
            forall|s: int| 0 <= s < old(self).sub_count()
                ==> #[trigger] final(self).capacity_of(s) == old(self).capacity_of(s),
    {
        self.subscribe_with_capacity(tags, BASELINE_CHANNEL_CAPACITY)
    }

    /// Register one subscription over the exact complement of all claimed
    /// tags, leaving every tag of the universe claimed.
    pub fn subscribe_remaining(&mut self, capacity: usize) -> (sid: usize)
        requires
            old(self).wf(),
            capacity >= 1,
        ensures
            final(self).wf(),
            sid == old(self).sub_count(),
            final(self).sub_count() == old(self).sub_count() + 1,
            final(self).capacity_of(sid as int) == capacity,
            final(self).queue_of(sid as int) == Seq::<Envelope>::empty(),
            forall|t: TypeTag| old(self).claimed(t)
                ==> #[trigger] final(self).owner_of(t) == old(self).owner_of(t),
            forall|t: TypeTag| !old(self).claimed(t)
                ==> #[trigger] final(self).owner_of(t) == Some(sid),
            forall|t: TypeTag| final(self).claimed(t),
            forall|s: int| 0 <= s < old(self).sub_count()
                ==> #[trigger] final(self).queue_of(s) == old(self).queue_of(s),
            forall|s: int| 0 <= s < old(self).sub_count()
                ==> #[trigger] final(self).capacity_of(s) == old(self).capacity_of(s),
    {
        let sid = self.subs.len();
        self.subs.push(Subscription { capacity, queue: Vec::new() });
        let mut j: usize = 0;
        while j < self.owner.len()
            invariant
                old(self).wf(),
                j <= self.owner@.len(),
                sid == old(self).subs@.len(),
                self.subs@.len() == old(self).subs@.len() + 1,
                forall|s: int| 0 <= s < sid
                    ==> #[trigger] self.subs@[s].queue@ == old(self).subs@[s].queue@
                        && self.subs@[s].capacity == old(self).subs@[s].capacity,
                self.subs@[sid as int].capacity == capacity,
                self.subs@[sid as int].queue@ == Seq::<Envelope>::empty(),
                self.owner@.len() == old(self).owner@.len(),
                forall|i: int| 0 <= i < j
                    ==> #[trigger] self.owner@[i] == (
                        if old(self).owner@[i] is Some {
                            old(self).owner@[i]
                        } else {
                            Some(sid)
                        }),
                forall|i: int| j <= i < self.owner@.len()
                    ==> #[trigger] self.owner@[i] == old(self).owner@[i],
            decreases self.owner@.len() - j,
        {
            if self.owner[j].is_none() {
                self.owner[j] = Some(sid);
            }
            j += 1;
        }
        proof {
            assert forall|i: int| 0 <= i < self.owner@.len()
                implies (#[trigger] self.owner@[i] matches Some(s) ==> s < self.subs@.len()) by {
                if old(self).owner@[i] is Some {
                    assert(old(self).owner@[i] matches Some(s) ==> s < old(self).subs@.len());
                }
            }
            assert forall|s: int| 0 <= s < self.subs@.len()
                implies #[trigger] self.subs@[s].capacity >= 1 by {
                if s < sid {
                    assert(old(self).subs@[s].capacity >= 1);
                    assert(self.subs@[s].queue@ == old(self).subs@[s].queue@);
                }
            }
            assert(self.wf());
            assert forall|t: TypeTag| self.claimed(t) by {
                lemma_tag_ordinal_inverse(t);
            }
            assert forall|s: int| 0 <= s < old(self).sub_count()
                implies #[trigger] self.queue_of(s) == old(self).queue_of(s) by {
                assert(self.subs@[s].queue@ == old(self).subs@[s].queue@);
            }
            assert forall|s: int| 0 <= s < old(self).sub_count()
                implies #[trigger] self.capacity_of(s) == old(self).capacity_of(s) by {
                assert(self.subs@[s].queue@ == old(self).subs@[s].queue@);
            }
        }
        sid
    }

    /// Look up the subscription that claims tag `t`.
    pub fn route_of(&self, t: TypeTag) -> (r: Option<usize>)
        requires
            self.wf(),
        ensures
            r == self.owner_of(t),
    {
        proof {
            lemma_tag_ordinal_inverse(t);
        }
        let idx = t.index();
        self.owner[idx]
    }

    /// Deliver one envelope: append it to the queue of the one subscription
    /// that claims its tag. An unclaimed tag is a construction defect (every
    /// tag must have a home), ruled out by the precondition.
    pub fn deliver(&mut self, e: Envelope) -> (sid: usize)
        requires
            old(self).wf(),
            old(self).claimed(e.tag),
        ensures
            final(self).wf(),
            Some(sid) == old(self).owner_of(e.tag),
            final(self).sub_count() == old(self).sub_count(),
            forall|t: TypeTag| #[trigger] final(self).owner_of(t) == old(self).owner_of(t),
            final(self).queue_of(sid as int) == old(self).queue_of(sid as int).push(e),
            forall|s: int| 0 <= s < old(self).sub_count() && s != sid
                ==> #[trigger] final(self).queue_of(s) == old(self).queue_of(s),
            forall|s: int| 0 <= s < old(self).sub_count()
                ==> #[trigger] final(self).capacity_of(s) == old(self).capacity_of(s),
    {
        proof {
            lemma_tag_ordinal_inverse(e.tag);
        }
        let idx = e.tag.index();
        let sid = self.owner[idx].unwrap();
        self.subs[sid].queue.push(e);
        sid
    }

    /// Whether delivering to subscription `sid` would exceed its capacity:
    /// the dispatcher's deliberate suspension point. A full queue exerts
    /// backpressure on the inbound stream; nothing is ever dropped.
    pub fn backpressured(&self, sid: usize) -> (b: bool)
        requires
            self.wf(),
            sid < self.sub_count(),
        ensures
            b == (self.queue_of(sid as int).len() >= self.capacity_of(sid as int)),
    {
        self.subs[sid].queue.len() >= self.subs[sid].capacity
    }

    /// Dequeue the oldest pending envelope of subscription `sid`, if any.
    pub fn recv(&mut self, sid: usize) -> (r: Option<Envelope>)
        requires
            old(self).wf(),
            sid < old(self).sub_count(),
        ensures
            final(self).wf(),
            final(self).sub_count() == old(self).sub_count(),
            forall|t: TypeTag| #[trigger] final(self).owner_of(t) == old(self).owner_of(t),
            final(self).capacity_of(sid as int) == old(self).capacity_of(sid as int),
            old(self).queue_of(sid as int).len() == 0
                ==> r is None && final(self).queue_of(sid as int) == old(self).queue_of(sid as int),
            old(self).queue_of(sid as int).len() > 0
                ==> r == Some(old(self).queue_of(sid as int)[0])
                    && final(self).queue_of(sid as int)
                        == old(self).queue_of(sid as int).drop_first(),
            forall|s: int| 0 <= s < old(self).sub_count() && s != sid
                ==> #[trigger] final(self).queue_of(s) == old(self).queue_of(s),
            forall|s: int| 0 <= s < old(self).sub_count()
                ==> #[trigger] final(self).capacity_of(s) == old(self).capacity_of(s),
    {
        let sub = &mut self.subs[sid];
        if sub.queue.len() == 0 {
            None
        } else {
            Some(sub.queue.remove(0))
        }
    }

    /// How many envelopes wait in subscription `sid`'s queue.
    pub fn queue_len(&self, sid: usize) -> (n: usize)
        requires
            self.wf(),
            sid < self.sub_count(),
        ensures
            n == self.queue_of(sid as int).len(),
    {
        self.subs[sid].queue.len()
    }

    /// The capacity subscription `sid` was registered with.
    pub fn capacity(&self, sid: usize) -> (c: usize)
        requires
            self.wf(),
            sid < self.sub_count(),
        ensures
            c == self.capacity_of(sid as int),
    {
        self.subs[sid].capacity
    }

    /// Deliver a whole batch of envelopes, in arrival order.
    pub fn deliver_all(&mut self, inbound: Vec<Envelope>)
        requires
            old(self).wf(),
            forall|k: int| 0 <= k < inbound@.len() ==> old(self).claimed(#[trigger] inbound@[k].tag),
        ensures
            dispatched(*old(self), *final(self), inbound@),
    {
        let ghost all = inbound@;
        let mut inbound = inbound;
        proof {
            assert forall|s: int| 0 <= s < old(self).sub_count()
                implies #[trigger] self.queue_of(s)
                    == old(self).queue_of(s) + all.take(0).filter(owned_by(*old(self), s)) by {
                assert(all.take(0).filter(owned_by(*old(self), s)) =~= Seq::<Envelope>::empty());
                assert(old(self).queue_of(s) + Seq::<Envelope>::empty() =~= old(self).queue_of(s));
            }
        }
        while inbound.len() > 0
            invariant
                old(self).wf(),
                self.wf(),
                inbound@.len() <= all.len(),
                inbound@ == all.skip(all.len() - inbound@.len()),
                self.sub_count() == old(self).sub_count(),
                forall|t: TypeTag| #[trigger] self.owner_of(t) == old(self).owner_of(t),
                forall|k: int| 0 <= k < inbound@.len()
                    ==> old(self).claimed(#[trigger] inbound@[k].tag),
                forall|s: int| 0 <= s < old(self).sub_count()
                    ==> #[trigger] self.queue_of(s) == old(self).queue_of(s)
                        + all.take(all.len() - inbound@.len()).filter(owned_by(*old(self), s)),
                forall|s: int| 0 <= s < old(self).sub_count()
                    ==> #[trigger] self.capacity_of(s) == old(self).capacity_of(s),
            decreases inbound@.len(),
        {
            let ghost done = all.len() - inbound@.len();
            let ghost rem = inbound@;
            let e = inbound.remove(0);
            proof {
                assert(e == all[done]);
                assert(inbound@ =~= all.skip(done + 1));
                assert(all.take(done + 1) =~= all.take(done).push(e));
            }
            let ghost mid = *self;
            let sid = self.deliver(e);
            proof {
                assert(Some(sid) == old(self).owner_of(e.tag));
                assert forall|s: int| 0 <= s < old(self).sub_count()
                    implies #[trigger] self.queue_of(s) == old(self).queue_of(s)
                        + all.take(done + 1).filter(owned_by(*old(self), s)) by {
                    Seq::<Envelope>::lemma_filter_push(
                        all.take(done), e, owned_by(*old(self), s));
                    if s == sid {
                        assert((owned_by(*old(self), s))(e));
                        assert(self.queue_of(s) == mid.queue_of(s).push(e));
                        assert(self.queue_of(s) =~= old(self).queue_of(s)
                            + all.take(done).filter(owned_by(*old(self), s)).push(e));
                    } else {
                        assert(!(owned_by(*old(self), s))(e));
                        assert(self.queue_of(s) == mid.queue_of(s));
                    }
                }
                assert forall|s: int| 0 <= s < old(self).sub_count()
                    implies #[trigger] self.capacity_of(s) == old(self).capacity_of(s) by {
                    assert(self.capacity_of(s) == mid.capacity_of(s));
                }
            }
        }
        proof {
            assert(all.take(all.len() as int) =~= all);
        }
    }
}

/// The routing relation a dispatched batch establishes: each subscription's
/// queue grows by exactly the batch's envelopes it owns, in arrival order,
/// and nothing else changes.
pub open spec fn dispatched(pre: Registry, post: Registry, inbound: Seq<Envelope>) -> bool {
    &&& post.wf()
    &&& post.sub_count() == pre.sub_count()
    &&& forall|t: TypeTag| #[trigger] post.owner_of(t) == pre.owner_of(t)
    &&& forall|s: int| 0 <= s < pre.sub_count()
            ==> #[trigger] post.queue_of(s)
                == pre.queue_of(s) + inbound.filter(owned_by(pre, s))
    &&& forall|s: int| 0 <= s < pre.sub_count()
            ==> #[trigger] post.capacity_of(s) == pre.capacity_of(s)
}

/// Exactly-one law: a claimed tag has a single owning subscription; two
/// owners of the same tag are the same subscription.
pub proof fn lemma_tag_claimed_by_one(r: Registry, t: TypeTag, s1: usize, s2: usize)
    requires
        r.owner_of(t) == Some(s1),
        r.owner_of(t) == Some(s2),
    ensures
        s1 == s2,
{
}

/// No-drop law: after a batch whose tags are all claimed is dispatched,
/// every envelope of the batch stands in its owning subscription's queue;
/// none is silently discarded.
pub proof fn lemma_no_envelope_dropped(
    pre: Registry,
    post: Registry,
    inbound: Seq<Envelope>,
    k: int,
    sid: usize,
)
    requires
        pre.wf(),
        dispatched(pre, post, inbound),
        0 <= k < inbound.len(),
        pre.owner_of(inbound[k].tag) == Some(sid),
    ensures
        post.queue_of(sid as int).contains(inbound[k]),
{
    inbound.lemma_filter_contains(owned_by(pre, sid as int), k);
    let filtered = inbound.filter(owned_by(pre, sid as int));
    let i = choose|i: int| 0 <= i < filtered.len() && filtered[i] == inbound[k];
    assert(post.queue_of(sid as int)[pre.queue_of(sid as int).len() + i] == inbound[k]);
}

/// Filtering by a stronger predicate ignores an outer filter by a weaker one.
proof fn lemma_filter_refines<A>(s: Seq<A>, p: spec_fn(A) -> bool, q: spec_fn(A) -> bool)
    requires
        forall|a: A| #[trigger] q(a) ==> p(a),
    ensures
        s.filter(p).filter(q) == s.filter(q),
    decreases s.len(),
{
    reveal(Seq::filter);
    if s.len() > 0 {
        lemma_filter_refines(s.drop_last(), p, q);
        Seq::<A>::lemma_filter_push(s.drop_last(), s.last(), p);
        Seq::<A>::lemma_filter_push(s.drop_last().filter(p), s.last(), q);
        Seq::<A>::lemma_filter_push(s.drop_last(), s.last(), q);
        assert(s =~= s.drop_last().push(s.last()));
    } else {
        assert(s =~= Seq::<A>::empty());
    }
}

/// Per-tag FIFO law: dispatching a batch extends the owning queue's tag-`t`
/// messages by exactly the batch's tag-`t` messages, in arrival order.
pub proof fn lemma_per_tag_fifo(
    pre: Registry,
    post: Registry,
    inbound: Seq<Envelope>,
    t: TypeTag,
    sid: usize,
)
    requires
        pre.wf(),
        dispatched(pre, post, inbound),
        pre.owner_of(t) == Some(sid),
    ensures
        post.queue_of(sid as int).filter(has_tag(t))
            == pre.queue_of(sid as int).filter(has_tag(t)) + inbound.filter(has_tag(t)),
{
    Seq::<Envelope>::filter_distributes_over_add(
        pre.queue_of(sid as int),
        inbound.filter(owned_by(pre, sid as int)),
        has_tag(t),
    );
    assert forall|e: Envelope| #[trigger] (has_tag(t))(e)
        implies (owned_by(pre, sid as int))(e) by {
    }
    lemma_filter_refines(inbound, owned_by(pre, sid as int), has_tag(t));
}

} // verus!
