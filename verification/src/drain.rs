//! The unimplemented-route drain: the catch-all consumer for every tag that
//! no flow claims.
//!
//! The drain receives and discards envelopes so that no unclaimed tag can
//! stall the dispatcher or accumulate unboundedly; it retains nothing. One
//! case is special: a protocol-level rejection notice means the peer actively
//! refused something, so it is surfaced at warning severity with the stated
//! reason and the peer identity; everything else is diagnostic-only.

use vstd::prelude::*;

use crate::envelope::{Envelope, EnvelopePayload};
use crate::registry::Registry;
use crate::tag::TypeTag;

verus! {

/// How one drained envelope is to be surfaced to the operator.
#[derive(Clone, Debug, PartialEq, Eq)]
pub enum DrainAction {
    /// Warn: the peer sent a rejection notice with this reason.
    WarnReject { reason: String, origin: u64 },
    /// Log at a low diagnostic level only: an expected-but-unhandled message.
    LogIgnored,
}

/// The drain's classification of one envelope.
pub open spec fn classify_spec(e: Envelope) -> DrainAction {
    match e.payload {
        Some(EnvelopePayload::Reject { reason }) => DrainAction::WarnReject {
            reason,
            origin: e.origin,
        },
        _ => DrainAction::LogIgnored,
    }
}

/// Classify one drained envelope: a rejection notice is surfaced at warning
/// severity with its reason and the peer identity; anything else is
/// discarded with a diagnostic note only. Never an error, never a stall.
pub fn drain_classify(e: Envelope) -> (a: DrainAction)
    ensures
        a == classify_spec(e),
        a matches DrainAction::WarnReject { .. } <==> e.is_reject(),
{
    let origin = e.origin;
    match e.payload {
        Some(EnvelopePayload::Reject { reason }) => DrainAction::WarnReject { reason, origin },
        _ => DrainAction::LogIgnored,
    }
}

/// Consume everything pending on the drain's subscription, oldest first:
/// afterwards its queue is empty — the drain retains no envelope, so
/// sustained unclaimed-tag traffic cannot grow memory — and each consumed
/// envelope is classified in arrival order.
pub fn drain_consume(registry: &mut Registry, sid: usize) -> (actions: Vec<DrainAction>)
    requires
        old(registry).wf(),
        sid < old(registry).sub_count(),
    ensures
        final(registry).wf(),
        final(registry).sub_count() == old(registry).sub_count(),
        forall|t: TypeTag|
            #[trigger] final(registry).owner_of(t) == old(registry).owner_of(t),
        final(registry).queue_of(sid as int).len() == 0,
        actions@.len() == old(registry).queue_of(sid as int).len(),
        forall|k: int| 0 <= k < actions@.len()
            ==> #[trigger] actions@[k] == classify_spec(old(registry).queue_of(sid as int)[k]),
        forall|s: int| 0 <= s < old(registry).sub_count() && s != sid
            ==> #[trigger] final(registry).queue_of(s) == old(registry).queue_of(s),
        forall|s: int| 0 <= s < old(registry).sub_count()
            ==> #[trigger] final(registry).capacity_of(s) == old(registry).capacity_of(s),
    {
        let mut actions: Vec<DrainAction> = Vec::new();
        loop
            invariant
                registry.wf(),
                sid < registry.sub_count(),
                registry.sub_count() == old(registry).sub_count(),
                forall|t: TypeTag|
                    #[trigger] registry.owner_of(t) == old(registry).owner_of(t),
                actions@.len() + registry.queue_of(sid as int).len()
                    == old(registry).queue_of(sid as int).len(),
                registry.queue_of(sid as int)
                    == old(registry).queue_of(sid as int).skip(actions@.len() as int),
                forall|k: int| 0 <= k < actions@.len()
                    ==> #[trigger] actions@[k]
                        == classify_spec(old(registry).queue_of(sid as int)[k]),
                forall|s: int| 0 <= s < old(registry).sub_count() && s != sid
                    ==> #[trigger] registry.queue_of(s) == old(registry).queue_of(s),
                forall|s: int| 0 <= s < old(registry).sub_count()
                    ==> #[trigger] registry.capacity_of(s) == old(registry).capacity_of(s),
            ensures
                registry.queue_of(sid as int).len() == 0,
            decreases registry.queue_of(sid as int).len(),
        {
            let ghost pending = registry.queue_of(sid as int);
            let ghost done = actions@.len() as int;
            match registry.recv(sid) {
                Some(e) => {
                    proof {
                        assert(e == old(registry).queue_of(sid as int)[done]);
                        assert(pending.drop_first()
                            =~= old(registry).queue_of(sid as int).skip(done + 1));
                    }
                    let a = drain_classify(e);
                    actions.push(a);
                },
                None => {
                    break;
                },
            }
        }
        actions
    }

} // verus!
