//! The configuration snapshot store: one writer publishes immutable
//! snapshots, readers observe the latest one. The concurrent carrier
//! (an atomic pointer swap) lives outside the verified core; what is
//! verified here is the sequential protocol every reader and the single
//! writer observe through it: publishes only append, a read returns the
//! latest publish, and the laws that follow (a read after a publish
//! returns that snapshot or a later one; republishing the current
//! snapshot changes nothing a reader can see).
//!
//! The ghost history records every publish in order; the store's
//! current snapshot is always the last entry.

use vstd::prelude::*;

use crate::config::snapshot_valid;
use crate::config::validate_snapshot;
use crate::config::ConfigSnapshot;

verus! {

pub struct SnapshotStore {
    current: ConfigSnapshot,
    history: Ghost<Seq<ConfigSnapshot>>,
}

/// `earlier` is a past state of the history `later`: publishes only
/// append, so the earlier history is an initial segment of the later
/// one.
pub open spec fn evolves(earlier: Seq<ConfigSnapshot>, later: Seq<ConfigSnapshot>) -> bool {
    earlier.is_prefix_of(later)
}

impl SnapshotStore {
    /// The snapshots published so far, in publish order.
    pub closed spec fn published(&self) -> Seq<ConfigSnapshot> {
        self.history@
    }

    #[verifier::type_invariant]
    spec fn wf(&self) -> bool {
        self.history@.len() > 0 && self.current == self.history@.last()
    }

    /// Open the store with the bootstrap snapshot as its first publish.
    pub fn new(initial: ConfigSnapshot) -> (s: Self)
        ensures
            s.published() == seq![initial],
    {
        let ghost h = seq![initial];
        proof {
            assert(h.last() == initial);
        }
        SnapshotStore { current: initial, history: Ghost(h) }
    }

    /// A wait-free read: the latest published snapshot.
    pub fn load(&self) -> (r: &ConfigSnapshot)
        ensures
            self.published().len() > 0,
            *r == self.published().last(),
    {
        proof {
            use_type_invariant(&*self);
        }
        &self.current
    }

    /// An atomic publish: the snapshot becomes the one every later read
    /// returns; all earlier publishes stay on record.
    pub fn store(&mut self, snapshot: ConfigSnapshot)
        ensures
            final(self).published() == old(self).published().push(snapshot),
    {
        proof {
            use_type_invariant(&*self);
        }
        let ghost h = self.history@.push(snapshot);
        proof {
            assert(h.last() == snapshot);
        }
        *self = SnapshotStore { current: snapshot, history: Ghost(h) };
    }

    /// What the background updater does with a pushed snapshot:
    /// publish it when its references check out, drop it otherwise so
    /// the snapshot in force remains.
    pub fn apply_update(&mut self, snapshot: ConfigSnapshot) -> (accepted: bool)
        ensures
            accepted == snapshot_valid(&snapshot),
            accepted ==> final(self).published() == old(self).published().push(snapshot),
            !accepted ==> *final(self) == *old(self),
    {
        if validate_snapshot(&snapshot) {
            self.store(snapshot);
            true
        } else {
            false
        }
    }
}

/// A publish only appends: the history before the publish is a past
/// state of the history after it.
pub proof fn lemma_store_evolves(h: Seq<ConfigSnapshot>, snapshot: ConfigSnapshot)
    ensures
        evolves(h, h.push(snapshot)),
{
    assert(h =~= h.push(snapshot).subrange(0, h.len() as int));
}

/// Evolution is transitive: what several publishes reach one by one,
/// the first history evolves into.
pub proof fn lemma_evolves_transitive(
    h1: Seq<ConfigSnapshot>,
    h2: Seq<ConfigSnapshot>,
    h3: Seq<ConfigSnapshot>,
)
    requires
        evolves(h1, h2),
        evolves(h2, h3),
    ensures
        evolves(h1, h3),
{
    assert(h1 =~= h3.subrange(0, h1.len() as int));
}

/// After a publish completes, every subsequent read returns that
/// snapshot or a newer one: in any state the store can evolve into,
/// the latest snapshot is the published one itself or one that stands
/// later in the history.
pub proof fn lemma_read_after_publish_is_newer(
    h1: Seq<ConfigSnapshot>,
    h2: Seq<ConfigSnapshot>,
)
    requires
        h1.len() > 0,
        evolves(h1, h2),
    ensures
        h2.len() >= h1.len(),
        h2.last() == h1.last() || (exists|i: int|
            h1.len() <= i < h2.len() && h2[i] == h2.last()),
{
    if h2.len() == h1.len() {
        assert(h1 =~= h2);
    } else {
        assert(h2[h2.len() - 1] == h2.last());
    }
}

/// The writer never moves back: of two reads made one after the other
/// (the store meanwhile evolving), the first snapshot read keeps its
/// place in the later history, and the second read stands at that
/// place or after it.
pub proof fn lemma_consecutive_reads_monotone(
    h1: Seq<ConfigSnapshot>,
    h2: Seq<ConfigSnapshot>,
)
    requires
        h1.len() > 0,
        evolves(h1, h2),
    ensures
        h2.len() >= h1.len(),
        h2[h1.len() - 1] == h1.last(),
        h1.len() - 1 <= h2.len() - 1,
{
}

/// Republishing the snapshot that is already current changes nothing a
/// reader can observe: the latest snapshot is the same before and
/// after the publish.
pub proof fn lemma_republish_is_idempotent(h: Seq<ConfigSnapshot>, snapshot: ConfigSnapshot)
    requires
        h.len() > 0,
        h.last() == snapshot,
    ensures
        h.push(snapshot).last() == h.last(),
{
}

} // verus!
