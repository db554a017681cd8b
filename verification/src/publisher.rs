//! The notification publisher's side: the externally visible property
//! store, and the drain cycle that batches pending changes into one
//! notification.

use vstd::prelude::*;
use crate::status::KeyboardStatus;
use crate::store::PendingChange;
use crate::store::PropertyName;
use crate::store::PropertyValue;
use crate::store::SharedStateStore;
use crate::store::spec_changes_for;

verus! {

/// The externally visible properties: the integer presence code and the
/// tablet-mode flag.
#[derive(Clone, Copy, Debug, PartialEq, Eq, Structural)]
pub struct PropertyStore {
    pub status_code: u32,
    pub tablet_mode: bool,
}

/// What one change record does to the property store. A record whose value
/// kind does not fit its property leaves the store unchanged; the store's
/// own transitions never produce such a record.
pub open spec fn spec_apply_change(p: PropertyStore, c: PendingChange) -> PropertyStore {
    match (c.property, c.value) {
        (PropertyName::KeyboardStatus, PropertyValue::Code(code)) => PropertyStore {
            status_code: code,
            ..p
        },
        (PropertyName::TabletMode, PropertyValue::Flag(flag)) => PropertyStore {
            tablet_mode: flag,
            ..p
        },
        _ => p,
    }
}

/// What a batch of change records does to the property store, applied in
/// FIFO order.
pub open spec fn spec_apply_batch(p: PropertyStore, batch: Seq<PendingChange>) -> PropertyStore
    decreases batch.len(),
{
    if batch.len() == 0 {
        p
    } else {
        spec_apply_change(spec_apply_batch(p, batch.drop_last()), batch.last())
    }
}

/// The property store reflects a presence value when both properties carry
/// that value's code and flag.
pub open spec fn spec_reflects(p: PropertyStore, status: KeyboardStatus) -> bool {
    p.status_code == status.spec_code() && p.tablet_mode == status.spec_is_tablet_mode()
}

impl PropertyStore {
    /// The initial property store: presence code for `NoExternal`, tablet
    /// mode on.
    pub fn new() -> (p: Self)
        ensures
            p == (PropertyStore { status_code: 0, tablet_mode: true }),
            spec_reflects(p, KeyboardStatus::NoExternal),
    {
        PropertyStore { status_code: 0, tablet_mode: true }
    }

    pub fn apply_change(&mut self, c: PendingChange)
        ensures
            *final(self) == spec_apply_change(*old(self), c),
    {
        match (c.property, c.value) {
            (PropertyName::KeyboardStatus, PropertyValue::Code(code)) => {
                self.status_code = code;
            },
            (PropertyName::TabletMode, PropertyValue::Flag(flag)) => {
                self.tablet_mode = flag;
            },
            _ => {},
        }
    }

    /// Apply a whole drained batch in FIFO order. Returns whether a
    /// notification is due: exactly when the batch was non-empty.
    pub fn apply_batch(&mut self, batch: &Vec<PendingChange>) -> (notify: bool)
        ensures
            *final(self) == spec_apply_batch(*old(self), batch@),
            notify == (batch@.len() > 0),
    {
        let n = batch.len();
        let mut i: usize = 0;
        while i < n
            invariant
                n == batch@.len(),
                0 <= i <= n,
                *self == spec_apply_batch(*old(self), batch@.take(i as int)),
            decreases n - i,
        {
            proof {
                assert(batch@.take(i + 1).drop_last() =~= batch@.take(i as int));
                assert(batch@.take(i + 1).last() == batch@[i as int]);
            }
            self.apply_change(batch[i]);
            i = i + 1;
        }
        proof {
            assert(batch@.take(n as int) =~= batch@);
        }
        n > 0
    }

    /// The published integer presence code.
    pub fn read_status_code(&self) -> (r: u32)
        ensures
            r == self.status_code,
    {
        self.status_code
    }

    /// The published tablet-mode flag.
    pub fn read_tablet_mode(&self) -> (r: bool)
        ensures
            r == self.tablet_mode,
    {
        self.tablet_mode
    }
}

/// One drain cycle of the publisher: empty the shared store's pending
/// queue as one batch, fold the batch into the property store, and hand
/// the batch back so that exactly one notification can be sent when it is
/// non-empty.
pub fn publish_cycle(store: &mut SharedStateStore, props: &mut PropertyStore) -> (batch: Vec<
    PendingChange,
>)
    ensures
        batch@ == old(store)@.pending,
        final(store)@.presence == old(store)@.presence,
        final(store)@.pending =~= Seq::<PendingChange>::empty(),
        *final(props) == spec_apply_batch(*old(props), old(store)@.pending),
{
    let batch = store.drain_changes();
    props.apply_batch(&batch);
    batch
}

/// A property store that reflected the old presence reflects the new one
/// after the change records of that transition are applied: the publisher
/// never loses the latest value.
pub proof fn lemma_batch_reflects_transition(
    p: PropertyStore,
    from: KeyboardStatus,
    to: KeyboardStatus,
)
    requires
        spec_reflects(p, from),
    ensures
        spec_reflects(spec_apply_batch(p, spec_changes_for(from, to)), to),
{
    reveal_with_fuel(spec_apply_batch, 3);
    let batch = spec_changes_for(from, to);
    if from.spec_is_tablet_mode() == to.spec_is_tablet_mode() {
        assert(batch.drop_last() =~= Seq::<PendingChange>::empty());
    } else {
        assert(batch.drop_last().drop_last() =~= Seq::<PendingChange>::empty());
        assert(batch.drop_last().last() == batch[0]);
    }
}

} // verus!
