//! The shared store: the current presence value and the FIFO queue of
//! pending property changes.

use vstd::prelude::*;
use crate::classify::DeviceSnapshot;
use crate::classify::spec_classify;
use crate::status::KeyboardStatus;

verus! {

/// Name of one published property.
#[derive(Clone, Copy, Debug, PartialEq, Eq, Structural)]
pub enum PropertyName {
    KeyboardStatus,
    TabletMode,
}

/// Value of one published property: the integer presence code or the
/// tablet-mode flag.
#[derive(Clone, Copy, Debug, PartialEq, Eq, Structural)]
pub enum PropertyValue {
    Code(u32),
    Flag(bool),
}

/// One pending property change: created when the classification changes,
/// consumed once by the notification publisher.
#[derive(Clone, Copy, Debug, PartialEq, Eq, Structural)]
pub struct PendingChange {
    pub property: PropertyName,
    pub value: PropertyValue,
}

/// Mathematical view of the shared store.
#[verifier::ext_equal]
pub struct StoreView {
    pub presence: KeyboardStatus,
    pub pending: Seq<PendingChange>,
}

/// The change records a presence transition from `from` to `to` enqueues:
/// always the new presence code, and the tablet-mode flag exactly when that
/// flag differs between the two.
pub open spec fn spec_changes_for(from: KeyboardStatus, to: KeyboardStatus) -> Seq<
    PendingChange,
> {
    let code_change = PendingChange {
        property: PropertyName::KeyboardStatus,
        value: PropertyValue::Code(to.spec_code()),
    };
    let flag_change = PendingChange {
        property: PropertyName::TabletMode,
        value: PropertyValue::Flag(to.spec_is_tablet_mode()),
    };
    if from.spec_is_tablet_mode() == to.spec_is_tablet_mode() {
        seq![code_change]
    } else {
        seq![code_change, flag_change]
    }
}

/// What recording a freshly computed classification does to the store: a
/// value equal to the current one leaves the store untouched; a different
/// one replaces the presence and appends its change records to the queue.
pub open spec fn spec_apply(v: StoreView, new: KeyboardStatus) -> StoreView {
    if new == v.presence {
        v
    } else {
        StoreView { presence: new, pending: v.pending + spec_changes_for(v.presence, new) }
    }
}

/// The store that holds the current presence and the queue of pending
/// changes. One monitor records classifications; one publisher drains the
/// queue. Exclusive access during each operation is the caller's part: the
/// store is wrapped in a mutual-exclusion lock where threads share it.
pub struct SharedStateStore {
    presence: KeyboardStatus,
    pending: Vec<PendingChange>,
}

impl View for SharedStateStore {
    type V = StoreView;

    closed spec fn view(&self) -> StoreView {
        StoreView { presence: self.presence, pending: self.pending@ }
    }
}

impl SharedStateStore {
    /// A fresh store: no external keyboard, nothing pending.
    pub fn new() -> (s: Self)
        ensures
            s@.presence == KeyboardStatus::NoExternal,
            s@.pending =~= Seq::<PendingChange>::empty(),
    {
        SharedStateStore { presence: KeyboardStatus::NoExternal, pending: Vec::new() }
    }

    /// The most recently written presence value.
    pub fn read(&self) -> (r: KeyboardStatus)
        ensures
            r == self@.presence,
    {
        self.presence
    }

    /// Replace the presence value; the pending queue is untouched.
    pub fn write(&mut self, new: KeyboardStatus)
        ensures
            final(self)@.presence == new,
            final(self)@.pending == old(self)@.pending,
    {
        self.presence = new;
    }

    /// Append one change record to the pending queue.
    pub fn enqueue_change(&mut self, c: PendingChange)
        ensures
            final(self)@.presence == old(self)@.presence,
            final(self)@.pending == old(self)@.pending.push(c),
    {
        self.pending.push(c);
    }

    /// Remove and return the whole pending queue as one batch, in FIFO
    /// order. Each enqueued change is delivered to exactly one drain call.
    pub fn drain_changes(&mut self) -> (batch: Vec<PendingChange>)
        ensures
            batch@ == old(self)@.pending,
            final(self)@.presence == old(self)@.presence,
            final(self)@.pending =~= Seq::<PendingChange>::empty(),
    {
        let mut drained: Vec<PendingChange> = Vec::new();
        std::mem::swap(&mut drained, &mut self.pending);
        drained
    }

    /// Record a freshly computed classification: write it and enqueue its
    /// change records when it differs from the current value, do nothing
    /// when it does not. Returns whether the value changed.
    pub fn apply_classification(&mut self, new: KeyboardStatus) -> (changed: bool)
        ensures
            changed == (new != old(self)@.presence),
            final(self)@ == spec_apply(old(self)@, new),
    {
        if self.read() == new {
            return false;
        }
        let was_tablet = self.read().is_tablet_mode();
        self.write(new);
        self.enqueue_change(
            PendingChange {
                property: PropertyName::KeyboardStatus,
                value: PropertyValue::Code(new.as_code()),
            },
        );
        if new.is_tablet_mode() != was_tablet {
            self.enqueue_change(
                PendingChange {
                    property: PropertyName::TabletMode,
                    value: PropertyValue::Flag(new.is_tablet_mode()),
                },
            );
        }
        proof {
            assert(self@ =~= spec_apply(old(self)@, new));
        }
        true
    }
}

/// After a classification is recorded the store holds exactly that value:
/// the current presence is always the last one the monitor computed.
pub proof fn lemma_store_holds_latest(v: StoreView, new: KeyboardStatus)
    ensures
        spec_apply(v, new).presence == new,
{
}

/// Recording the same classification twice changes the store only once: the
/// second recording leaves both the presence and the pending queue exactly
/// as the first left them, so no duplicate change is ever enqueued.
pub proof fn lemma_apply_idempotent(v: StoreView, new: KeyboardStatus)
    ensures
        spec_apply(spec_apply(v, new), new) == spec_apply(v, new),
{
}

/// Rechecking an unchanged device snapshot is idempotent: the snapshot
/// classifies to the same value both times, and recording that value a
/// second time leaves the store as the first recording left it.
pub proof fn lemma_recheck_idempotent(v: StoreView, s: Seq<DeviceSnapshot>)
    ensures
        spec_apply(spec_apply(v, spec_classify(s)), spec_classify(s)) == spec_apply(
            v,
            spec_classify(s),
        ),
{
}

} // verus!
