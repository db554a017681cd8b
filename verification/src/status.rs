//! The tri-state keyboard-presence classification and its wire code.

use vstd::prelude::*;
use std::sync::atomic::AtomicU32;
use std::sync::atomic::Ordering;

verus! {

/// Tri-state presence classification, ordered by severity of "no physical
/// fallback keyboard covering the internal one".
#[derive(Clone, Copy, Debug, PartialEq, Eq, Structural)]
pub enum KeyboardStatus {
    /// No external keyboard is connected: the machine is in tablet mode.
    NoExternal,
    /// Some external keyboard, other than the keyboard case, is connected.
    AnyExternal,
    /// The keyboard case is connected.
    CaseExternal,
}

impl KeyboardStatus {
    /// The integer code under which this status is stored and published.
    pub open spec fn spec_code(self) -> u32 {
        match self {
            KeyboardStatus::NoExternal => 0,
            KeyboardStatus::AnyExternal => 1,
            KeyboardStatus::CaseExternal => 2,
        }
    }

    /// The status a stored integer code stands for. A code outside the three
    /// defined ones decodes to `NoExternal`.
    pub open spec fn spec_from_code(code: u32) -> KeyboardStatus {
        if code == 2 {
            KeyboardStatus::CaseExternal
        } else if code == 1 {
            KeyboardStatus::AnyExternal
        } else {
            KeyboardStatus::NoExternal
        }
    }

    /// True iff the machine counts as being in tablet mode.
    pub open spec fn spec_is_tablet_mode(self) -> bool {
        self == KeyboardStatus::NoExternal
    }

    pub fn as_code(&self) -> (code: u32)
        ensures
            code == self.spec_code(),
    {
        match self {
            KeyboardStatus::NoExternal => 0,
            KeyboardStatus::AnyExternal => 1,
            KeyboardStatus::CaseExternal => 2,
        }
    }

    pub fn from_code(code: u32) -> (status: KeyboardStatus)
        ensures
            status == Self::spec_from_code(code),
    {
        if code == 2 {
            KeyboardStatus::CaseExternal
        } else if code == 1 {
            KeyboardStatus::AnyExternal
        } else {
            KeyboardStatus::NoExternal
        }
    }

    pub fn is_tablet_mode(&self) -> (r: bool)
        ensures
            r == self.spec_is_tablet_mode(),
    {
        matches!(*self, KeyboardStatus::NoExternal)
    }

    /// Publish this status into the shared single-word register. Other
    /// threads read it back with [`Self::load_atomic`].
    pub fn store_atomic(&self, atomic: &AtomicU32) {
        atomic.store(self.as_code(), Ordering::Relaxed);
    }

    /// Read the shared single-word register. The word read is whatever some
    /// thread last stored, so nothing can be promised about the value beyond
    /// that it decodes through [`Self::spec_from_code`]; every caller must be
    /// correct for all three outcomes.
    pub fn load_atomic(atomic: &AtomicU32) -> KeyboardStatus {
        KeyboardStatus::from_code(atomic.load(Ordering::Relaxed))
    }

    /// Encoding a status and decoding the code gives the status back.
    pub proof fn lemma_code_round_trip(self)
        ensures
            Self::spec_from_code(self.spec_code()) == self,
    {
    }
}

} // verus!
