//! Presence classification over a snapshot of the enumerated input devices.

use vstd::prelude::*;
use crate::status::KeyboardStatus;

verus! {

/// Bus identifier of the i8042 controller that drives the built-in keyboard.
pub const BUS_I8042: u16 = 0x11;

/// Bus identifier of USB devices.
pub const BUS_USB: u16 = 0x03;

/// Bus identifier of Bluetooth devices.
pub const BUS_BLUETOOTH: u16 = 0x05;

/// Key code of the Enter key.
pub const KEY_ENTER: u16 = 28;

/// Key code of the Backspace key.
pub const KEY_BACKSPACE: u16 = 14;

/// Key code of the Escape key.
pub const KEY_ESC: u16 = 1;

/// Immutable identity of one input device: bus type, vendor id, product id.
#[derive(Clone, Copy, Debug, PartialEq, Eq, Structural)]
pub struct DeviceIdentity {
    pub bus_type: u16,
    pub vendor: u16,
    pub product: u16,
}

/// One enumerated device: its identity and, when the device reports them,
/// the key codes it supports. `keys` is `None` for a device without key
/// capability information.
#[derive(Clone, Debug)]
pub struct DeviceSnapshot {
    pub identity: DeviceIdentity,
    pub keys: Option<Vec<u16>>,
}

/// The identity of the detachable keyboard case.
pub open spec fn spec_is_case_identity(id: DeviceIdentity) -> bool {
    id == (DeviceIdentity { bus_type: BUS_BLUETOOTH, vendor: 0x04e8, product: 0x7021 })
}

/// The fixed blacklist of identities that belong to the machine's own
/// internal keyboard or its integrated controller.
pub open spec fn spec_is_blacklisted(id: DeviceIdentity) -> bool {
    ||| id == (DeviceIdentity { bus_type: BUS_I8042, vendor: 0x1, product: 0x1 })
    ||| id == (DeviceIdentity { bus_type: BUS_USB, vendor: 0x17ef, product: 0x6184 })
}

/// A device looks like a keyboard when it reports key capabilities and the
/// reported set contains all three probe keys: Enter, Backspace and Escape.
pub open spec fn spec_looks_like_keyboard(d: DeviceSnapshot) -> bool {
    d.keys matches Some(ks)
        && ks@.contains(KEY_ENTER)
        && ks@.contains(KEY_BACKSPACE)
        && ks@.contains(KEY_ESC)
}

/// A device counts as an external keyboard when it looks like a keyboard and
/// its identity is not blacklisted as the internal one.
pub open spec fn spec_is_external_keyboard(d: DeviceSnapshot) -> bool {
    spec_looks_like_keyboard(d) && !spec_is_blacklisted(d.identity)
}

/// The classification of a device snapshot. The keyboard case dominates
/// regardless of its position in the sequence; otherwise any external
/// keyboard yields `AnyExternal`; otherwise there is no external keyboard.
pub open spec fn spec_classify(s: Seq<DeviceSnapshot>) -> KeyboardStatus {
    if exists|i: int| 0 <= i < s.len() && spec_is_case_identity(s[i].identity) {
        KeyboardStatus::CaseExternal
    } else if exists|i: int| 0 <= i < s.len() && spec_is_external_keyboard(s[i]) {
        KeyboardStatus::AnyExternal
    } else {
        KeyboardStatus::NoExternal
    }
}

pub fn is_case_identity(id: &DeviceIdentity) -> (r: bool)
    ensures
        r == spec_is_case_identity(*id),
{
    id.bus_type == BUS_BLUETOOTH && id.vendor == 0x04e8 && id.product == 0x7021
}

pub fn is_blacklisted(id: &DeviceIdentity) -> (r: bool)
    ensures
        r == spec_is_blacklisted(*id),
{
    (id.bus_type == BUS_I8042 && id.vendor == 0x1 && id.product == 0x1) || (id.bus_type == BUS_USB
        && id.vendor == 0x17ef && id.product == 0x6184)
}

fn contains_code(keys: &Vec<u16>, code: u16) -> (r: bool)
    ensures
        r == keys@.contains(code),
{
    let n = keys.len();
    let mut i: usize = 0;
    while i < n
        invariant
            n == keys@.len(),
            0 <= i <= n,
            forall|j: int| 0 <= j < i ==> keys@[j] != code,
        decreases n - i,
    {
        if keys[i] == code {
            return true;
        }
        i = i + 1;
    }
    false
}

pub fn looks_like_keyboard(d: &DeviceSnapshot) -> (r: bool)
    ensures
        r == spec_looks_like_keyboard(*d),
{
    match &d.keys {
        Some(ks) => {
            contains_code(ks, KEY_ENTER) && contains_code(ks, KEY_BACKSPACE) && contains_code(
                ks,
                KEY_ESC,
            )
        },
        None => false,
    }
}

pub fn is_external_keyboard(d: &DeviceSnapshot) -> (r: bool)
    ensures
        r == spec_is_external_keyboard(*d),
{
    looks_like_keyboard(d) && !is_blacklisted(&d.identity)
}

/// Classify a snapshot of the enumerated devices. Pure and total: every
/// snapshot has exactly the classification given by [`spec_classify`].
pub fn classify(devices: &Vec<DeviceSnapshot>) -> (r: KeyboardStatus)
    ensures
        r == spec_classify(devices@),
{
    let n = devices.len();
    let mut i: usize = 0;
    while i < n
        invariant
            n == devices@.len(),
            0 <= i <= n,
            forall|j: int| 0 <= j < i ==> !spec_is_case_identity(devices@[j].identity),
        decreases n - i,
    {
        if is_case_identity(&devices[i].identity) {
            return KeyboardStatus::CaseExternal;
        }
        i = i + 1;
    }
    let mut k: usize = 0;
    while k < n
        invariant
            n == devices@.len(),
            0 <= k <= n,
            forall|j: int| 0 <= j < n ==> !spec_is_case_identity(devices@[j].identity),
            forall|j: int| 0 <= j < k ==> !spec_is_external_keyboard(devices@[j]),
        decreases n - k,
    {
        if is_external_keyboard(&devices[k]) {
            return KeyboardStatus::AnyExternal;
        }
        k = k + 1;
    }
    KeyboardStatus::NoExternal
}

/// Precedence law: a snapshot that contains the case identity anywhere
/// classifies as `CaseExternal`, regardless of the other devices present.
pub proof fn lemma_case_precedence(s: Seq<DeviceSnapshot>, i: int)
    requires
        0 <= i < s.len(),
        spec_is_case_identity(s[i].identity),
    ensures
        spec_classify(s) == KeyboardStatus::CaseExternal,
{
}

/// A snapshot with no case identity that contains a non-blacklisted device
/// whose capability set holds the three probe keys classifies as
/// `AnyExternal`.
pub proof fn lemma_external_keyboard(s: Seq<DeviceSnapshot>, i: int)
    requires
        forall|j: int| 0 <= j < s.len() ==> !spec_is_case_identity(s[j].identity),
        0 <= i < s.len(),
        spec_is_external_keyboard(s[i]),
    ensures
        spec_classify(s) == KeyboardStatus::AnyExternal,
{
}

/// A snapshot with no case identity in which every device is blacklisted or
/// does not look like a keyboard classifies as `NoExternal`. The case
/// identity must be excluded: a device with the case identity but without
/// key capabilities still classifies as `CaseExternal`.
pub proof fn lemma_no_external(s: Seq<DeviceSnapshot>)
    requires
        forall|j: int| 0 <= j < s.len() ==> !spec_is_case_identity(s[j].identity),
        forall|j: int|
            0 <= j < s.len() ==> (spec_is_blacklisted(s[j].identity) || !spec_looks_like_keyboard(
                s[j],
            )),
    ensures
        spec_classify(s) == KeyboardStatus::NoExternal,
{
}

/// Tablet mode holds of a classification exactly when it is `NoExternal`.
pub proof fn lemma_tablet_mode_iff_none(s: Seq<DeviceSnapshot>)
    ensures
        spec_classify(s).spec_is_tablet_mode() == (spec_classify(s)
            == KeyboardStatus::NoExternal),
{
}

} // verus!
