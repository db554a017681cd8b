//! Forwarding of the volume keys from the real keyboard to the synthesized
//! device, gated on the current presence, and the synthesized switch event
//! that announces tablet mode.

use vstd::prelude::*;
use crate::classify::BUS_I8042;
use crate::classify::DeviceIdentity;
use crate::classify::DeviceSnapshot;
use crate::classify::spec_classify;
use crate::status::KeyboardStatus;
use crate::store::SharedStateStore;
use crate::store::spec_apply;

verus! {

/// Key code of the volume-down key.
pub const KEY_VOLUMEDOWN: u16 = 114;

/// Key code of the volume-up key.
pub const KEY_VOLUMEUP: u16 = 115;

/// Event type number of key events.
pub const EV_KEY: u16 = 0x01;

/// Event type number of switch events.
pub const EV_SW: u16 = 0x05;

/// Switch code of the tablet-mode switch.
pub const SW_TABLET_MODE: u16 = 0x01;

/// One raw input event as the kernel frames it: type, code, value.
#[derive(Clone, Copy, Debug, PartialEq, Eq, Structural)]
pub struct RawEvent {
    pub event_type: u16,
    pub code: u16,
    pub value: i32,
}

/// The identity of the device whose keys are read and selectively
/// forwarded: the internal keyboard on the i8042 controller.
pub open spec fn spec_is_internal_keyboard(id: DeviceIdentity) -> bool {
    id == (DeviceIdentity { bus_type: BUS_I8042, vendor: 0x1, product: 0x1 })
}

pub fn is_internal_keyboard(id: &DeviceIdentity) -> (r: bool)
    ensures
        r == spec_is_internal_keyboard(*id),
{
    id.bus_type == BUS_I8042 && id.vendor == 0x1 && id.product == 0x1
}

/// The fixed set of key codes that are ever forwarded: volume down and
/// volume up.
pub open spec fn spec_is_forwarded_code(code: u16) -> bool {
    code == KEY_VOLUMEDOWN || code == KEY_VOLUMEUP
}

pub fn is_forwarded_code(code: u16) -> (r: bool)
    ensures
        r == spec_is_forwarded_code(code),
{
    code == KEY_VOLUMEDOWN || code == KEY_VOLUMEUP
}

/// What the reader of the real keyboard hands on: a key event for one of
/// the forwarded codes, unchanged, and nothing for any other code.
pub open spec fn spec_filter_key_event(code: u16, value: i32) -> Option<RawEvent> {
    if spec_is_forwarded_code(code) {
        Some(RawEvent { event_type: EV_KEY, code, value })
    } else {
        None
    }
}

pub fn filter_key_event(code: u16, value: i32) -> (r: Option<RawEvent>)
    ensures
        r == spec_filter_key_event(code, value),
{
    if is_forwarded_code(code) {
        Some(RawEvent { event_type: EV_KEY, code, value })
    } else {
        None
    }
}

/// The forwarding gate: an event goes through to the sink exactly when the
/// current presence is `NoExternal` (tablet mode, no fallback keyboard),
/// and is dropped silently otherwise.
pub open spec fn spec_gate_event(presence: KeyboardStatus, event: RawEvent) -> Option<RawEvent> {
    if presence.spec_is_tablet_mode() {
        Some(event)
    } else {
        None
    }
}

pub fn gate_event(presence: KeyboardStatus, event: RawEvent) -> (r: Option<RawEvent>)
    ensures
        r == spec_gate_event(presence, event),
{
    if presence.is_tablet_mode() {
        Some(event)
    } else {
        None
    }
}

/// The switch event that announces whether the machine is in tablet mode.
pub open spec fn spec_tablet_mode_event(tablet: bool) -> RawEvent {
    RawEvent {
        event_type: EV_SW,
        code: SW_TABLET_MODE,
        value: if tablet {
            1
        } else {
            0
        },
    }
}

pub fn tablet_mode_event(tablet: bool) -> (r: RawEvent)
    ensures
        r == spec_tablet_mode_event(tablet),
{
    RawEvent { event_type: EV_SW, code: SW_TABLET_MODE, value: if tablet { 1 } else { 0 } }
}

/// One full recheck over a fresh device snapshot: classify it, record the
/// result in the shared store, and return the switch event that announces
/// the resulting tablet-mode flag.
pub fn process_snapshot(store: &mut SharedStateStore, devices: &Vec<DeviceSnapshot>) -> (ev:
    RawEvent)
    ensures
        final(store)@ == spec_apply(old(store)@, spec_classify(devices@)),
        ev == spec_tablet_mode_event(spec_classify(devices@).spec_is_tablet_mode()),
{
    let status = crate::classify::classify(devices);
    let ev = tablet_mode_event(status.is_tablet_mode());
    store.apply_classification(status);
    ev
}

/// Forwarding gate law: with presence `AnyExternal` (or `CaseExternal`) no
/// event — in particular no volume-up event — reaches the sink; with
/// presence `NoExternal` the event is emitted with identical code and
/// value.
pub proof fn lemma_forwarding_gate(presence: KeyboardStatus, event: RawEvent)
    ensures
        presence != KeyboardStatus::NoExternal ==> spec_gate_event(presence, event) is None,
        presence == KeyboardStatus::NoExternal ==> spec_gate_event(presence, event) == Some(
            event,
        ),
{
}

} // verus!
