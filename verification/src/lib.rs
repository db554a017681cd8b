//! Keyboard-presence engine for a convertible laptop.
//!
//! The library decides whether the machine's internal keyboard is covered or
//! replaced by an external one. It classifies a snapshot of the enumerated
//! input devices into a tri-state presence value, keeps that value and a queue
//! of pending property changes in a shared store, debounces bursts of hotplug
//! signals into single rechecks, gates the forwarding of volume keys on the
//! current presence, and batches property changes for an external
//! notification interface. All decisions are made here, over plain values;
//! the device and bus I/O around them lives outside the library.

pub mod classify;
pub mod forwarder;
pub mod monitor;
pub mod publisher;
pub mod status;
pub mod store;
