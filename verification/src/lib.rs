//! Core logic of a USB-serial DFU reboot trigger.
//!
//! The firmware exposes a CDC-ACM (virtual serial) endpoint and watches the
//! incoming packet stream for one fixed command. On an exact match it writes a
//! hand-off value into a register that survives reset and resets the core, so
//! that the bootloader comes up in serial-only firmware-update mode.
//! Concurrently a status LED blinks on a fixed period.
//!
//! This crate holds the decision logic of that firmware: the command match,
//! the fault classification, the session watcher's state machine, the blinker,
//! and a model of the whole device that ties them together. The hardware and
//! the USB transport live outside and drive these functions event by event.

pub mod blinker;
pub mod device;
pub mod fault;
pub mod laws;
pub mod magic;
pub mod profile;
pub mod watcher;
