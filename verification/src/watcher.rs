//! The serial session watcher: one state machine that supervises connection
//! lifecycles and drives the magic-message detector.
//!
//! The watcher runs forever on events delivered by the transport. While
//! `Idle` it waits for a host connection; while `Connected` it reads packets,
//! compares each one whole against the magic command, and reacts to faults.
//! Every decision the firmware takes on the serial path is the pure function
//! [`watcher_next`]; performing the chosen action (suspending on the
//! transport, writing the hand-off register, resetting, aborting) is the
//! caller's duty.

use vstd::prelude::*;

use crate::fault::EndpointFault;
use crate::magic::is_magic_packet;
use crate::magic::magic_command;

verus! {

/// The two states of the session watcher. `Idle`: no host is connected.
/// `Connected`: a session is active and packets are being read.
#[derive(Clone, Copy, PartialEq, Eq, Structural, Debug)]
pub enum WatcherState {
    Idle,
    Connected,
}

/// One event observed on the serial transport.
#[derive(Clone, Debug)]
pub enum SessionEvent {
    /// A host opened a connection to the serial class.
    HostConnected,
    /// One read completed and delivered this packet payload (possibly empty).
    Packet(Vec<u8>),
    /// One read failed with this fault.
    Fault(EndpointFault),
}

/// Mathematical form of a session event: the packet payload as a sequence.
pub enum SessionEventView {
    HostConnected,
    Packet(Seq<u8>),
    Fault(EndpointFault),
}

impl View for SessionEvent {
    type V = SessionEventView;

    open spec fn view(&self) -> SessionEventView {
        match self {
            SessionEvent::HostConnected => SessionEventView::HostConnected,
            SessionEvent::Packet(payload) => SessionEventView::Packet(payload@),
            SessionEvent::Fault(fault) => SessionEventView::Fault(*fault),
        }
    }
}

/// What the watcher asks its caller to do next. Exactly one action follows
/// each event.
#[derive(Clone, Copy, PartialEq, Eq, Structural, Debug)]
pub enum WatcherAction {
    /// Suspend until the transport reports the next host connection.
    AwaitConnection,
    /// Suspend until the next packet read completes or faults.
    ReadPacket,
    /// Write the hand-off value and reset the core; control never returns.
    TriggerReboot,
    /// Fatal fault: stop the whole program.
    AbortProgram,
}

/// The transition function of the watcher, over the event's mathematical
/// form. A connection moves `Idle` to `Connected`; a packet equal to the
/// magic command triggers the reboot and any other packet is ignored; a
/// clean disconnect moves back to `Idle`; a buffer overflow aborts. Events
/// that the transport cannot deliver in the current state (a packet while
/// idle, a second connection report) change nothing.
pub open spec fn spec_watcher_next(state: WatcherState, event: SessionEventView) -> (
    WatcherState,
    WatcherAction,
) {
    match state {
        WatcherState::Idle => match event {
            SessionEventView::HostConnected => (WatcherState::Connected, WatcherAction::ReadPacket),
            _ => (WatcherState::Idle, WatcherAction::AwaitConnection),
        },
        WatcherState::Connected => match event {
            SessionEventView::HostConnected => (
                WatcherState::Connected,
                WatcherAction::ReadPacket,
            ),
            SessionEventView::Packet(payload) => if payload == magic_command() {
                (WatcherState::Connected, WatcherAction::TriggerReboot)
            } else {
                (WatcherState::Connected, WatcherAction::ReadPacket)
            },
            SessionEventView::Fault(EndpointFault::Disabled) => (
                WatcherState::Idle,
                WatcherAction::AwaitConnection,
            ),
            SessionEventView::Fault(EndpointFault::BufferOverflow) => (
                WatcherState::Idle,
                WatcherAction::AbortProgram,
            ),
        },
    }
}

/// One step of the session watcher. Returns the successor state and the
/// action owed for this event, exactly as [`spec_watcher_next`] lays down.
pub fn watcher_next(state: &WatcherState, event: &SessionEvent) -> (step: (
    WatcherState,
    WatcherAction,
))
    ensures
        step == spec_watcher_next(*state, event@),
{
    match state {
        WatcherState::Idle => match event {
            SessionEvent::HostConnected => (WatcherState::Connected, WatcherAction::ReadPacket),
            _ => (WatcherState::Idle, WatcherAction::AwaitConnection),
        },
        WatcherState::Connected => match event {
            SessionEvent::HostConnected => (WatcherState::Connected, WatcherAction::ReadPacket),
            SessionEvent::Packet(payload) => if is_magic_packet(payload.as_slice()) {
                (WatcherState::Connected, WatcherAction::TriggerReboot)
            } else {
                (WatcherState::Connected, WatcherAction::ReadPacket)
            },
            SessionEvent::Fault(EndpointFault::Disabled) => (
                WatcherState::Idle,
                WatcherAction::AwaitConnection,
            ),
            SessionEvent::Fault(EndpointFault::BufferOverflow) => (
                WatcherState::Idle,
                WatcherAction::AbortProgram,
            ),
        },
    }
}

} // verus!
