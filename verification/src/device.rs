//! A model of the whole device: the session watcher, the status blinker, the
//! hand-off register and the reset line, stepped by one event at a time.
//!
//! The three long-lived duties of the firmware never share mutable state, so
//! the device as a whole is the product of their states, driven by an
//! interleaving of their events: serial transport events feed the watcher,
//! elapsed blink intervals feed the blinker. A reset or a fatal halt stops
//! the whole program, so both are absorbing: no later event changes anything,
//! the blinker included.

use vstd::prelude::*;

use crate::blinker::Blinker;
use crate::fault::EndpointFault;
use crate::magic::magic_command;
use crate::watcher::SessionEvent;
use crate::watcher::SessionEventView;
use crate::watcher::WatcherAction;
use crate::watcher::WatcherState;
use crate::watcher::spec_watcher_next;
use crate::watcher::watcher_next;

verus! {

/// The value written into the hand-off register before the reset: the boot
/// ROM reads it and comes up in serial-only firmware-update mode.
pub const DFU_MAGIC_SERIAL_ONLY_RESET: u32 = 0x4E;

/// One event delivered to the running device.
#[derive(Clone, Debug)]
pub enum DeviceEvent {
    /// The serial transport reports a connection, a packet or a fault.
    Usb(SessionEvent),
    /// One blink interval elapsed.
    TimerElapsed,
}

/// Mathematical form of a device event.
pub enum DeviceEventView {
    Usb(SessionEventView),
    TimerElapsed,
}

impl View for DeviceEvent {
    type V = DeviceEventView;

    open spec fn view(&self) -> DeviceEventView {
        match self {
            DeviceEvent::Usb(event) => DeviceEventView::Usb(event@),
            DeviceEvent::TimerElapsed => DeviceEventView::TimerElapsed,
        }
    }
}

/// The whole observable state of the device.
#[derive(Clone, PartialEq, Eq, Structural, Debug)]
pub struct DfuDevice {
    /// State of the serial session watcher.
    pub watcher: WatcherState,
    /// State of the status blinker.
    pub led: Blinker,
    /// What this firmware wrote into the hand-off register, if anything.
    pub handoff: Option<u32>,
    /// The core reset was issued; the program is gone.
    pub reset_issued: bool,
    /// A fatal fault stopped the whole program.
    pub halted: bool,
}

/// The device as it leaves the bring-up sequencer: watcher idle, pin low,
/// hand-off register untouched, running.
pub open spec fn spec_power_on() -> DfuDevice {
    DfuDevice {
        watcher: WatcherState::Idle,
        led: Blinker { pin_high: false },
        handoff: None,
        reset_issued: false,
        halted: false,
    }
}

/// The transition function of the whole device. Once reset or halted,
/// nothing moves any more. Otherwise a timer event toggles the blinker and
/// touches nothing else, and a transport event drives the watcher: the
/// reboot action writes the hand-off value and issues the reset, the abort
/// action halts the program, every other action leaves the rest of the
/// device as it was.
pub open spec fn spec_device_next(device: DfuDevice, event: DeviceEventView) -> DfuDevice {
    if device.reset_issued || device.halted {
        device
    } else {
        match event {
            DeviceEventView::TimerElapsed => DfuDevice {
                led: Blinker { pin_high: !device.led.pin_high },
                ..device
            },
            DeviceEventView::Usb(usb_event) => {
                let step = spec_watcher_next(device.watcher, usb_event);
                match step.1 {
                    WatcherAction::TriggerReboot => DfuDevice {
                        watcher: step.0,
                        handoff: Some(DFU_MAGIC_SERIAL_ONLY_RESET),
                        reset_issued: true,
                        ..device
                    },
                    WatcherAction::AbortProgram => DfuDevice {
                        watcher: step.0,
                        halted: true,
                        ..device
                    },
                    _ => DfuDevice { watcher: step.0, ..device },
                }
            },
        }
    }
}

/// The device after a whole sequence of events, first event first.
pub open spec fn spec_device_run(device: DfuDevice, events: Seq<DeviceEventView>) -> DfuDevice
    decreases events.len(),
{
    if events.len() == 0 {
        device
    } else {
        spec_device_run(spec_device_next(device, events[0]), events.drop_first())
    }
}

/// A transport event carrying exactly the magic command as one packet.
pub open spec fn is_magic_packet_event(event: DeviceEventView) -> bool {
    event matches DeviceEventView::Usb(SessionEventView::Packet(payload)) && payload
        == magic_command()
}

/// A transport event reporting a buffer overflow.
pub open spec fn is_overflow_event(event: DeviceEventView) -> bool {
    event matches DeviceEventView::Usb(
        SessionEventView::Fault(EndpointFault::BufferOverflow),
    )
}

/// How many blink intervals elapse in a sequence of events.
pub open spec fn spec_tick_count(events: Seq<DeviceEventView>) -> nat
    decreases events.len(),
{
    if events.len() == 0 {
        0
    } else {
        (if events[0] is TimerElapsed {
            1nat
        } else {
            0nat
        }) + spec_tick_count(events.drop_first())
    }
}

impl DfuDevice {
    /// The state the bring-up sequencer leaves the device in.
    pub fn power_on() -> (device: DfuDevice)
        ensures
            device == spec_power_on(),
    {
        DfuDevice {
            watcher: WatcherState::Idle,
            led: Blinker { pin_high: false },
            handoff: None,
            reset_issued: false,
            halted: false,
        }
    }

    /// Apply one event, exactly as [`spec_device_next`] lays down.
    pub fn step(&mut self, event: &DeviceEvent)
        ensures
            *final(self) == spec_device_next(*old(self), event@),
    {
        if self.reset_issued || self.halted {
            return;
        }
        match event {
            DeviceEvent::TimerElapsed => {
                self.led.toggle();
            },
            DeviceEvent::Usb(usb_event) => {
                let step = watcher_next(&self.watcher, usb_event);
                self.watcher = step.0;
                match step.1 {
                    WatcherAction::TriggerReboot => {
                        self.handoff = Some(DFU_MAGIC_SERIAL_ONLY_RESET);
                        self.reset_issued = true;
                    },
                    WatcherAction::AbortProgram => {
                        self.halted = true;
                    },
                    _ => {},
                }
            },
        }
    }
}

} // verus!
