//! The guarantees the device model gives, each proved once and for all.

use vstd::prelude::*;

use crate::blinker::spec_level_after;
use crate::device::DFU_MAGIC_SERIAL_ONLY_RESET;
use crate::device::DeviceEventView;
use crate::device::DfuDevice;
use crate::device::is_magic_packet_event;
use crate::device::is_overflow_event;
use crate::device::spec_device_next;
use crate::device::spec_device_run;
use crate::device::spec_tick_count;
use crate::fault::EndpointFault;
use crate::magic::magic_command;
use crate::watcher::SessionEventView;

verus! {

/// However long the device runs, as long as no packet carries exactly the
/// magic command, the hand-off register is never written and no reset is
/// issued: prefixes, supersets, empty packets, any other payload, and
/// connection or fault events all leave both untouched.
pub proof fn lemma_non_magic_never_triggers(device: DfuDevice, events: Seq<DeviceEventView>)
    requires
        !device.reset_issued,
        device.handoff is None,
        forall|i: int| 0 <= i < events.len() ==> !is_magic_packet_event(#[trigger] events[i]),
    ensures
        !spec_device_run(device, events).reset_issued,
        spec_device_run(device, events).handoff is None,
    decreases events.len(),
{
    if events.len() > 0 {
        let rest = events.drop_first();
        assert forall|i: int| 0 <= i < rest.len() implies !is_magic_packet_event(
            #[trigger] rest[i],
        ) by {
            assert(rest[i] == events[i + 1]);
        }
        assert(!is_magic_packet_event(events[0]));
        lemma_non_magic_never_triggers(spec_device_next(device, events[0]), rest);
    }
}

/// Feeding exactly the magic command as one packet to a connected, running
/// device writes the hand-off value and issues the reset, in that one step.
pub proof fn lemma_magic_packet_reboots(device: DfuDevice)
    requires
        device.watcher is Connected,
        !device.reset_issued,
        !device.halted,
    ensures
        ({
            let next = spec_device_next(
                device,
                DeviceEventView::Usb(SessionEventView::Packet(magic_command())),
            );
            &&& next.reset_issued
            &&& next.handoff == Some(DFU_MAGIC_SERIAL_ONLY_RESET)
        }),
{
}

/// A reset or a halt is the end of the program: no later event changes the
/// device at all. With [`lemma_magic_packet_reboots`] this makes the
/// hand-off write exactly one write with no application activity after it;
/// it also stops the blinker together with everything else on a halt.
pub proof fn lemma_stopped_device_is_final(device: DfuDevice, events: Seq<DeviceEventView>)
    requires
        device.reset_issued || device.halted,
    ensures
        spec_device_run(device, events) == device,
    decreases events.len(),
{
    if events.len() > 0 {
        lemma_stopped_device_is_final(device, events.drop_first());
    }
}

/// A command split over two packets never triggers the reboot: each packet
/// is compared whole, and neither half of a proper split equals the command.
pub proof fn lemma_split_command_never_triggers(
    device: DfuDevice,
    first: Seq<u8>,
    second: Seq<u8>,
)
    requires
        !device.reset_issued,
        device.handoff is None,
        first + second == magic_command(),
        first.len() > 0,
        second.len() > 0,
    ensures
        ({
            let run = spec_device_run(
                device,
                seq![
                    DeviceEventView::Usb(SessionEventView::Packet(first)),
                    DeviceEventView::Usb(SessionEventView::Packet(second)),
                ],
            );
            &&& !run.reset_issued
            &&& run.handoff is None
        }),
{
    let events = seq![
        DeviceEventView::Usb(SessionEventView::Packet(first)),
        DeviceEventView::Usb(SessionEventView::Packet(second)),
    ];
    assert(first.len() + second.len() == magic_command().len());
    assert(magic_command().len() == 10);
    assert(first != magic_command() && second != magic_command());
    assert forall|i: int| 0 <= i < events.len() implies !is_magic_packet_event(
        #[trigger] events[i],
    ) by {
        assert(i == 0 || i == 1);
    }
    lemma_non_magic_never_triggers(device, events);
}

/// A clean disconnect sends the watcher back to waiting for the next
/// connection and leaves everything else, the hand-off register included,
/// as it was.
pub proof fn lemma_disconnect_reenters_idle(device: DfuDevice)
    requires
        device.watcher is Connected,
        !device.reset_issued,
        !device.halted,
    ensures
        ({
            let next = spec_device_next(
                device,
                DeviceEventView::Usb(SessionEventView::Fault(EndpointFault::Disabled)),
            );
            &&& next.watcher is Idle
            &&& !next.reset_issued
            &&& !next.halted
            &&& next.handoff == device.handoff
            &&& next.led == device.led
        }),
{
}

/// No state leaks across sessions: after a clean disconnect, a new
/// connection followed by the magic command still triggers the reboot.
pub proof fn lemma_detects_across_sessions(device: DfuDevice)
    requires
        device.watcher is Connected,
        !device.reset_issued,
        !device.halted,
    ensures
        ({
            let run = spec_device_run(
                device,
                seq![
                    DeviceEventView::Usb(SessionEventView::Fault(EndpointFault::Disabled)),
                    DeviceEventView::Usb(SessionEventView::HostConnected),
                    DeviceEventView::Usb(SessionEventView::Packet(magic_command())),
                ],
            );
            &&& run.reset_issued
            &&& run.handoff == Some(DFU_MAGIC_SERIAL_ONLY_RESET)
        }),
{
    let disconnect = DeviceEventView::Usb(SessionEventView::Fault(EndpointFault::Disabled));
    let reconnect = DeviceEventView::Usb(SessionEventView::HostConnected);
    let command = DeviceEventView::Usb(SessionEventView::Packet(magic_command()));
    let events = seq![disconnect, reconnect, command];
    let after_disconnect = spec_device_next(device, disconnect);
    let after_reconnect = spec_device_next(after_disconnect, reconnect);
    let after_command = spec_device_next(after_reconnect, command);
    assert(after_disconnect.watcher is Idle && !after_disconnect.reset_issued
        && !after_disconnect.halted);
    assert(after_reconnect.watcher is Connected && !after_reconnect.reset_issued
        && !after_reconnect.halted);
    assert(events.drop_first() =~= seq![reconnect, command]);
    assert(seq![reconnect, command].drop_first() =~= seq![command]);
    assert(seq![command].drop_first() =~= Seq::<DeviceEventView>::empty());
    assert(events[0] == disconnect);
    assert(spec_device_run(device, events) == spec_device_run(
        after_disconnect,
        seq![reconnect, command],
    ));
    assert(spec_device_run(after_disconnect, seq![reconnect, command]) == spec_device_run(
        after_reconnect,
        seq![command],
    ));
    assert(spec_device_run(after_reconnect, seq![command]) == spec_device_run(
        after_command,
        Seq::<DeviceEventView>::empty(),
    ));
    assert(spec_device_run(after_command, Seq::<DeviceEventView>::empty()) == after_command);
}

/// A buffer overflow during a session halts the whole program in one step.
/// By [`lemma_stopped_device_is_final`] nothing runs afterwards, the blinker
/// included.
pub proof fn lemma_overflow_halts(device: DfuDevice)
    requires
        device.watcher is Connected,
        !device.reset_issued,
        !device.halted,
    ensures
        spec_device_next(
            device,
            DeviceEventView::Usb(SessionEventView::Fault(EndpointFault::BufferOverflow)),
        ).halted,
{
}

/// Flipping the starting level flips every later level.
proof fn lemma_level_after_flips(start: bool, ticks: nat)
    ensures
        spec_level_after(!start, ticks) == !spec_level_after(start, ticks),
    decreases ticks,
{
    if ticks > 0 {
        lemma_level_after_flips(start, (ticks - 1) as nat);
    }
}

/// As long as the device keeps running — no magic packet, no overflow — the
/// blinker's level depends on the elapsed intervals alone: it alternates on
/// every interval, whatever the USB side delivers in between, including
/// nothing at all.
pub proof fn lemma_blinker_alternates_independently(
    device: DfuDevice,
    events: Seq<DeviceEventView>,
)
    requires
        !device.reset_issued,
        !device.halted,
        forall|i: int| 0 <= i < events.len() ==> !is_magic_packet_event(#[trigger] events[i]),
        forall|i: int| 0 <= i < events.len() ==> !is_overflow_event(#[trigger] events[i]),
    ensures
        spec_device_run(device, events).led.pin_high == spec_level_after(
            device.led.pin_high,
            spec_tick_count(events),
        ),
    decreases events.len(),
{
    if events.len() > 0 {
        let next = spec_device_next(device, events[0]);
        let rest = events.drop_first();
        assert(!is_magic_packet_event(events[0]) && !is_overflow_event(events[0]));
        assert(!next.reset_issued && !next.halted);
        assert forall|i: int| 0 <= i < rest.len() implies !is_magic_packet_event(
            #[trigger] rest[i],
        ) && !is_overflow_event(rest[i]) by {
            assert(rest[i] == events[i + 1]);
        }
        lemma_blinker_alternates_independently(next, rest);
        if events[0] is TimerElapsed {
            lemma_level_after_flips(device.led.pin_high, spec_tick_count(rest));
        }
    }
}

} // verus!
