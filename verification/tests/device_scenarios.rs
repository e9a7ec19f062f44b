use usb_dfu::blinker::{Blinker, BLINK_INTERVAL_MS};
use usb_dfu::device::{DeviceEvent, DfuDevice, DFU_MAGIC_SERIAL_ONLY_RESET};
use usb_dfu::fault::EndpointFault;
use usb_dfu::profile::{
    dfu_device_profile, BOS_DESCRIPTOR_CAPACITY, CONFIG_DESCRIPTOR_CAPACITY, CONTROL_BUF_CAPACITY,
    MAX_PACKET_SIZE, MSOS_DESCRIPTOR_CAPACITY,
};
use usb_dfu::watcher::{SessionEvent, WatcherState};

fn packet(bytes: &[u8]) -> DeviceEvent {
    DeviceEvent::Usb(SessionEvent::Packet(bytes.to_vec()))
}

fn connect() -> DeviceEvent {
    DeviceEvent::Usb(SessionEvent::HostConnected)
}

fn fault(f: EndpointFault) -> DeviceEvent {
    DeviceEvent::Usb(SessionEvent::Fault(f))
}

#[test]
fn magic_value_is_the_documented_handoff_constant() {
    assert_eq!(DFU_MAGIC_SERIAL_ONLY_RESET, 0x4E);
}

#[test]
fn connect_and_send_command_writes_handoff_and_resets() {
    let mut device = DfuDevice::power_on();
    device.step(&connect());
    device.step(&packet(b"bootloader"));
    assert_eq!(device.handoff, Some(0x4E));
    assert!(device.reset_issued);
    assert!(!device.halted);
}

#[test]
fn non_magic_payloads_never_touch_the_handoff_register() {
    let mut device = DfuDevice::power_on();
    device.step(&connect());
    for payload in [
        &b""[..],
        b"boot",
        b"bootloaderX",
        b"hello",
        &[0xde, 0xad, 0xbe, 0xef],
    ] {
        device.step(&packet(payload));
    }
    assert_eq!(device.handoff, None);
    assert!(!device.reset_issued);
}

#[test]
fn command_split_over_two_packets_does_not_reset() {
    let mut device = DfuDevice::power_on();
    device.step(&connect());
    device.step(&packet(b"boot"));
    device.step(&packet(b"loader"));
    assert_eq!(device.handoff, None);
    assert!(!device.reset_issued);
}

#[test]
fn nothing_runs_after_the_reset() {
    let mut device = DfuDevice::power_on();
    device.step(&connect());
    device.step(&packet(b"bootloader"));
    let frozen = device.clone();
    device.step(&packet(b"bootloader"));
    device.step(&DeviceEvent::TimerElapsed);
    device.step(&fault(EndpointFault::Disabled));
    assert_eq!(device, frozen);
}

#[test]
fn command_detected_again_on_the_next_session() {
    let mut device = DfuDevice::power_on();
    device.step(&connect());
    device.step(&packet(b"hello"));
    device.step(&fault(EndpointFault::Disabled));
    assert_eq!(device.watcher, WatcherState::Idle);
    assert!(!device.reset_issued);
    device.step(&connect());
    device.step(&packet(b"bootloader"));
    assert_eq!(device.handoff, Some(0x4E));
    assert!(device.reset_issued);
}

#[test]
fn overflow_halts_the_whole_program() {
    let mut device = DfuDevice::power_on();
    device.step(&connect());
    device.step(&fault(EndpointFault::BufferOverflow));
    assert!(device.halted);
    assert!(!device.reset_issued);
    let led_before = device.led;
    device.step(&DeviceEvent::TimerElapsed);
    assert_eq!(device.led, led_before);
}

#[test]
fn blinker_toggles_without_any_connection() {
    let mut device = DfuDevice::power_on();
    assert!(!device.led.pin_high);
    for round in 0..5 {
        device.step(&DeviceEvent::TimerElapsed);
        assert_eq!(device.led.pin_high, round % 2 == 0);
    }
    assert_eq!(device.watcher, WatcherState::Idle);
}

#[test]
fn blinker_is_independent_of_usb_traffic() {
    let mut device = DfuDevice::power_on();
    device.step(&DeviceEvent::TimerElapsed);
    device.step(&connect());
    device.step(&packet(b"hello"));
    assert!(device.led.pin_high);
    device.step(&DeviceEvent::TimerElapsed);
    device.step(&fault(EndpointFault::Disabled));
    device.step(&connect());
    assert!(!device.led.pin_high);
    device.step(&DeviceEvent::TimerElapsed);
    assert!(device.led.pin_high);
}

#[test]
fn blinker_alternates_on_a_one_second_period() {
    assert_eq!(BLINK_INTERVAL_MS, 1000);
    let mut blinker = Blinker::power_on();
    assert!(!blinker.pin_high);
    blinker.toggle();
    assert!(blinker.pin_high);
    blinker.toggle();
    assert!(!blinker.pin_high);
}

#[test]
fn device_profile_matches_the_usb_identity() {
    let profile = dfu_device_profile();
    assert_eq!(profile.vendor_id, 0xc0de);
    assert_eq!(profile.product_id, 0xcafe);
    assert_eq!(profile.manufacturer, "Embassy");
    assert_eq!(profile.product, "USB-serial example");
    assert_eq!(profile.serial_number, "12345678");
    assert_eq!(profile.max_power_ma, 100);
    assert_eq!(profile.control_packet_size, 64);
}

#[test]
fn descriptor_buffers_have_the_fixed_sizes() {
    assert_eq!(CONFIG_DESCRIPTOR_CAPACITY, 256);
    assert_eq!(BOS_DESCRIPTOR_CAPACITY, 256);
    assert_eq!(MSOS_DESCRIPTOR_CAPACITY, 256);
    assert_eq!(CONTROL_BUF_CAPACITY, 64);
    assert_eq!(MAX_PACKET_SIZE, 64);
}
