use usb_dfu::fault::{classify_fault, EndpointFault, FaultSeverity};
use usb_dfu::magic::{is_magic_packet, MAGIC_COMMAND_LEN};
use usb_dfu::watcher::{watcher_next, SessionEvent, WatcherAction, WatcherState};

#[test]
fn magic_packet_matches_exactly() {
    assert!(is_magic_packet(b"bootloader"));
    assert_eq!(MAGIC_COMMAND_LEN, 10);
}

#[test]
fn prefix_of_command_does_not_match() {
    assert!(!is_magic_packet(b"boot"));
    assert!(!is_magic_packet(b"bootloade"));
}

#[test]
fn superset_of_command_does_not_match() {
    assert!(!is_magic_packet(b"bootloaderX"));
    assert!(!is_magic_packet(b"bootloader\n"));
    assert!(!is_magic_packet(b"xbootloader"));
}

#[test]
fn empty_packet_does_not_match() {
    assert!(!is_magic_packet(b""));
}

#[test]
fn non_ascii_bytes_do_not_match() {
    assert!(!is_magic_packet(&[0xff, 0xfe, 0x00, 0x4e]));
    assert!(!is_magic_packet(&[0x00; 10]));
}

#[test]
fn same_length_different_bytes_do_not_match() {
    assert!(!is_magic_packet(b"bootloadEr"));
    assert!(!is_magic_packet(b"Bootloader"));
}

#[test]
fn overflow_is_fatal() {
    assert_eq!(
        classify_fault(&EndpointFault::BufferOverflow),
        FaultSeverity::Fatal
    );
}

#[test]
fn disconnect_is_recoverable() {
    assert_eq!(
        classify_fault(&EndpointFault::Disabled),
        FaultSeverity::Recoverable
    );
}

#[test]
fn idle_watcher_moves_to_connected_on_connection() {
    let step = watcher_next(&WatcherState::Idle, &SessionEvent::HostConnected);
    assert_eq!(step.0, WatcherState::Connected);
    assert_eq!(step.1, WatcherAction::ReadPacket);
}

#[test]
fn idle_watcher_ignores_spurious_events() {
    let step = watcher_next(
        &WatcherState::Idle,
        &SessionEvent::Packet(b"bootloader".to_vec()),
    );
    assert_eq!(step.0, WatcherState::Idle);
    assert_eq!(step.1, WatcherAction::AwaitConnection);
    let step = watcher_next(
        &WatcherState::Idle,
        &SessionEvent::Fault(EndpointFault::Disabled),
    );
    assert_eq!(step.0, WatcherState::Idle);
    assert_eq!(step.1, WatcherAction::AwaitConnection);
}

#[test]
fn connected_watcher_triggers_on_magic_packet() {
    let step = watcher_next(
        &WatcherState::Connected,
        &SessionEvent::Packet(b"bootloader".to_vec()),
    );
    assert_eq!(step.1, WatcherAction::TriggerReboot);
}

#[test]
fn connected_watcher_keeps_reading_on_other_packets() {
    let step = watcher_next(
        &WatcherState::Connected,
        &SessionEvent::Packet(b"hello".to_vec()),
    );
    assert_eq!(step.0, WatcherState::Connected);
    assert_eq!(step.1, WatcherAction::ReadPacket);
    let step = watcher_next(&WatcherState::Connected, &SessionEvent::Packet(Vec::new()));
    assert_eq!(step.0, WatcherState::Connected);
    assert_eq!(step.1, WatcherAction::ReadPacket);
}

#[test]
fn connected_watcher_reenters_idle_on_disconnect() {
    let step = watcher_next(
        &WatcherState::Connected,
        &SessionEvent::Fault(EndpointFault::Disabled),
    );
    assert_eq!(step.0, WatcherState::Idle);
    assert_eq!(step.1, WatcherAction::AwaitConnection);
}

#[test]
fn connected_watcher_aborts_on_overflow() {
    let step = watcher_next(
        &WatcherState::Connected,
        &SessionEvent::Fault(EndpointFault::BufferOverflow),
    );
    assert_eq!(step.1, WatcherAction::AbortProgram);
}
