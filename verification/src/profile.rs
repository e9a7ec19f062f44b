//! The fixed configuration the bring-up sequencer hands to the USB transport:
//! the device identity and the sizes of the descriptor scratch buffers.

use vstd::prelude::*;

verus! {

/// Bytes of scratch for the configuration descriptor.
pub const CONFIG_DESCRIPTOR_CAPACITY: usize = 256;

/// Bytes of scratch for the BOS descriptor.
pub const BOS_DESCRIPTOR_CAPACITY: usize = 256;

/// Bytes of scratch for the MS-OS descriptor.
pub const MSOS_DESCRIPTOR_CAPACITY: usize = 256;

/// Bytes of scratch for control transfers.
pub const CONTROL_BUF_CAPACITY: usize = 64;

/// Maximum packet size of the serial data endpoints, and so the capacity of
/// the read buffer each packet is delivered in.
pub const MAX_PACKET_SIZE: u16 = 64;

/// The identity the device presents on the bus.
#[derive(Clone, Copy, PartialEq, Eq, Debug)]
pub struct DeviceProfile {
    pub vendor_id: u16,
    pub product_id: u16,
    pub manufacturer: &'static str,
    pub product: &'static str,
    pub serial_number: &'static str,
    /// Maximum power draw, in milliamperes.
    pub max_power_ma: u16,
    /// Maximum packet size of the control endpoint, in bytes.
    pub control_packet_size: u8,
}

/// The one profile this firmware ever presents.
pub fn dfu_device_profile() -> (profile: DeviceProfile)
    ensures
        profile.vendor_id == 0xc0de,
        profile.product_id == 0xcafe,
        profile.manufacturer@ == "Embassy"@,
        profile.product@ == "USB-serial example"@,
        profile.serial_number@ == "12345678"@,
        profile.max_power_ma == 100,
        profile.control_packet_size == 64,
{
    DeviceProfile {
        vendor_id: 0xc0de,
        product_id: 0xcafe,
        manufacturer: "Embassy",
        product: "USB-serial example",
        serial_number: "12345678",
        max_power_ma: 100,
        control_packet_size: 64,
    }
}

} // verus!
