use vstd::prelude::*;

verus! {

/// A commissionable device found on the local network.
#[derive(Clone, Debug)]
pub struct DiscoveredDeviceDto {
    pub instance: String,
    pub device: String,
    pub addresses: Vec<String>,
    pub port: u16,
    pub discriminator: Option<String>,
    pub vendor_id: Option<String>,
    pub product_id: Option<String>,
    pub name: Option<String>,
}

/// A commissionable device found over Bluetooth.
#[derive(Clone, Debug)]
pub struct BleDeviceDto {
    pub discriminator: u16,
    pub vendor_id: u16,
    pub product_id: u16,
    pub cm_flag: bool,
    pub rssi: Option<i16>,
    pub name: Option<String>,
    pub tx_power: Option<i16>,
    pub address: String,
}

/// The shortest and the longest scan, in seconds.
pub const MIN_SCAN_SECS: u64 = 2;
pub const MAX_SCAN_SECS: u64 = 30;

/// The port of a Matter device that does not announce one.
pub const DEFAULT_MATTER_PORT: u16 = 5540;

/// The length of a scan: the requested seconds, kept between 2 and 30.
pub fn scan_timeout_secs(requested: u64) -> (r: u64)
    ensures
        r == if requested < MIN_SCAN_SECS {
            MIN_SCAN_SECS
        } else if requested > MAX_SCAN_SECS {
            MAX_SCAN_SECS
        } else {
            requested
        },
        MIN_SCAN_SECS <= r <= MAX_SCAN_SECS,
{
    if requested < MIN_SCAN_SECS {
        MIN_SCAN_SECS
    } else if requested > MAX_SCAN_SECS {
        MAX_SCAN_SECS
    } else {
        requested
    }
}

/// The port to reach a discovered device on: the announced one, else the Matter default.
pub fn discovered_port(announced: Option<u16>) -> (r: u16)
    ensures
        r == match announced {
            Some(p) => p,
            None => DEFAULT_MATTER_PORT,
        },
{
    match announced {
        Some(p) => p,
        None => DEFAULT_MATTER_PORT,
    }
}

} // verus!
