use vstd::prelude::*;

verus! {

/// The two token families.
#[derive(Debug, Clone, Copy, PartialEq, Eq, Structural)]
pub enum DeviceType {
    PicoFido,
    PicoHsm,
}

/// A device found by a scan; `path` is its transport address and its key.
#[derive(Debug, Clone)]
pub struct DeviceInfo {
    pub device_type: DeviceType,
    pub serial: String,
    pub firmware_version: String,
    pub path: String,
}

/// LED settings shared by both token families.
#[derive(Debug, Clone)]
pub struct LedConfig {
    pub gpio: Option<u8>,
    pub brightness: Option<u8>,
    pub dimmable: Option<bool>,
    pub color: Option<String>,
}

} // verus!
