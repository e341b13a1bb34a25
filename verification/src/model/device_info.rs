//! The descriptor of a discovered device.

use vstd::prelude::*;

verus! {

/// Name shown for a device that does not tell its own.
pub open spec fn unknown_name() -> Seq<char> {
    "Unknown"@
}

/// A discovered device: its friendly name, its address as text and the
/// handle by which the Bluetooth subsystem knows it.
#[derive(Debug, Clone, PartialEq, Eq)]
pub struct DeviceInfo<D> {
    pub name: String,
    pub address: String,
    pub device: D,
}

impl<D> DeviceInfo<D> {
    /// Describes a device from what a query for its name gave. Where the
    /// query failed or the device has no name, the name is `"Unknown"`.
    pub fn from_device(name: Result<Option<String>, String>, address: String, device: D) -> (info:
        Self)
        ensures
            info.name@ == match name {
                Ok(Some(n)) => n@,
                _ => unknown_name(),
            },
            info.address == address,
            info.device == device,
    {
        let name = match name {
            Ok(Some(n)) => n,
            _ => "Unknown".to_owned(),
        };
        DeviceInfo { name, address, device }
    }
}

} // verus!
