//! Errors that the device manager reports to its callers.
use crate::device::DeviceStatus;
use vstd::prelude::*;

verus! {

/// An error of the device manager.
#[derive(Debug)]
pub enum ManagerError {
    /// No device with this id is registered.
    DeviceNotExist(u128),
    /// A device with this id (the id of the requested source) is registered.
    DeviceAlreadyExist(u128),
    /// The device is in a status that does not allow the operation.
    DeviceStatus(DeviceStatus, u128),
    /// The transport could not be opened or configured.
    DeviceSourceError(String),
    /// The registry is empty.
    NoDevices,
    /// Anything else, described in words.
    Other(String),
}

} // verus!
