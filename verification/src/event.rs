//! Requests that an embedding application can route to a device.
//!
//! Each type names one action of the command catalog. The payload semantics
//! of these commands are plain APDU data bytes; the application builds the
//! matching [`crate::apdu::APDUCommand`] and runs it through the transport.

use vstd::prelude::*;

verus! {

/// Scan for Ledger devices connected via HID.
#[derive(Clone, Copy, Debug, PartialEq, Eq, Structural)]
pub struct ScanDevices;

/// Get information on the application currently running on the device. When
/// no application is running we will get BOLOS (or OLOS for very old firmware
/// versions), meaning the device is currently on the dashboard.
#[derive(Clone, Copy, Debug, PartialEq, Eq, Structural)]
pub struct GetAppAndVersion;

/// List all the applications installed on a device alongside their versions.
#[derive(Clone, Copy, Debug, PartialEq, Eq, Structural)]
pub struct ListApps;

/// Quit the application currently running on the connected device. Note that
/// the successful execution of this command will also trigger a disconnect,
/// meaning we will get the response followed by a connection loss and a
/// reconnection (on USB at least) when the device lands on the dashboard.
#[derive(Clone, Copy, Debug, PartialEq, Eq, Structural)]
pub struct QuitApp;

/// Get the device name; this is a user-blocking APDU where the user can
/// refuse the operation.
#[derive(Clone, Copy, Debug, PartialEq, Eq, Structural)]
pub struct GetDeviceName;

/// Set a new device name.
#[derive(Clone, Copy, Debug, PartialEq, Eq, Structural)]
pub struct EditDeviceName;

/// Remove an installed language pack from the device.
#[derive(Clone, Copy, Debug, PartialEq, Eq, Structural)]
pub struct UninstallLanguage;

/// Ask a Stax device for the size of its locked-screen image.
#[derive(Clone, Copy, Debug, PartialEq, Eq, Structural)]
pub struct StaxFetchImageSize;

/// Read the battery state of the device.
#[derive(Clone, Copy, Debug, PartialEq, Eq, Structural)]
pub struct GetBatteryState;

} // verus!
