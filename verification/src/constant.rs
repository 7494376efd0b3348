//! Protocol constants shared with the device firmware.

use vstd::prelude::*;

verus! {

/// USB vendor id of Ledger devices.
pub const LEDGER_VID: u16 = 0x2c97;

/// HID usage page that the Ledger transport endpoint reports.
pub const LEDGER_USAGE_PAGE: u16 = 0xFFA0;

/// Channel id carried by every report of this integration.
pub const LEDGER_CHANNEL: u16 = 0x0101;

/// Size of one outgoing report. Byte 0 is a reserved zero pad byte, kept for
/// the report-id convention of one host platform, so 64 bytes reach the wire.
pub const LEDGER_PACKET_WRITE_SIZE: u8 = 65;

/// Size of one incoming report.
pub const LEDGER_PACKET_READ_SIZE: u8 = 64;

/// Tag marking a report as belonging to the segmentation protocol.
pub const LEDGER_TAG: u8 = 0x05;

/// APDU class of the get-version command.
pub const CLA_DEVICE_INFO: u8 = 0xe0;

/// APDU instruction of the get-version command.
pub const INS_DEVICE_INFO: u8 = 0x01;

/// APDU class of the open-app command.
pub const CLA_OPEN_APP: u8 = 0xe0;

/// APDU instruction of the open-app command.
pub const INS_OPEN_APP: u8 = 0xd8;

} // verus!
