//! Host-side transport for a Ledger-class HID signing device.
//!
//! The crate covers the byte-level core of the protocol: the APDU codec
//! (framing a command, decoding an answer) and the segmentation layer that
//! carries an arbitrarily long APDU over fixed-size HID reports. Device
//! discovery and the actual HID reads and writes are left to the embedding
//! application, which drives the verified reader state machine report by
//! report.

pub mod apdu;
pub mod constant;
pub mod error;
pub mod event;
pub mod transport;
