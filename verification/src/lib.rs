//! Polling-friendly gamepad snapshots decoded from a handheld
//! controller's proprietary USB-HID telemetry.
//!
//! The crate is organised along the data path: raw report bytes are
//! decoded by the wire-protocol codec in [`protocol`], folded into a
//! debounced snapshot by the aggregator in [`gamepad`], and published to
//! consumers through the shared cell in [`session`].  The
//! reconnect/poll state machine that drives the device is in
//! [`supervisor`]; the process around the library performs its actions
//! (enumerate, open, read, send, sleep) and feeds the outcomes back.

use vstd::prelude::*;

pub mod gamepad;
pub mod protocol;
pub mod session;
pub mod supervisor;

use crate::protocol::ProtocolError;

verus! {

/// Vendor identifier of the supported controller.
pub const STEAMDECK_VENDOR_ID: u16 = 0x28de;

/// Product identifier of the supported controller.
pub const STEAMDECK_PRODUCT_ID: u16 = 0x1205;

/// Logical HID interface that carries the 64-byte input reports.
pub const STEAMDECK_INTERFACE_NUMBER: i32 = 2;

/// True exactly for the enumeration entry the session must open: the
/// fixed vendor/product pair on the interface that exposes the raw
/// input reports.
pub fn is_target_device(vendor_id: u16, product_id: u16, interface_number: i32) -> (r: bool)
    ensures
        r <==> (vendor_id == STEAMDECK_VENDOR_ID && product_id == STEAMDECK_PRODUCT_ID
            && interface_number == STEAMDECK_INTERFACE_NUMBER),
{
    vendor_id == STEAMDECK_VENDOR_ID && product_id == STEAMDECK_PRODUCT_ID
        && interface_number == STEAMDECK_INTERFACE_NUMBER
}

/// The session-level error taxonomy.  Transport failures are reported
/// by the HID layer outside this library and carried here as text;
/// protocol errors come from the codec.
#[derive(Clone, Debug)]
pub enum SteamDeckInputError {
    /// The transport failed: enumeration, open, read or send.
    HidError(String),
    /// A report or buffer failed protocol validation.
    ProtocolError(ProtocolError),
}

impl From<ProtocolError> for SteamDeckInputError {
    fn from(e: ProtocolError) -> (r: SteamDeckInputError) {
        SteamDeckInputError::ProtocolError(e)
    }
}

impl vstd::std_specs::convert::FromSpecImpl<ProtocolError> for SteamDeckInputError {
    open spec fn obeys_from_spec() -> bool {
        true
    }

    open spec fn from_spec(e: ProtocolError) -> Self {
        SteamDeckInputError::ProtocolError(e)
    }
}

} // verus!
