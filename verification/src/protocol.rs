//! Wire-protocol codec: the fixed 64-byte input reports the controller
//! sends, and the fixed 65-byte feature-report commands the session sends
//! back.  Every field is read from or written to the byte buffer at a
//! fixed little-endian offset; no payload byte is interpreted before the
//! report header has been validated.

use vstd::prelude::*;
use vstd::bytes::*;
use vstd::slice::slice_subrange;

verus! {

/// Report header version every supported input report carries.
pub const VALVE_IN_REPORT_MSG_VERSION: u16 = 0x01;

/// Wire size of a complete input report, header included.
pub const VALVE_IN_REPORT_BYTES: usize = 64;

/// Wire size of the payload that follows the 4-byte input report header.
pub const VALVE_IN_REPORT_PAYLOAD_BYTES: usize = 60;

pub const VALVE_IN_REPORT_MESSAGE_ID_CONTROLLER_STATE: u8 = 1;
pub const VALVE_IN_REPORT_MESSAGE_ID_CONTROLLER_DEBUG: u8 = 2;
pub const VALVE_IN_REPORT_MESSAGE_ID_CONTROLLER_WIRELESS: u8 = 3;
pub const VALVE_IN_REPORT_MESSAGE_ID_CONTROLLER_STATUS: u8 = 4;
pub const VALVE_IN_REPORT_MESSAGE_ID_CONTROLLER_DEBUG2: u8 = 5;
pub const VALVE_IN_REPORT_MESSAGE_ID_CONTROLLER_SECONDARY_STATE: u8 = 6;
pub const VALVE_IN_REPORT_MESSAGE_ID_CONTROLLER_BLE_STATE: u8 = 7;
pub const VALVE_IN_REPORT_MESSAGE_ID_CONTROLLER_DECK_STATE: u8 = 9;

/// A protocol-level decode failure.  Both variants are recoverable: the
/// session logs them and keeps polling; neither tears the connection down.
#[derive(Copy, Clone, Debug, PartialEq, Eq, Structural)]
pub enum ProtocolError {
    /// The transport handed over a buffer whose size is not the fixed
    /// report size (a zero-length read falls in here as well).
    WrongSize { read: usize },
    /// The header fields did not identify the report that was asked for.
    UnknownMessage { version: u16, report_type: u8, report_length: u8 },
}

/// Common prefix of every inbound report: version, report type and the
/// declared total length of the report.
#[derive(Copy, Clone, Debug, PartialEq, Eq, Structural)]
pub struct ValveInReportHeader {
    pub report_version: u16,
    pub report_type: u8,
    pub report_length: u8,
}

/// Telemetry payload of the wired controller-state report.
#[derive(Copy, Clone, Debug, PartialEq, Eq, Structural)]
pub struct ValveControllerStatePacket {
    pub packet_num: u32,
    pub button_trigger_data: u64,
    pub left_pad_x: i16,
    pub left_pad_y: i16,
    pub right_pad_x: i16,
    pub right_pad_y: i16,
    pub trigger_l: u16,
    pub trigger_r: u16,
    pub accel_x: i16,
    pub accel_y: i16,
    pub accel_z: i16,
    pub gyro_x: i16,
    pub gyro_y: i16,
    pub gyro_z: i16,
    pub gyro_quat_w: i16,
    pub gyro_quat_x: i16,
    pub gyro_quat_y: i16,
    pub gyro_quat_z: i16,
}

/// Telemetry payload of the wireless (BLE) controller-state report.
#[derive(Copy, Clone, Debug)]
pub struct ValveControllerBLEStatePacket {
    pub packet_num: u32,
    pub button_trigger_data: u64,
    pub left_pad_x: i16,
    pub left_pad_y: i16,
    pub right_pad_x: i16,
    pub right_pad_y: i16,
    pub gyro_data_type: u8,
    pub gyro: [i16; 4],
}

/// Payload of the touchpad diagnostics report.
#[derive(Copy, Clone, Debug)]
pub struct ValveControllerDebugPacket {
    pub left_pad_x: i16,
    pub left_pad_y: i16,
    pub right_pad_x: i16,
    pub right_pad_y: i16,
    pub left_pad_mouse_dx: i16,
    pub left_pad_mouse_dy: i16,
    pub right_pad_mouse_dx: i16,
    pub right_pad_mouse_dy: i16,
    pub left_pad_mouse_filtered_dx: i16,
    pub left_pad_mouse_filtered_dy: i16,
    pub right_pad_mouse_filtered_dx: i16,
    pub right_pad_mouse_filtered_dy: i16,
    pub left_z: u8,
    pub right_z: u8,
    pub left_finger_present: u8,
    pub right_finger_present: u8,
    pub left_timestamp: u8,
    pub right_timestamp: u8,
    pub left_tap_state: u8,
    pub right_tap_state: u8,
    pub digital_io_states0: u32,
    pub digital_io_states1: u32,
}

/// Payload of the filtered trackpad image report.
#[derive(Copy, Clone, Debug)]
pub struct ValveControllerTrackpadImage {
    pub pad_num: u8,
    pub pad: [u8; 3],
    pub data: [i16; 20],
    pub noise: u16,
}

/// Payload of the raw trackpad image report.
#[derive(Copy, Clone, Debug)]
pub struct ValveControllerRawTrackpadImage {
    pub pad_num: u8,
    pub offset: u8,
    pub pad: [u8; 2],
    pub data: [i16; 28],
}

/// Payload of the wireless connect/disconnect event report.
#[derive(Copy, Clone, Debug, PartialEq, Eq, Structural)]
pub struct SteamControllerWirelessEvent {
    pub event_type: u8,
}

/// Payload of the battery/status event report.
#[derive(Copy, Clone, Debug, PartialEq, Eq, Structural)]
pub struct SteamControllerStatusEvent {
    pub packet_num: u32,
    pub event_code: u16,
    pub state_flags: u16,
    pub battery_voltage: u16,
    pub battery_level: u8,
}

/// Telemetry payload of the deck-state report: the report variant this
/// crate decodes for consumers.  All multi-byte fields are little-endian
/// on the wire; the payload occupies the 56 bytes right after the header.
#[derive(Copy, Clone, Debug, PartialEq, Eq, Structural)]
pub struct SteamDeckStatePacket {
    pub packet_num: u32,
    pub buttons: u64,
    pub left_pad_x: i16,
    pub left_pad_y: i16,
    pub right_pad_x: i16,
    pub right_pad_y: i16,
    pub accel_x: i16,
    pub accel_y: i16,
    pub accel_z: i16,
    pub gyro_x: i16,
    pub gyro_y: i16,
    pub gyro_z: i16,
    pub gyro_quat_w: i16,
    pub gyro_quat_x: i16,
    pub gyro_quat_y: i16,
    pub gyro_quat_z: i16,
    pub trigger_raw_l: u16,
    pub trigger_raw_r: u16,
    pub left_stick_x: i16,
    pub left_stick_y: i16,
    pub right_stick_x: i16,
    pub right_stick_y: i16,
    pub pressure_pad_left: u16,
    pub pressure_pad_right: u16,
}

/// A complete inbound report: validated header plus the raw payload
/// bytes, which are only interpreted once the header says which packet
/// variant they hold.
#[derive(Copy, Clone, Debug)]
pub struct ValveInReport {
    pub header: ValveInReportHeader,
    pub payload: [u8; 60],
}

// ---------------------------------------------------------------------
// Little-endian field access at fixed offsets
// ---------------------------------------------------------------------

/// The u16 stored little-endian at offset `i` of `b`.
pub open spec fn spec_u16_at(b: Seq<u8>, i: int) -> u16 {
    spec_u16_from_le_bytes(b.subrange(i, i + 2))
}

/// The i16 stored little-endian (two's complement) at offset `i` of `b`.
pub open spec fn spec_i16_at(b: Seq<u8>, i: int) -> i16 {
    spec_u16_at(b, i) as i16
}

/// The u32 stored little-endian at offset `i` of `b`.
pub open spec fn spec_u32_at(b: Seq<u8>, i: int) -> u32 {
    spec_u32_from_le_bytes(b.subrange(i, i + 4))
}

/// The u64 stored little-endian at offset `i` of `b`.
pub open spec fn spec_u64_at(b: Seq<u8>, i: int) -> u64 {
    spec_u64_from_le_bytes(b.subrange(i, i + 8))
}

fn read_u16_at(b: &[u8], i: usize) -> (r: u16)
    requires
        i + 2 <= b@.len(),
    ensures
        r == spec_u16_at(b@, i as int),
{
    let n = b.len();
    u16_from_le_bytes(slice_subrange(b, i, i + 2))
}

fn read_i16_at(b: &[u8], i: usize) -> (r: i16)
    requires
        i + 2 <= b@.len(),
    ensures
        r == spec_i16_at(b@, i as int),
{
    read_u16_at(b, i) as i16
}

fn read_u32_at(b: &[u8], i: usize) -> (r: u32)
    requires
        i + 4 <= b@.len(),
    ensures
        r == spec_u32_at(b@, i as int),
{
    let n = b.len();
    u32_from_le_bytes(slice_subrange(b, i, i + 4))
}

fn read_u64_at(b: &[u8], i: usize) -> (r: u64)
    requires
        i + 8 <= b@.len(),
    ensures
        r == spec_u64_at(b@, i as int),
{
    let n = b.len();
    u64_from_le_bytes(slice_subrange(b, i, i + 8))
}

// ---------------------------------------------------------------------
// Decoding
// ---------------------------------------------------------------------

/// The header fields as laid out in the first four bytes of a report.
pub open spec fn spec_header_of(b: Seq<u8>) -> ValveInReportHeader {
    ValveInReportHeader {
        report_version: spec_u16_at(b, 0),
        report_type: b[2],
        report_length: b[3],
    }
}

/// A header announces a deck-state payload exactly when all three fields
/// match: supported version, deck-state report type, full 64-byte length.
pub open spec fn spec_valid_deck_state_header(h: ValveInReportHeader) -> bool {
    &&& h.report_version == VALVE_IN_REPORT_MSG_VERSION
    &&& h.report_type == VALVE_IN_REPORT_MESSAGE_ID_CONTROLLER_DECK_STATE
    &&& h.report_length == VALVE_IN_REPORT_BYTES
}

/// The deck-state packet stored in a 60-byte report payload (the 56 live
/// bytes followed by 4 bytes of padding).
pub open spec fn spec_deck_state_of(p: Seq<u8>) -> SteamDeckStatePacket {
    SteamDeckStatePacket {
        packet_num: spec_u32_at(p, 0),
        buttons: spec_u64_at(p, 4),
        left_pad_x: spec_i16_at(p, 12),
        left_pad_y: spec_i16_at(p, 14),
        right_pad_x: spec_i16_at(p, 16),
        right_pad_y: spec_i16_at(p, 18),
        accel_x: spec_i16_at(p, 20),
        accel_y: spec_i16_at(p, 22),
        accel_z: spec_i16_at(p, 24),
        gyro_x: spec_i16_at(p, 26),
        gyro_y: spec_i16_at(p, 28),
        gyro_z: spec_i16_at(p, 30),
        gyro_quat_w: spec_i16_at(p, 32),
        gyro_quat_x: spec_i16_at(p, 34),
        gyro_quat_y: spec_i16_at(p, 36),
        gyro_quat_z: spec_i16_at(p, 38),
        trigger_raw_l: spec_u16_at(p, 40),
        trigger_raw_r: spec_u16_at(p, 42),
        left_stick_x: spec_i16_at(p, 44),
        left_stick_y: spec_i16_at(p, 46),
        right_stick_x: spec_i16_at(p, 48),
        right_stick_y: spec_i16_at(p, 50),
        pressure_pad_left: spec_u16_at(p, 52),
        pressure_pad_right: spec_u16_at(p, 54),
    }
}

/// What decoding a whole 64-byte buffer down to a deck-state packet
/// yields: a size check, then the header check, then field extraction.
pub open spec fn spec_decode_deck_state(b: Seq<u8>) -> Result<SteamDeckStatePacket, ProtocolError> {
    if b.len() != VALVE_IN_REPORT_BYTES {
        Err(ProtocolError::WrongSize { read: b.len() as usize })
    } else if !spec_valid_deck_state_header(spec_header_of(b)) {
        Err(ProtocolError::UnknownMessage {
            version: spec_header_of(b).report_version,
            report_type: spec_header_of(b).report_type,
            report_length: spec_header_of(b).report_length,
        })
    } else {
        Ok(spec_deck_state_of(b.subrange(4, 64)))
    }
}

impl ValveInReport {
    /// Split a raw buffer into header and payload.  Succeeds exactly on
    /// buffers of the full fixed report size; a read of any other length
    /// (zero included) is a size-mismatch protocol error.
    pub fn decode(buf: &[u8]) -> (r: Result<ValveInReport, ProtocolError>)
        ensures
            r is Ok <==> buf@.len() == VALVE_IN_REPORT_BYTES,
            r is Ok ==> r->Ok_0.header == spec_header_of(buf@)
                && r->Ok_0.payload@ == buf@.subrange(4, 64),
            r is Err ==> r->Err_0 == (ProtocolError::WrongSize { read: buf@.len() as usize }),
    {
        if buf.len() != VALVE_IN_REPORT_BYTES {
            return Err(ProtocolError::WrongSize { read: buf.len() });
        }
        let header = ValveInReportHeader {
            report_version: read_u16_at(buf, 0),
            report_type: buf[2],
            report_length: buf[3],
        };
        let mut payload: [u8; 60] = [0u8; 60];
        let mut k: usize = 0;
        while k < 60
            invariant
                k <= 60,
                buf@.len() == 64,
                payload@.len() == 60,
                forall|j: int| 0 <= j < k ==> payload@[j] == buf@[4 + j],
            decreases 60 - k,
        {
            payload[k] = buf[4 + k];
            k = k + 1;
        }
        proof {
            assert(payload@ =~= buf@.subrange(4, 64));
        }
        Ok(ValveInReport { header, payload })
    }

    /// Interpret the payload as a deck-state packet, but only after the
    /// header has been validated; any off-spec header field is an
    /// `UnknownMessage` protocol error carrying the offending fields.
    pub fn to_deck_state(&self) -> (r: Result<SteamDeckStatePacket, ProtocolError>)
        ensures
            r is Ok <==> spec_valid_deck_state_header(self.header),
            r is Ok ==> r->Ok_0 == spec_deck_state_of(self.payload@),
            r is Err ==> r->Err_0 == (ProtocolError::UnknownMessage {
                version: self.header.report_version,
                report_type: self.header.report_type,
                report_length: self.header.report_length,
            }),
    {
        if self.header.report_version != VALVE_IN_REPORT_MSG_VERSION
            || self.header.report_type != VALVE_IN_REPORT_MESSAGE_ID_CONTROLLER_DECK_STATE
            || self.header.report_length as usize != VALVE_IN_REPORT_BYTES
        {
            return Err(ProtocolError::UnknownMessage {
                version: self.header.report_version,
                report_type: self.header.report_type,
                report_length: self.header.report_length,
            });
        }
        let p = self.payload.as_slice();
        Ok(SteamDeckStatePacket {
            packet_num: read_u32_at(p, 0),
            buttons: read_u64_at(p, 4),
            left_pad_x: read_i16_at(p, 12),
            left_pad_y: read_i16_at(p, 14),
            right_pad_x: read_i16_at(p, 16),
            right_pad_y: read_i16_at(p, 18),
            accel_x: read_i16_at(p, 20),
            accel_y: read_i16_at(p, 22),
            accel_z: read_i16_at(p, 24),
            gyro_x: read_i16_at(p, 26),
            gyro_y: read_i16_at(p, 28),
            gyro_z: read_i16_at(p, 30),
            gyro_quat_w: read_i16_at(p, 32),
            gyro_quat_x: read_i16_at(p, 34),
            gyro_quat_y: read_i16_at(p, 36),
            gyro_quat_z: read_i16_at(p, 38),
            trigger_raw_l: read_u16_at(p, 40),
            trigger_raw_r: read_u16_at(p, 42),
            left_stick_x: read_i16_at(p, 44),
            left_stick_y: read_i16_at(p, 46),
            right_stick_x: read_i16_at(p, 48),
            right_stick_y: read_i16_at(p, 50),
            pressure_pad_left: read_u16_at(p, 52),
            pressure_pad_right: read_u16_at(p, 54),
        })
    }
}

/// Decode a raw buffer straight to a deck-state packet.  This is the
/// narrow decode the aggregator consumes; it performs exactly the same
/// validation as [`ValveInReport::decode`] followed by
/// [`ValveInReport::to_deck_state`].
pub fn decode_deck_state(buf: &[u8]) -> (r: Result<SteamDeckStatePacket, ProtocolError>)
    ensures
        r == spec_decode_deck_state(buf@),
{
    let rep = match ValveInReport::decode(buf) {
        Ok(rep) => rep,
        Err(e) => {
            return Err(e);
        },
    };
    rep.to_deck_state()
}

// ---------------------------------------------------------------------
// Writing little-endian fields into a buffer
// ---------------------------------------------------------------------

fn write_u16_at(out: &mut Vec<u8>, i: usize, v: u16)
    requires
        i + 2 <= old(out)@.len(),
    ensures
        final(out)@.len() == old(out)@.len(),
        final(out)@.subrange(i as int, i as int + 2) == spec_u16_to_le_bytes(v),
        forall|k: int| 0 <= k < old(out)@.len() && !(i <= k < i + 2) ==> final(out)@[k]
            == old(out)@[k],
{
    let n = out.len();
    let b = u16_to_le_bytes(v);
    out[i] = b[0];
    out[i + 1] = b[1];
    proof {
        assert(out@.subrange(i as int, i as int + 2) =~= b@);
    }
}

fn write_i16_at(out: &mut Vec<u8>, i: usize, v: i16)
    requires
        i + 2 <= old(out)@.len(),
    ensures
        final(out)@.len() == old(out)@.len(),
        final(out)@.subrange(i as int, i as int + 2) == spec_u16_to_le_bytes(v as u16),
        forall|k: int| 0 <= k < old(out)@.len() && !(i <= k < i + 2) ==> final(out)@[k]
            == old(out)@[k],
{
    write_u16_at(out, i, v as u16)
}

fn write_u32_at(out: &mut Vec<u8>, i: usize, v: u32)
    requires
        i + 4 <= old(out)@.len(),
    ensures
        final(out)@.len() == old(out)@.len(),
        final(out)@.subrange(i as int, i as int + 4) == spec_u32_to_le_bytes(v),
        forall|k: int| 0 <= k < old(out)@.len() && !(i <= k < i + 4) ==> final(out)@[k]
            == old(out)@[k],
{
    let n = out.len();
    let b = u32_to_le_bytes(v);
    out[i] = b[0];
    out[i + 1] = b[1];
    out[i + 2] = b[2];
    out[i + 3] = b[3];
    proof {
        assert(out@.subrange(i as int, i as int + 4) =~= b@);
    }
}

fn write_u64_at(out: &mut Vec<u8>, i: usize, v: u64)
    requires
        i + 8 <= old(out)@.len(),
    ensures
        final(out)@.len() == old(out)@.len(),
        final(out)@.subrange(i as int, i as int + 8) == spec_u64_to_le_bytes(v),
        forall|k: int| 0 <= k < old(out)@.len() && !(i <= k < i + 8) ==> final(out)@[k]
            == old(out)@[k],
{
    let n = out.len();
    let b = u64_to_le_bytes(v);
    out[i] = b[0];
    out[i + 1] = b[1];
    out[i + 2] = b[2];
    out[i + 3] = b[3];
    out[i + 4] = b[4];
    out[i + 5] = b[5];
    out[i + 6] = b[6];
    out[i + 7] = b[7];
    proof {
        assert(out@.subrange(i as int, i as int + 8) =~= b@);
    }
}

/// A buffer of `n` zero bytes, the canvas every outbound frame starts from.
fn zeroed_buffer(n: usize) -> (r: Vec<u8>)
    ensures
        r@.len() == n,
        forall|i: int| 0 <= i < n ==> r@[i] == 0,
{
    let mut out: Vec<u8> = Vec::new();
    let mut k: usize = 0;
    while k < n
        invariant
            k <= n,
            out@.len() == k,
            forall|i: int| 0 <= i < k ==> out@[i] == 0,
        decreases n - k,
    {
        out.push(0);
        k = k + 1;
    }
    out
}

// ---------------------------------------------------------------------
// Encoding the deck-state report
// ---------------------------------------------------------------------

/// Serialize a deck-state packet into the 56 live bytes of a report
/// payload, padded with zeros to the full 60-byte payload size.
/// Decoding the payload yields the packet back.
#[verifier::rlimit(60)]
#[verifier::spinoff_prover]
pub fn encode_deck_state_payload(p: &SteamDeckStatePacket) -> (r: Vec<u8>)
    ensures
        r@.len() == VALVE_IN_REPORT_PAYLOAD_BYTES,
        spec_deck_state_of(r@) == *p,
        forall|i: int| 56 <= i < 60 ==> r@[i] == 0,
{
    let mut out = zeroed_buffer(VALVE_IN_REPORT_PAYLOAD_BYTES);
    write_u32_at(&mut out, 0, p.packet_num);
    write_u64_at(&mut out, 4, p.buttons);
    write_i16_at(&mut out, 12, p.left_pad_x);
    write_i16_at(&mut out, 14, p.left_pad_y);
    write_i16_at(&mut out, 16, p.right_pad_x);
    write_i16_at(&mut out, 18, p.right_pad_y);
    write_i16_at(&mut out, 20, p.accel_x);
    write_i16_at(&mut out, 22, p.accel_y);
    write_i16_at(&mut out, 24, p.accel_z);
    write_i16_at(&mut out, 26, p.gyro_x);
    write_i16_at(&mut out, 28, p.gyro_y);
    write_i16_at(&mut out, 30, p.gyro_z);
    write_i16_at(&mut out, 32, p.gyro_quat_w);
    write_i16_at(&mut out, 34, p.gyro_quat_x);
    write_i16_at(&mut out, 36, p.gyro_quat_y);
    write_i16_at(&mut out, 38, p.gyro_quat_z);
    write_u16_at(&mut out, 40, p.trigger_raw_l);
    write_u16_at(&mut out, 42, p.trigger_raw_r);
    write_i16_at(&mut out, 44, p.left_stick_x);
    write_i16_at(&mut out, 46, p.left_stick_y);
    write_i16_at(&mut out, 48, p.right_stick_x);
    write_i16_at(&mut out, 50, p.right_stick_y);
    write_u16_at(&mut out, 52, p.pressure_pad_left);
    write_u16_at(&mut out, 54, p.pressure_pad_right);
    proof {
        lemma_auto_spec_u16_to_from_le_bytes();
        lemma_auto_spec_u32_to_from_le_bytes();
        lemma_auto_spec_u64_to_from_le_bytes();
        assert(spec_u16_to_le_bytes(p.pressure_pad_right).len() == 2);
        assert(out@.subrange(0, 4) =~= spec_u32_to_le_bytes(p.packet_num));
        assert(out@.subrange(4, 12) =~= spec_u64_to_le_bytes(p.buttons));
        assert(out@.subrange(12, 14) =~= spec_u16_to_le_bytes(p.left_pad_x as u16));
        assert(out@.subrange(14, 16) =~= spec_u16_to_le_bytes(p.left_pad_y as u16));
        assert(out@.subrange(16, 18) =~= spec_u16_to_le_bytes(p.right_pad_x as u16));
        assert(out@.subrange(18, 20) =~= spec_u16_to_le_bytes(p.right_pad_y as u16));
        assert(out@.subrange(20, 22) =~= spec_u16_to_le_bytes(p.accel_x as u16));
        assert(out@.subrange(22, 24) =~= spec_u16_to_le_bytes(p.accel_y as u16));
        assert(out@.subrange(24, 26) =~= spec_u16_to_le_bytes(p.accel_z as u16));
        assert(out@.subrange(26, 28) =~= spec_u16_to_le_bytes(p.gyro_x as u16));
        assert(out@.subrange(28, 30) =~= spec_u16_to_le_bytes(p.gyro_y as u16));
        assert(out@.subrange(30, 32) =~= spec_u16_to_le_bytes(p.gyro_z as u16));
        assert(out@.subrange(32, 34) =~= spec_u16_to_le_bytes(p.gyro_quat_w as u16));
        assert(out@.subrange(34, 36) =~= spec_u16_to_le_bytes(p.gyro_quat_x as u16));
        assert(out@.subrange(36, 38) =~= spec_u16_to_le_bytes(p.gyro_quat_y as u16));
        assert(out@.subrange(38, 40) =~= spec_u16_to_le_bytes(p.gyro_quat_z as u16));
        assert(out@.subrange(40, 42) =~= spec_u16_to_le_bytes(p.trigger_raw_l));
        assert(out@.subrange(42, 44) =~= spec_u16_to_le_bytes(p.trigger_raw_r));
        assert(out@.subrange(44, 46) =~= spec_u16_to_le_bytes(p.left_stick_x as u16));
        assert(out@.subrange(46, 48) =~= spec_u16_to_le_bytes(p.left_stick_y as u16));
        assert(out@.subrange(48, 50) =~= spec_u16_to_le_bytes(p.right_stick_x as u16));
        assert(out@.subrange(50, 52) =~= spec_u16_to_le_bytes(p.right_stick_y as u16));
        assert(out@.subrange(52, 54) =~= spec_u16_to_le_bytes(p.pressure_pad_left));
        assert(out@.subrange(54, 56) =~= spec_u16_to_le_bytes(p.pressure_pad_right));
        lemma_i16_cast_roundtrip(p.left_pad_x);
        lemma_i16_cast_roundtrip(p.left_pad_y);
        lemma_i16_cast_roundtrip(p.right_pad_x);
        lemma_i16_cast_roundtrip(p.right_pad_y);
        lemma_i16_cast_roundtrip(p.accel_x);
        lemma_i16_cast_roundtrip(p.accel_y);
        lemma_i16_cast_roundtrip(p.accel_z);
        lemma_i16_cast_roundtrip(p.gyro_x);
        lemma_i16_cast_roundtrip(p.gyro_y);
        lemma_i16_cast_roundtrip(p.gyro_z);
        lemma_i16_cast_roundtrip(p.gyro_quat_w);
        lemma_i16_cast_roundtrip(p.gyro_quat_x);
        lemma_i16_cast_roundtrip(p.gyro_quat_y);
        lemma_i16_cast_roundtrip(p.gyro_quat_z);
        lemma_i16_cast_roundtrip(p.left_stick_x);
        lemma_i16_cast_roundtrip(p.left_stick_y);
        lemma_i16_cast_roundtrip(p.right_stick_x);
        lemma_i16_cast_roundtrip(p.right_stick_y);
        assert(spec_u32_at(out@, 0) == p.packet_num);
        assert(spec_u64_at(out@, 4) == p.buttons);
        assert(spec_i16_at(out@, 12) == p.left_pad_x);
        assert(spec_i16_at(out@, 14) == p.left_pad_y);
        assert(spec_i16_at(out@, 16) == p.right_pad_x);
        assert(spec_i16_at(out@, 18) == p.right_pad_y);
        assert(spec_i16_at(out@, 20) == p.accel_x);
        assert(spec_i16_at(out@, 22) == p.accel_y);
        assert(spec_i16_at(out@, 24) == p.accel_z);
        assert(spec_i16_at(out@, 26) == p.gyro_x);
        assert(spec_i16_at(out@, 28) == p.gyro_y);
        assert(spec_i16_at(out@, 30) == p.gyro_z);
        assert(spec_i16_at(out@, 32) == p.gyro_quat_w);
        assert(spec_i16_at(out@, 34) == p.gyro_quat_x);
        assert(spec_i16_at(out@, 36) == p.gyro_quat_y);
        assert(spec_i16_at(out@, 38) == p.gyro_quat_z);
        assert(spec_u16_at(out@, 40) == p.trigger_raw_l);
        assert(spec_u16_at(out@, 42) == p.trigger_raw_r);
        assert(spec_i16_at(out@, 44) == p.left_stick_x);
        assert(spec_i16_at(out@, 46) == p.left_stick_y);
        assert(spec_i16_at(out@, 48) == p.right_stick_x);
        assert(spec_i16_at(out@, 50) == p.right_stick_y);
        assert(spec_u16_at(out@, 52) == p.pressure_pad_left);
        assert(spec_u16_at(out@, 54) == p.pressure_pad_right);
    }
    out
}

/// Storing an i16 as its two's-complement u16 and reading it back is the
/// identity; this is what makes the signed wire fields round-trip.
proof fn lemma_i16_cast_roundtrip(v: i16)
    ensures
        (v as u16) as i16 == v,
{
    assert((v as u16) as i16 == v) by (bit_vector);
}

/// Serialize a deck-state packet into a complete 64-byte input report
/// with a valid deck-state header.  Decoding the report yields the
/// packet back: encode followed by decode is the identity.
pub fn encode_deck_state_report(p: &SteamDeckStatePacket) -> (r: Vec<u8>)
    ensures
        r@.len() == VALVE_IN_REPORT_BYTES,
        spec_valid_deck_state_header(spec_header_of(r@)),
        spec_decode_deck_state(r@) == Ok::<SteamDeckStatePacket, ProtocolError>(*p),
        forall|i: int| 60 <= i < 64 ==> r@[i] == 0,
{
    let mut out = zeroed_buffer(4);
    write_u16_at(&mut out, 0, VALVE_IN_REPORT_MSG_VERSION);
    let ghost ver_bytes = out@.subrange(0, 2);
    out[2] = VALVE_IN_REPORT_MESSAGE_ID_CONTROLLER_DECK_STATE;
    out[3] = 64;
    let ghost header_bytes = out@;
    let mut payload = encode_deck_state_payload(p);
    let ghost payload_bytes = payload@;
    out.append(&mut payload);
    proof {
        lemma_auto_spec_u16_to_from_le_bytes();
        assert(spec_u16_to_le_bytes(VALVE_IN_REPORT_MSG_VERSION).len() == 2);
        assert(header_bytes.subrange(0, 2) =~= ver_bytes);
        assert(out@.subrange(0, 2) =~= header_bytes.subrange(0, 2));
        assert(out@.subrange(4, 64) =~= payload_bytes);
        assert(spec_header_of(out@).report_version == VALVE_IN_REPORT_MSG_VERSION);
        assert(spec_header_of(out@).report_type == VALVE_IN_REPORT_MESSAGE_ID_CONTROLLER_DECK_STATE);
        assert(spec_header_of(out@).report_length == 64);
        assert(spec_deck_state_of(out@.subrange(4, 64)) == *p);
    }
    out
}

// ---------------------------------------------------------------------
// Outbound feature reports
// ---------------------------------------------------------------------

/// Wire size of the feature-report command frame; the buffer handed to
/// the transport carries one extra leading report-number byte.
pub const HID_FEATURE_REPORT_BYTES: usize = 64;

/// Wire size of one digital-mapping entry in a set-mappings command.
pub const DIGITAL_MAPPING_BYTES: usize = 10;

pub const FEATURE_REPORT_MESSAGE_ID_SET_DIGITAL_MAPPINGS: u8 = 0x80;
pub const FEATURE_REPORT_MESSAGE_ID_CLEAR_DIGITAL_MAPPINGS: u8 = 0x81;
pub const FEATURE_REPORT_MESSAGE_ID_GET_DIGITAL_MAPPINGS: u8 = 0x82;
pub const FEATURE_REPORT_MESSAGE_ID_GET_ATTRIBUTES_VALUES: u8 = 0x83;
pub const FEATURE_REPORT_MESSAGE_ID_GET_ATTRIBUTE_LABEL: u8 = 0x84;
pub const FEATURE_REPORT_MESSAGE_ID_SET_DEFAULT_DIGITAL_MAPPINGS: u8 = 0x85;
pub const FEATURE_REPORT_MESSAGE_ID_FACTORY_RESET: u8 = 0x86;
pub const FEATURE_REPORT_MESSAGE_ID_SET_SETTINGS_VALUES: u8 = 0x87;
pub const FEATURE_REPORT_MESSAGE_ID_CLEAR_SETTINGS_VALUES: u8 = 0x88;
pub const FEATURE_REPORT_MESSAGE_ID_GET_SETTINGS_VALUES: u8 = 0x89;
pub const FEATURE_REPORT_MESSAGE_ID_GET_SETTING_LABEL: u8 = 0x8A;
pub const FEATURE_REPORT_MESSAGE_ID_GET_SETTINGS_MAXS: u8 = 0x8B;
pub const FEATURE_REPORT_MESSAGE_ID_GET_SETTINGS_DEFAULTS: u8 = 0x8C;
pub const FEATURE_REPORT_MESSAGE_ID_SET_CONTROLLER_MODE: u8 = 0x8D;
pub const FEATURE_REPORT_MESSAGE_ID_LOAD_DEFAULT_SETTINGS: u8 = 0x8E;
pub const FEATURE_REPORT_MESSAGE_ID_TRIGGER_HAPTIC_PULSE: u8 = 0x8F;
pub const FEATURE_REPORT_MESSAGE_ID_TURN_OFF_CONTROLLER: u8 = 0x9F;
pub const FEATURE_REPORT_MESSAGE_ID_GET_DEVICE_INFO: u8 = 0xA1;
pub const FEATURE_REPORT_MESSAGE_ID_CALIBRATE_TRACKPADS: u8 = 0xA7;
pub const FEATURE_REPORT_MESSAGE_ID_RESERVED_0: u8 = 0xA8;
pub const FEATURE_REPORT_MESSAGE_ID_SET_SERIAL_NUMBER: u8 = 0xA9;
pub const FEATURE_REPORT_MESSAGE_ID_GET_TRACKPAD_CALIBRATION: u8 = 0xAA;
pub const FEATURE_REPORT_MESSAGE_ID_GET_TRACKPAD_FACTORY_CALIBRATION: u8 = 0xAB;
pub const FEATURE_REPORT_MESSAGE_ID_GET_TRACKPAD_RAW_DATA: u8 = 0xAC;
pub const FEATURE_REPORT_MESSAGE_ID_ENABLE_PAIRING: u8 = 0xAD;
pub const FEATURE_REPORT_MESSAGE_ID_GET_STRING_ATTRIBUTE: u8 = 0xAE;
pub const FEATURE_REPORT_MESSAGE_ID_RADIO_ERASE_RECORDS: u8 = 0xAF;
pub const FEATURE_REPORT_MESSAGE_ID_RADIO_WRITE_RECORD: u8 = 0xB0;
pub const FEATURE_REPORT_MESSAGE_ID_SET_DONGLE_SETTING: u8 = 0xB1;
pub const FEATURE_REPORT_MESSAGE_ID_DONGLE_DISCONNECT_DEVICE: u8 = 0xB2;
pub const FEATURE_REPORT_MESSAGE_ID_DONGLE_COMMIT_DEVICE: u8 = 0xB3;
pub const FEATURE_REPORT_MESSAGE_ID_DONGLE_GET_WIRELESS_STATE: u8 = 0xB4;
pub const FEATURE_REPORT_MESSAGE_ID_CALIBRATE_GYRO: u8 = 0xB5;
pub const FEATURE_REPORT_MESSAGE_ID_PLAY_AUDIO: u8 = 0xB6;
pub const FEATURE_REPORT_MESSAGE_ID_AUDIO_UPDATE_START: u8 = 0xB7;
pub const FEATURE_REPORT_MESSAGE_ID_AUDIO_UPDATE_DATA: u8 = 0xB8;
pub const FEATURE_REPORT_MESSAGE_ID_AUDIO_UPDATE_COMPLETE: u8 = 0xB9;
pub const FEATURE_REPORT_MESSAGE_ID_GET_CHIPID: u8 = 0xBA;
pub const FEATURE_REPORT_MESSAGE_ID_CALIBRATE_JOYSTICK: u8 = 0xBF;
pub const FEATURE_REPORT_MESSAGE_ID_CALIBRATE_ANALOG_TRIGGERS: u8 = 0xC0;
pub const FEATURE_REPORT_MESSAGE_ID_SET_AUDIO_MAPPING: u8 = 0xC1;
pub const FEATURE_REPORT_MESSAGE_ID_CHECK_GYRO_FW_LOAD: u8 = 0xC2;
pub const FEATURE_REPORT_MESSAGE_ID_CALIBRATE_ANALOG: u8 = 0xC3;
pub const FEATURE_REPORT_MESSAGE_ID_DONGLE_GET_CONNECTED_SLOTS: u8 = 0xC4;
pub const FEATURE_REPORT_MESSAGE_ID_RESET_IMU: u8 = 0xCE;
pub const FEATURE_REPORT_MESSAGE_ID_TRIGGER_HAPTIC_CMD: u8 = 0xEA;
pub const FEATURE_REPORT_MESSAGE_ID_TRIGGER_RUMBLE_CMD: u8 = 0xEB;

pub const HAPTIC_TYPE_OFF: u8 = 0;
pub const HAPTIC_TYPE_TICK: u8 = 1;
pub const HAPTIC_TYPE_CLICK: u8 = 2;
pub const HAPTIC_TYPE_TONE: u8 = 3;
pub const HAPTIC_TYPE_RUMBLE: u8 = 4;
pub const HAPTIC_TYPE_NOISE: u8 = 5;
pub const HAPTIC_TYPE_SCRIPT: u8 = 6;
pub const HAPTIC_TYPE_LOG_SWEEP: u8 = 7;

pub const HAPTIC_INTENSITY_SYSTEM: u8 = 0;
pub const HAPTIC_INTENSITY_SHORT: u8 = 1;
pub const HAPTIC_INTENSITY_MEDIUM: u8 = 2;
pub const HAPTIC_INTENSITY_LONG: u8 = 3;
pub const HAPTIC_INTENSITY_INSANE: u8 = 4;

/// Common prefix of every outbound feature-report command frame.
#[derive(Copy, Clone, Debug, PartialEq, Eq, Structural)]
pub struct FeatureReportHeader {
    pub report_type: u8,
    pub report_length: u8,
}

/// One numbered setting and its value, as carried by settings commands.
#[derive(Copy, Clone, Debug, PartialEq, Eq, Structural)]
pub struct ControllerSetting {
    pub setting_num: u8,
    pub setting_value: u16,
}

/// One tagged attribute and its value, as carried by attribute queries.
#[derive(Copy, Clone, Debug, PartialEq, Eq, Structural)]
pub struct ControllerAttribute {
    pub attribute_tag: u8,
    pub attribute_value: u32,
}

/// Payload of the settings get/set commands.
#[derive(Copy, Clone, Debug)]
pub struct MsgSettings {
    pub settings: [ControllerSetting; 20],
}

/// Payload of the attribute-values query.
#[derive(Copy, Clone, Debug)]
pub struct MsgGetAttributes {
    pub attributes: [ControllerAttribute; 12],
}

/// Payload of the string-attribute query.
#[derive(Copy, Clone, Debug)]
pub struct MsgGetStringAttribute {
    pub attribute_tag: u8,
    pub attribute_value: [u8; 20],
}

/// Payload of the controller-mode command.
#[derive(Copy, Clone, Debug, PartialEq, Eq, Structural)]
pub struct MsgSetControllerMode {
    pub mode: u8,
}

/// Payload of the fire-haptic-pulse command.
#[derive(Copy, Clone, Debug, PartialEq, Eq, Structural)]
pub struct MsgFireHapticPulse {
    pub which_pad: u8,
    pub pulse_duration: u16,
    pub pulse_interval: u16,
    pub pulse_count: u16,
    pub db_gain: i16,
    pub priority: u8,
}

/// Payload of the haptic-mode command.
#[derive(Copy, Clone, Debug, PartialEq, Eq, Structural)]
pub struct MsgHapticSetMode {
    pub mode: u8,
}

/// Payload of the trigger-haptic command.
#[derive(Copy, Clone, Debug, PartialEq, Eq, Structural)]
pub struct MsgTriggerHaptic {
    pub side: u8,
    pub cmd: u8,
    pub ui_intensity: u8,
    pub db_gain: i8,
    pub freq: u16,
    pub dur_ms: i16,
    pub noise_intensity: u16,
    pub lfo_freq: u16,
    pub lfo_depth: u8,
    pub rand_tone_gain: u8,
    pub script_id: u8,
    pub lss_start_freq: u16,
    pub lss_end_freq: u16,
}

/// Payload of the simple-rumble command.
#[derive(Copy, Clone, Debug, PartialEq, Eq, Structural)]
pub struct MsgSimpleRumbleCmd {
    pub rumble_type: u8,
    pub intensity: u16,
    pub left_motor_speed: u16,
    pub right_motor_speed: u16,
    pub left_gain: i8,
    pub right_gain: i8,
}

/// One digital-mapping entry: a button bitmask bound to an emulated
/// device kind and button index.
#[derive(Copy, Clone, Debug, PartialEq, Eq, Structural)]
pub struct DigitalMapping {
    pub buttons: u64,
    pub emulated_device_type: u8,
    pub emulated_button: u8,
}

/// A complete outbound command frame: header plus raw payload bytes.
#[derive(Copy, Clone, Debug)]
pub struct FeatureReportMsg {
    pub header: FeatureReportHeader,
    pub payload: [u8; 60],
}

/// A digital-mapping entry `m` is stored at offset `i` of `b`: the
/// bitmask little-endian, then the device kind and the button index.
pub open spec fn spec_mapping_at(b: Seq<u8>, i: int, m: DigitalMapping) -> bool {
    &&& spec_u64_at(b, i) == m.buttons
    &&& b[i + 8] == m.emulated_device_type
    &&& b[i + 9] == m.emulated_button
}

/// The mapping that binds the right pad's click bit to emulated button 1.
pub open spec fn spec_right_pad_mapping() -> DigitalMapping {
    DigitalMapping { buttons: BUTTON_RIGHT_PAD, emulated_device_type: 1, emulated_button: 1 }
}

/// The mapping that binds the left pad's click bit to emulated button 2.
pub open spec fn spec_left_pad_mapping() -> DigitalMapping {
    DigitalMapping { buttons: BUTTON_LEFT_PAD, emulated_device_type: 1, emulated_button: 2 }
}

impl FeatureReportMsg {
    /// Serialize the command for the transport: one zero report-number
    /// byte, the two header bytes, the payload, and zero padding up to
    /// the fixed buffer size.
    pub fn encode(&self) -> (r: Vec<u8>)
        ensures
            r@.len() == HID_FEATURE_REPORT_BYTES + 1,
            r@[0] == 0,
            r@[1] == self.header.report_type,
            r@[2] == self.header.report_length,
            r@.subrange(3, 63) == self.payload@,
            r@[63] == 0,
            r@[64] == 0,
    {
        let mut out = zeroed_buffer(HID_FEATURE_REPORT_BYTES + 1);
        out[1] = self.header.report_type;
        out[2] = self.header.report_length;
        let mut k: usize = 0;
        while k < 60
            invariant
                k <= 60,
                out@.len() == 65,
                out@[0] == 0,
                out@[1] == self.header.report_type,
                out@[2] == self.header.report_length,
                out@[63] == 0,
                out@[64] == 0,
                forall|j: int| 3 <= j < 3 + k ==> out@[j] == self.payload@[j - 3],
            decreases 60 - k,
        {
            out[3 + k] = self.payload[k];
            k = k + 1;
        }
        proof {
            assert(out@.subrange(3, 63) =~= self.payload@);
        }
        out
    }
}

/// The command that clears all digital mappings, releasing the device
/// from its default mouse/keyboard emulation: no payload fields.
pub fn clear_digital_mappings_msg() -> (m: FeatureReportMsg)
    ensures
        m.header.report_type == FEATURE_REPORT_MESSAGE_ID_CLEAR_DIGITAL_MAPPINGS,
        m.header.report_length == 0,
        forall|i: int| 0 <= i < 60 ==> m.payload@[i] == 0,
{
    FeatureReportMsg {
        header: FeatureReportHeader {
            report_type: FEATURE_REPORT_MESSAGE_ID_CLEAR_DIGITAL_MAPPINGS,
            report_length: 0,
        },
        payload: [0u8; 60],
    }
}

/// The command that remaps the two pad-click bits to emulated buttons 1
/// and 2: two mapping entries, nothing else.
pub fn set_digital_mappings_msg() -> (m: FeatureReportMsg)
    ensures
        m.header.report_type == FEATURE_REPORT_MESSAGE_ID_SET_DIGITAL_MAPPINGS,
        m.header.report_length == 2 * DIGITAL_MAPPING_BYTES,
        spec_mapping_at(m.payload@, 0, spec_right_pad_mapping()),
        spec_mapping_at(m.payload@, 10, spec_left_pad_mapping()),
        forall|i: int| 20 <= i < 60 ==> m.payload@[i] == 0,
{
    let mut payload: [u8; 60] = [0u8; 60];
    let b = u64_to_le_bytes(BUTTON_RIGHT_PAD);
    payload[0] = b[0];
    payload[1] = b[1];
    payload[2] = b[2];
    payload[3] = b[3];
    payload[4] = b[4];
    payload[5] = b[5];
    payload[6] = b[6];
    payload[7] = b[7];
    payload[8] = 1;
    payload[9] = 1;
    let b2 = u64_to_le_bytes(BUTTON_LEFT_PAD);
    payload[10] = b2[0];
    payload[11] = b2[1];
    payload[12] = b2[2];
    payload[13] = b2[3];
    payload[14] = b2[4];
    payload[15] = b2[5];
    payload[16] = b2[6];
    payload[17] = b2[7];
    payload[18] = 1;
    payload[19] = 2;
    proof {
        lemma_auto_spec_u64_to_from_le_bytes();
        assert(payload@.subrange(0, 8) =~= spec_u64_to_le_bytes(BUTTON_RIGHT_PAD));
        assert(payload@.subrange(10, 18) =~= spec_u64_to_le_bytes(BUTTON_LEFT_PAD));
    }
    FeatureReportMsg {
        header: FeatureReportHeader {
            report_type: FEATURE_REPORT_MESSAGE_ID_SET_DIGITAL_MAPPINGS,
            report_length: (2 * DIGITAL_MAPPING_BYTES) as u8,
        },
        payload,
    }
}

/// Serialize the clear-mappings command ready to send: every byte zero
/// but the command type.
pub fn encode_clear_digital_mappings() -> (r: Vec<u8>)
    ensures
        r@.len() == HID_FEATURE_REPORT_BYTES + 1,
        r@[1] == FEATURE_REPORT_MESSAGE_ID_CLEAR_DIGITAL_MAPPINGS,
        forall|i: int| 0 <= i < 65 && i != 1 ==> r@[i] == 0,
{
    let m = clear_digital_mappings_msg();
    let r = m.encode();
    proof {
        assert forall|i: int| 0 <= i < 65 && i != 1 implies r@[i] == 0 by {
            if 3 <= i < 63 {
                assert(r@[i] == r@.subrange(3, 63)[i - 3]);
            }
        }
    }
    r
}

/// Serialize the set-mappings command ready to send: type, length, and
/// the two pad mapping entries, every other byte zero.
pub fn encode_set_digital_mappings() -> (r: Vec<u8>)
    ensures
        r@.len() == HID_FEATURE_REPORT_BYTES + 1,
        r@[0] == 0,
        r@[1] == FEATURE_REPORT_MESSAGE_ID_SET_DIGITAL_MAPPINGS,
        r@[2] == 2 * DIGITAL_MAPPING_BYTES,
        spec_mapping_at(r@, 3, spec_right_pad_mapping()),
        spec_mapping_at(r@, 13, spec_left_pad_mapping()),
        forall|i: int| 23 <= i < 65 ==> r@[i] == 0,
{
    let m = set_digital_mappings_msg();
    let r = m.encode();
    proof {
        assert forall|i: int| 3 <= i < 63 implies r@[i] == m.payload@[i - 3] by {
            assert(r@[i] == r@.subrange(3, 63)[i - 3]);
        }
        assert(r@.subrange(3, 11) =~= m.payload@.subrange(0, 8));
        assert(r@.subrange(13, 21) =~= m.payload@.subrange(10, 18));
        assert(spec_u64_at(r@, 3) == spec_u64_at(m.payload@, 0));
        assert(spec_u64_at(r@, 13) == spec_u64_at(m.payload@, 10));
    }
    r
}

// ---------------------------------------------------------------------
// Button bits
// ---------------------------------------------------------------------

pub const BUTTON_RIGHT_TRIGGER: u64 = 0x1;
pub const BUTTON_LEFT_TRIGGER: u64 = 0x2;
pub const BUTTON_RIGHT_BUMPER: u64 = 0x4;
pub const BUTTON_LEFT_BUMPER: u64 = 0x8;
pub const BUTTON_Y: u64 = 0x10;
pub const BUTTON_B: u64 = 0x20;
pub const BUTTON_X: u64 = 0x40;
pub const BUTTON_A: u64 = 0x80;
pub const BUTTON_DPAD_UP: u64 = 0x100;
pub const BUTTON_DPAD_RIGHT: u64 = 0x200;
pub const BUTTON_DPAD_LEFT: u64 = 0x400;
pub const BUTTON_DPAD_DOWN: u64 = 0x800;
pub const BUTTON_VIEW: u64 = 0x1000;
pub const BUTTON_STEAM: u64 = 0x2000;
pub const BUTTON_MENU: u64 = 0x4000;
pub const BUTTON_L5: u64 = 0x8000;
pub const BUTTON_R5: u64 = 0x10000;
pub const BUTTON_LEFT_PAD: u64 = 0x20000;
pub const BUTTON_RIGHT_PAD: u64 = 0x40000;
pub const BUTTON_LEFT_STICK: u64 = 0x400000;
pub const BUTTON_RIGHT_STICK: u64 = 0x4000000;
pub const BUTTON_L4: u64 = 0x20000000000;
pub const BUTTON_R4: u64 = 0x40000000000;
pub const BUTTON_QUICK_ACCESS: u64 = 0x4000000000000;
pub const LEFT_STICK_USED: u64 = 0x400000000000;
pub const RIGHT_STICK_USED: u64 = 0x800000000000;

} // verus!
