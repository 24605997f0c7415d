//! VISCA command encoding for Sony and compatible PTZ cameras.
//! VISCA-over-IP carries these payloads over UDP behind an 8-byte
//! framing header.

use crate::norm::{clamp_pan_tilt, clamp_spec, clamp_zoom, round_div, round_div_i64};
use crate::norm::lemma_round_div_close;
use vstd::prelude::*;
use vstd::slice::slice_to_vec;

verus! {

// ---------------------------------------------------------------------
// Nibble packing: a 16-bit value is carried as four bytes, each holding
// one 4-bit nibble in its low bits, most significant nibble first.
// ---------------------------------------------------------------------

pub open spec fn nib3(v: u16) -> u8 {
    ((v >> 12) & 0x0F) as u8
}

pub open spec fn nib2(v: u16) -> u8 {
    ((v >> 8) & 0x0F) as u8
}

pub open spec fn nib1(v: u16) -> u8 {
    ((v >> 4) & 0x0F) as u8
}

pub open spec fn nib0(v: u16) -> u8 {
    (v & 0x0F) as u8
}

/// The 16-bit value carried by four nibble bytes, high nibble first.
pub open spec fn nibbles_value(b3: u8, b2: u8, b1: u8, b0: u8) -> u16 {
    (((b3 & 0x0F) as u16) << 12) | (((b2 & 0x0F) as u16) << 8) | (((b1 & 0x0F) as u16) << 4) | ((
    b0 & 0x0F) as u16)
}

/// Law: unpacking the four nibble bytes of a value gives the value back.
pub proof fn lemma_nibble_pack_unpack(v: u16)
    ensures
        nibbles_value(nib3(v), nib2(v), nib1(v), nib0(v)) == v,
{
    assert(((((((v >> 12) & 0x0F) as u8) & 0x0F) as u16) << 12) | (((((v >> 8) & 0x0F) as u8)
        & 0x0F) as u16) << 8 | (((((v >> 4) & 0x0F) as u8) & 0x0F) as u16) << 4 | ((((v
        & 0x0F) as u8) & 0x0F) as u16) == v) by (bit_vector);
}

// ---------------------------------------------------------------------
// VISCA-over-IP framing header
// ---------------------------------------------------------------------

/// The 8 big-endian header bytes: payload type, payload length, sequence.
pub open spec fn header_bytes(payload_type: u16, payload_length: u16, sequence: u32) -> Seq<u8> {
    seq![
        (payload_type >> 8) as u8,
        (payload_type & 0xFF) as u8,
        (payload_length >> 8) as u8,
        (payload_length & 0xFF) as u8,
        (sequence >> 24) as u8,
        ((sequence >> 16) & 0xFF) as u8,
        ((sequence >> 8) & 0xFF) as u8,
        (sequence & 0xFF) as u8,
    ]
}

/// VISCA-over-IP framing header (8 bytes on the wire).
pub struct ViscaIpHeader {
    pub payload_type: u16,
    pub payload_length: u16,
    pub sequence_number: u32,
}

impl ViscaIpHeader {
    pub const COMMAND: u16 = 0x0100;

    pub const INQUIRY: u16 = 0x0110;

    pub fn new_command(payload_length: u16, seq: u32) -> (h: Self)
        ensures
            h.payload_type == 0x0100,
            h.payload_length == payload_length,
            h.sequence_number == seq,
    {
        Self { payload_type: Self::COMMAND, payload_length, sequence_number: seq }
    }

    pub fn to_bytes(&self) -> (b: Vec<u8>)
        ensures
            b@ == header_bytes(self.payload_type, self.payload_length, self.sequence_number),
    {
        let b: Vec<u8> = vec![
            (self.payload_type >> 8) as u8,
            (self.payload_type & 0xFF) as u8,
            (self.payload_length >> 8) as u8,
            (self.payload_length & 0xFF) as u8,
            (self.sequence_number >> 24) as u8,
            ((self.sequence_number >> 16) & 0xFF) as u8,
            ((self.sequence_number >> 8) & 0xFF) as u8,
            (self.sequence_number & 0xFF) as u8,
        ];
        proof {
            assert(b@ =~= header_bytes(
                self.payload_type,
                self.payload_length,
                self.sequence_number,
            ));
        }
        b
    }
}

/// A full VISCA-over-IP command packet: header then payload.
pub open spec fn packet_bytes(payload: Seq<u8>, sequence: u32) -> Seq<u8> {
    header_bytes(0x0100, payload.len() as u16, sequence) + payload
}

/// Build a full VISCA-over-IP packet (header + payload).
pub fn build_visca_packet(payload: &[u8], seq: u32) -> (r: Vec<u8>)
    requires
        payload@.len() <= 0xFFFF,
    ensures
        r@ == packet_bytes(payload@, seq),
{
    let header = ViscaIpHeader::new_command(payload.len() as u16, seq);
    let mut packet = header.to_bytes();
    let mut rest = slice_to_vec(payload);
    packet.append(&mut rest);
    proof {
        assert(packet@ =~= packet_bytes(payload@, seq));
    }
    packet
}

// ---------------------------------------------------------------------
// Command payloads
// ---------------------------------------------------------------------

/// Bytes of the absolute pan/tilt position command: opcode, one speed
/// byte per axis, then each 16-bit position nibble-packed into 4 bytes.
pub open spec fn pan_tilt_absolute_bytes(pan_speed: u8, tilt_speed: u8, pan: i16, tilt: i16) -> Seq<
    u8,
> {
    seq![
        0x81u8,
        0x01,
        0x06,
        0x02,
        pan_speed,
        tilt_speed,
        nib3(pan as u16),
        nib2(pan as u16),
        nib1(pan as u16),
        nib0(pan as u16),
        nib3(tilt as u16),
        nib2(tilt as u16),
        nib1(tilt as u16),
        nib0(tilt as u16),
        0xFF,
    ]
}

/// VISCA absolute pan/tilt position command.
/// pan: 16-bit signed, native range -880 to 880
/// tilt: 16-bit signed, native range -400 to 288
/// speed: 1-24 for pan, 1-23 for tilt
pub fn pan_tilt_absolute(pan_speed: u8, tilt_speed: u8, pan: i16, tilt: i16) -> (r: Vec<u8>)
    ensures
        r@ == pan_tilt_absolute_bytes(pan_speed, tilt_speed, pan, tilt),
{
    let pu = pan as u16;
    let tu = tilt as u16;
    let r: Vec<u8> = vec![
        0x81,
        0x01,
        0x06,
        0x02,
        pan_speed,
        tilt_speed,
        ((pu >> 12) & 0x0F) as u8,
        ((pu >> 8) & 0x0F) as u8,
        ((pu >> 4) & 0x0F) as u8,
        (pu & 0x0F) as u8,
        ((tu >> 12) & 0x0F) as u8,
        ((tu >> 8) & 0x0F) as u8,
        ((tu >> 4) & 0x0F) as u8,
        (tu & 0x0F) as u8,
        0xFF,
    ];
    proof {
        assert(r@ =~= pan_tilt_absolute_bytes(pan_speed, tilt_speed, pan, tilt));
    }
    r
}

/// Bytes of the relative (velocity) pan/tilt command.
pub open spec fn pan_tilt_relative_bytes(
    pan_speed: u8,
    tilt_speed: u8,
    pan_dir: u8,
    tilt_dir: u8,
) -> Seq<u8> {
    seq![0x81u8, 0x01, 0x06, 0x01, pan_speed, tilt_speed, pan_dir, tilt_dir, 0xFF]
}

/// VISCA relative pan/tilt movement.
/// pan_speed: 01-18h, tilt_speed: 01-17h
/// pan_dir: 01=left, 02=right, 03=stop
/// tilt_dir: 01=up, 02=down, 03=stop
pub fn pan_tilt_relative(pan_speed: u8, tilt_speed: u8, pan_dir: u8, tilt_dir: u8) -> (r: Vec<u8>)
    ensures
        r@ == pan_tilt_relative_bytes(pan_speed, tilt_speed, pan_dir, tilt_dir),
{
    let r: Vec<u8> = vec![0x81, 0x01, 0x06, 0x01, pan_speed, tilt_speed, pan_dir, tilt_dir, 0xFF];
    proof {
        assert(r@ =~= pan_tilt_relative_bytes(pan_speed, tilt_speed, pan_dir, tilt_dir));
    }
    r
}

pub open spec fn pan_tilt_stop_bytes() -> Seq<u8> {
    seq![0x81u8, 0x01, 0x06, 0x01, 0x00, 0x00, 0x03, 0x03, 0xFF]
}

/// VISCA pan/tilt stop.
pub fn pan_tilt_stop() -> (r: Vec<u8>)
    ensures
        r@ == pan_tilt_stop_bytes(),
{
    let r: Vec<u8> = vec![0x81, 0x01, 0x06, 0x01, 0x00, 0x00, 0x03, 0x03, 0xFF];
    proof {
        assert(r@ =~= pan_tilt_stop_bytes());
    }
    r
}

/// Bytes of the absolute zoom command: the 16-bit position nibble-packed.
pub open spec fn zoom_absolute_bytes(position: u16) -> Seq<u8> {
    seq![
        0x81u8,
        0x01,
        0x04,
        0x47,
        nib3(position),
        nib2(position),
        nib1(position),
        nib0(position),
        0xFF,
    ]
}

/// VISCA zoom absolute position (native range 0x0000 to 0x4000).
pub fn zoom_absolute(position: u16) -> (r: Vec<u8>)
    ensures
        r@ == zoom_absolute_bytes(position),
{
    let r: Vec<u8> = vec![
        0x81,
        0x01,
        0x04,
        0x47,
        ((position >> 12) & 0x0F) as u8,
        ((position >> 8) & 0x0F) as u8,
        ((position >> 4) & 0x0F) as u8,
        (position & 0x0F) as u8,
        0xFF,
    ];
    proof {
        assert(r@ =~= zoom_absolute_bytes(position));
    }
    r
}

pub open spec fn preset_recall_bytes(preset_number: u8) -> Seq<u8> {
    seq![0x81u8, 0x01, 0x04, 0x3F, 0x02, preset_number, 0xFF]
}

/// VISCA preset recall: 81 01 04 3F 02 pp FF
pub fn preset_recall(preset_number: u8) -> (r: Vec<u8>)
    ensures
        r@ == preset_recall_bytes(preset_number),
{
    let r: Vec<u8> = vec![0x81, 0x01, 0x04, 0x3F, 0x02, preset_number, 0xFF];
    proof {
        assert(r@ =~= preset_recall_bytes(preset_number));
    }
    r
}

pub open spec fn preset_store_bytes(preset_number: u8) -> Seq<u8> {
    seq![0x81u8, 0x01, 0x04, 0x3F, 0x01, preset_number, 0xFF]
}

/// VISCA preset store: 81 01 04 3F 01 pp FF
pub fn preset_store(preset_number: u8) -> (r: Vec<u8>)
    ensures
        r@ == preset_store_bytes(preset_number),
{
    let r: Vec<u8> = vec![0x81, 0x01, 0x04, 0x3F, 0x01, preset_number, 0xFF];
    proof {
        assert(r@ =~= preset_store_bytes(preset_number));
    }
    r
}

pub open spec fn pan_tilt_position_inquiry_bytes() -> Seq<u8> {
    seq![0x81u8, 0x09, 0x06, 0x12, 0xFF]
}

/// VISCA pan/tilt position inquiry command.
pub fn pan_tilt_position_inquiry() -> (r: Vec<u8>)
    ensures
        r@ == pan_tilt_position_inquiry_bytes(),
{
    let r: Vec<u8> = vec![0x81, 0x09, 0x06, 0x12, 0xFF];
    proof {
        assert(r@ =~= pan_tilt_position_inquiry_bytes());
    }
    r
}

pub open spec fn zoom_position_inquiry_bytes() -> Seq<u8> {
    seq![0x81u8, 0x09, 0x04, 0x47, 0xFF]
}

/// VISCA zoom position inquiry command.
pub fn zoom_position_inquiry() -> (r: Vec<u8>)
    ensures
        r@ == zoom_position_inquiry_bytes(),
{
    let r: Vec<u8> = vec![0x81, 0x09, 0x04, 0x47, 0xFF];
    proof {
        assert(r@ =~= zoom_position_inquiry_bytes());
    }
    r
}

pub open spec fn pan_tilt_home_bytes() -> Seq<u8> {
    seq![0x81u8, 0x01, 0x06, 0x04, 0xFF]
}

/// VISCA home position command.
pub fn pan_tilt_home() -> (r: Vec<u8>)
    ensures
        r@ == pan_tilt_home_bytes(),
{
    let r: Vec<u8> = vec![0x81, 0x01, 0x06, 0x04, 0xFF];
    proof {
        assert(r@ =~= pan_tilt_home_bytes());
    }
    r
}

pub open spec fn focus_far_bytes() -> Seq<u8> {
    seq![0x81u8, 0x01, 0x04, 0x08, 0x02, 0xFF]
}

/// VISCA focus far (standard speed).
pub fn focus_far() -> (r: Vec<u8>)
    ensures
        r@ == focus_far_bytes(),
{
    let r: Vec<u8> = vec![0x81, 0x01, 0x04, 0x08, 0x02, 0xFF];
    proof {
        assert(r@ =~= focus_far_bytes());
    }
    r
}

pub open spec fn focus_near_bytes() -> Seq<u8> {
    seq![0x81u8, 0x01, 0x04, 0x08, 0x03, 0xFF]
}

/// VISCA focus near (standard speed).
pub fn focus_near() -> (r: Vec<u8>)
    ensures
        r@ == focus_near_bytes(),
{
    let r: Vec<u8> = vec![0x81, 0x01, 0x04, 0x08, 0x03, 0xFF];
    proof {
        assert(r@ =~= focus_near_bytes());
    }
    r
}

pub open spec fn focus_stop_bytes() -> Seq<u8> {
    seq![0x81u8, 0x01, 0x04, 0x08, 0x00, 0xFF]
}

/// VISCA focus stop.
pub fn focus_stop() -> (r: Vec<u8>)
    ensures
        r@ == focus_stop_bytes(),
{
    let r: Vec<u8> = vec![0x81, 0x01, 0x04, 0x08, 0x00, 0xFF];
    proof {
        assert(r@ =~= focus_stop_bytes());
    }
    r
}

pub open spec fn autofocus_on_bytes() -> Seq<u8> {
    seq![0x81u8, 0x01, 0x04, 0x38, 0x02, 0xFF]
}

/// VISCA autofocus on.
pub fn autofocus_on() -> (r: Vec<u8>)
    ensures
        r@ == autofocus_on_bytes(),
{
    let r: Vec<u8> = vec![0x81, 0x01, 0x04, 0x38, 0x02, 0xFF];
    proof {
        assert(r@ =~= autofocus_on_bytes());
    }
    r
}

pub open spec fn autofocus_off_bytes() -> Seq<u8> {
    seq![0x81u8, 0x01, 0x04, 0x38, 0x03, 0xFF]
}

/// VISCA autofocus off (manual focus).
pub fn autofocus_off() -> (r: Vec<u8>)
    ensures
        r@ == autofocus_off_bytes(),
{
    let r: Vec<u8> = vec![0x81, 0x01, 0x04, 0x38, 0x03, 0xFF];
    proof {
        assert(r@ =~= autofocus_off_bytes());
    }
    r
}

pub open spec fn autofocus_trigger_bytes() -> Seq<u8> {
    seq![0x81u8, 0x01, 0x04, 0x18, 0x01, 0xFF]
}

/// VISCA one-push autofocus trigger.
pub fn autofocus_trigger() -> (r: Vec<u8>)
    ensures
        r@ == autofocus_trigger_bytes(),
{
    let r: Vec<u8> = vec![0x81, 0x01, 0x04, 0x18, 0x01, 0xFF];
    proof {
        assert(r@ =~= autofocus_trigger_bytes());
    }
    r
}

// ---------------------------------------------------------------------
// Numeric mapping between the normalized space (thousandths) and the
// native VISCA ranges: pan -880..880, tilt -400..288 (asymmetric),
// zoom 0..0x4000.
// ---------------------------------------------------------------------

/// Native pan value of a normalized pan: round(p * 880) after clamping.
pub open spec fn visca_pan_of(p: int) -> int {
    round_div(880 * clamp_spec(p, -1000, 1000), 1000)
}

/// Native tilt value of a normalized tilt: the affine map onto the
/// asymmetric range -400..288 (center -56, half range 344).
pub open spec fn visca_tilt_of(t: int) -> int {
    round_div(344 * clamp_spec(t, -1000, 1000), 1000) - 56
}

/// Native zoom value of a normalized zoom: round(z * 0x4000).
pub open spec fn visca_zoom_of(z: int) -> int {
    round_div(16384 * clamp_spec(z, 0, 1000), 1000)
}

/// Normalized pan recovered from a native pan value.
pub open spec fn visca_pan_norm(v: int) -> int {
    clamp_spec(round_div(1000 * v, 880), -1000, 1000)
}

/// Normalized tilt recovered from a native tilt value.
pub open spec fn visca_tilt_norm(v: int) -> int {
    clamp_spec(round_div(1000 * (v + 56), 344), -1000, 1000)
}

/// Normalized zoom recovered from a native zoom value.
pub open spec fn visca_zoom_norm(v: int) -> int {
    clamp_spec(round_div(1000 * v, 16384), 0, 1000)
}

/// Convert normalized pan (thousandths of [-1, 1]) to the VISCA pan value.
pub fn normalize_to_visca_pan(normalized: i32) -> (r: i16)
    ensures
        r == visca_pan_of(normalized as int),
        -880 <= r <= 880,
{
    let c = clamp_pan_tilt(normalized);
    let q = round_div_i64(880 * (c as i64), 1000);
    proof {
        lemma_round_div_close(880 * (c as int), 1000);
    }
    q as i16
}

/// Convert normalized tilt (thousandths of [-1, 1]) to the VISCA tilt value.
pub fn normalize_to_visca_tilt(normalized: i32) -> (r: i16)
    ensures
        r == visca_tilt_of(normalized as int),
        -400 <= r <= 288,
{
    let c = clamp_pan_tilt(normalized);
    let q = round_div_i64(344 * (c as i64), 1000);
    proof {
        lemma_round_div_close(344 * (c as int), 1000);
    }
    (q as i16) - 56
}

/// Convert normalized zoom (thousandths of [0, 1]) to the VISCA zoom value.
pub fn normalize_to_visca_zoom(normalized: i32) -> (r: u16)
    ensures
        r == visca_zoom_of(normalized as int),
        r <= 0x4000,
{
    let c = clamp_zoom(normalized);
    let q = round_div_i64(16384 * (c as i64), 1000);
    proof {
        lemma_round_div_close(16384 * (c as int), 1000);
    }
    q as u16
}

/// Convert a VISCA pan value back to normalized thousandths of [-1, 1].
pub fn visca_pan_to_normalized(visca_pan: i16) -> (r: i32)
    ensures
        r == visca_pan_norm(visca_pan as int),
        -1000 <= r <= 1000,
{
    let q = round_div_i64(1000 * (visca_pan as i64), 880);
    proof {
        lemma_round_div_close(1000 * (visca_pan as int), 880);
    }
    clamp_pan_tilt(q as i32)
}

/// Convert a VISCA tilt value back to normalized thousandths of [-1, 1].
pub fn visca_tilt_to_normalized(visca_tilt: i16) -> (r: i32)
    ensures
        r == visca_tilt_norm(visca_tilt as int),
        -1000 <= r <= 1000,
{
    let q = round_div_i64(1000 * (visca_tilt as i64 + 56), 344);
    proof {
        lemma_round_div_close(1000 * (visca_tilt as int + 56), 344);
    }
    clamp_pan_tilt(q as i32)
}

/// Convert a VISCA zoom value back to normalized thousandths of [0, 1].
pub fn visca_zoom_to_normalized(visca_zoom: u16) -> (r: i32)
    ensures
        r == visca_zoom_norm(visca_zoom as int),
        0 <= r <= 1000,
{
    let q = round_div_i64(1000 * (visca_zoom as i64), 16384);
    proof {
        lemma_round_div_close(1000 * (visca_zoom as int), 16384);
    }
    clamp_zoom(q as i32)
}

// ---------------------------------------------------------------------
// Round-trip laws: decoding an encoded value lands within one
// fixed-point step (one thousandth) of the input value, smaller
// than one native quantization step of each axis; zoom is exact.
// ---------------------------------------------------------------------

/// Law: pan encode then decode is within one thousandth of the input.
pub proof fn lemma_visca_pan_round_trip(p: int)
    requires
        -1000 <= p <= 1000,
    ensures
        -1 <= visca_pan_norm(visca_pan_of(p)) - p <= 1,
{
    let v = round_div(880 * p, 1000);
    lemma_round_div_close(880 * p, 1000);
    lemma_round_div_close(1000 * v, 880);
}

/// Law: tilt encode then decode is within one thousandth of the input.
pub proof fn lemma_visca_tilt_round_trip(t: int)
    requires
        -1000 <= t <= 1000,
    ensures
        -1 <= visca_tilt_norm(visca_tilt_of(t)) - t <= 1,
{
    let v = round_div(344 * t, 1000);
    lemma_round_div_close(344 * t, 1000);
    lemma_round_div_close(1000 * v, 344);
}

/// Law: zoom encode then decode is exact, because the native zoom range
/// is finer than the fixed-point resolution.
pub proof fn lemma_visca_zoom_round_trip(z: int)
    requires
        0 <= z <= 1000,
    ensures
        visca_zoom_norm(visca_zoom_of(z)) == z,
{
    let v = round_div(16384 * z, 1000);
    lemma_round_div_close(16384 * z, 1000);
    lemma_round_div_close(1000 * v, 16384);
}

// ---------------------------------------------------------------------
// Inquiry response parsing
// ---------------------------------------------------------------------

/// A pan/tilt inquiry response: `90 50` then 8 nibble bytes then `FF`.
pub open spec fn pan_tilt_response_ok(p: Seq<u8>) -> bool {
    p.len() >= 11 && p[0] == 0x90 && p[1] == 0x50
}

pub open spec fn response_pan(p: Seq<u8>) -> i16 {
    nibbles_value(p[2], p[3], p[4], p[5]) as i16
}

pub open spec fn response_tilt(p: Seq<u8>) -> i16 {
    nibbles_value(p[6], p[7], p[8], p[9]) as i16
}

/// A zoom inquiry response: `90 50` then 4 nibble bytes then `FF`.
pub open spec fn zoom_response_ok(p: Seq<u8>) -> bool {
    p.len() >= 7 && p[0] == 0x90 && p[1] == 0x50
}

pub open spec fn response_zoom(p: Seq<u8>) -> u16 {
    nibbles_value(p[2], p[3], p[4], p[5])
}

/// Parse a VISCA pan/tilt inquiry response payload,
/// `90 50 0p 0p 0p 0p 0t 0t 0t 0t FF`; each `0x` byte carries one
/// nibble of a 16-bit value. Malformed input (wrong prefix, too short)
/// yields `None`.
pub fn parse_pan_tilt_response(payload: &[u8]) -> (r: Option<(i16, i16)>)
    ensures
        r == if pan_tilt_response_ok(payload@) {
            Some((response_pan(payload@), response_tilt(payload@)))
        } else {
            None::<(i16, i16)>
        },
{
    if payload.len() < 11 || payload[0] != 0x90 || payload[1] != 0x50 {
        return None;
    }
    let pan = (((payload[2] & 0x0F) as u16) << 12) | (((payload[3] & 0x0F) as u16) << 8) | (((
    payload[4] & 0x0F) as u16) << 4) | ((payload[5] & 0x0F) as u16);
    let tilt = (((payload[6] & 0x0F) as u16) << 12) | (((payload[7] & 0x0F) as u16) << 8) | (((
    payload[8] & 0x0F) as u16) << 4) | ((payload[9] & 0x0F) as u16);
    Some((pan as i16, tilt as i16))
}

/// Parse a VISCA zoom inquiry response payload, `90 50 0z 0z 0z 0z FF`.
pub fn parse_zoom_response(payload: &[u8]) -> (r: Option<u16>)
    ensures
        r == if zoom_response_ok(payload@) {
            Some(response_zoom(payload@))
        } else {
            None::<u16>
        },
{
    if payload.len() < 7 || payload[0] != 0x90 || payload[1] != 0x50 {
        return None;
    }
    let zoom = (((payload[2] & 0x0F) as u16) << 12) | (((payload[3] & 0x0F) as u16) << 8) | (((
    payload[4] & 0x0F) as u16) << 4) | ((payload[5] & 0x0F) as u16);
    Some(zoom)
}

} // verus!
