//! Panasonic AW protocol codec (AW-UE150, AW-UE100, AW-UE70 and
//! similar cameras). Commands are short ASCII strings sent as the
//! `cmd` query parameter of an HTTP CGI GET; the transport around this
//! crate prefixes them with `#` and carries them. Responses are parsed
//! here from their raw bytes.

use crate::controller::PtzError;
use crate::norm::{clamp_i64, clamp_pan_tilt, clamp_spec, clamp_zoom, round_div, round_div_i64};
use crate::norm::lemma_round_div_close;
use crate::text::hex_char;
use vstd::arithmetic::div_mod::{lemma_div_denominator, lemma_fundamental_div_mod};
use crate::text::{append_dec2_u8, append_hex3, append_hex4, dec2_u8, hex3, hex4};
use crate::types::PtzPosition;
use vstd::prelude::*;
use vstd::string::*;

verus! {

// ---------------------------------------------------------------------
// Numeric mapping between normalized thousandths and the native AW
// ranges: pan/tilt 0x0001..0xFFFF (center 0x8000), zoom 0x555..0xFFF.
// ---------------------------------------------------------------------

/// Native pan or tilt value of a normalized axis value:
/// round((clamped + 1) / 2 * 0xFFFE) + 1.
pub open spec fn aw_axis_value(p: int) -> int {
    round_div((clamp_spec(p, -1000, 1000) + 1000) * 65534, 2000) + 1
}

/// Native zoom value of a normalized zoom:
/// round(0x555 + clamped * (0xFFF - 0x555)).
pub open spec fn aw_zoom_value(z: int) -> int {
    0x555 + round_div(clamp_spec(z, 0, 1000) * 2730, 1000)
}

/// Normalized axis value recovered from a native pan or tilt value.
pub open spec fn aw_axis_norm(v: int) -> int {
    clamp_spec(round_div((v - 1) * 2000, 65534) - 1000, -1000, 1000)
}

/// Normalized zoom recovered from a native zoom value.
pub open spec fn aw_zoom_norm(v: int) -> int {
    clamp_spec(round_div((v - 0x555) * 1000, 2730), 0, 1000)
}

/// The two-digit speed of a relative move: 50 is stop, 51..99 one
/// direction and 1..49 the other, scaled linearly from the delta
/// magnitude, with a deadband below one hundredth.
pub open spec fn aw_speed_value(d: int) -> int {
    if -10 < d < 10 {
        50
    } else if d > 0 {
        clamp_spec(round_div(51000 + 48 * d, 1000), 1, 99)
    } else {
        clamp_spec(round_div(49000 + 48 * d, 1000), 1, 99)
    }
}

/// Native pan value of a normalized pan (thousandths of [-1, 1]).
pub fn aw_pan_value_of(normalized: i32) -> (r: u16)
    ensures
        r == aw_axis_value(normalized as int),
        1 <= r,
{
    let c = clamp_pan_tilt(normalized);
    let q = round_div_i64((c as i64 + 1000) * 65534, 2000);
    proof {
        lemma_round_div_close((c as int + 1000) * 65534, 2000);
    }
    (q + 1) as u16
}

/// Native zoom value of a normalized zoom (thousandths of [0, 1]).
pub fn aw_zoom_value_of(normalized: i32) -> (r: u16)
    ensures
        r == aw_zoom_value(normalized as int),
        0x555 <= r <= 0xFFF,
{
    let c = clamp_zoom(normalized);
    let q = round_div_i64((c as i64) * 2730, 1000);
    proof {
        lemma_round_div_close((c as int) * 2730, 1000);
    }
    0x555 + (q as u16)
}

/// Normalized axis value of a native pan or tilt value.
pub fn aw_axis_to_normalized(value: u16) -> (r: i32)
    ensures
        r == aw_axis_norm(value as int),
        -1000 <= r <= 1000,
{
    let q = round_div_i64((value as i64 - 1) * 2000, 65534);
    proof {
        lemma_round_div_close((value as int - 1) * 2000, 65534);
    }
    clamp_pan_tilt((q - 1000) as i32)
}

/// Normalized zoom of a native zoom value.
pub fn aw_zoom_to_normalized(value: u16) -> (r: i32)
    ensures
        r == aw_zoom_norm(value as int),
        0 <= r <= 1000,
{
    let q = round_div_i64((value as i64 - 0x555) * 1000, 2730);
    proof {
        lemma_round_div_close((value as int - 0x555) * 1000, 2730);
    }
    clamp_zoom(q as i32)
}

/// The two-digit speed of a relative move delta.
pub fn aw_speed_value_of(delta: i32) -> (r: u8)
    ensures
        r == aw_speed_value(delta as int),
        1 <= r <= 99,
{
    if -10 < delta && delta < 10 {
        50
    } else if delta > 0 {
        let q = round_div_i64(51000 + 48 * (delta as i64), 1000);
        clamp_i64(q, 1, 99) as u8
    } else {
        let q = round_div_i64(49000 + 48 * (delta as i64), 1000);
        clamp_i64(q, 1, 99) as u8
    }
}

// ---------------------------------------------------------------------
// Round-trip laws: the native pan/tilt and zoom ranges are finer than
// the fixed-point resolution, so encode then decode is exact.
// ---------------------------------------------------------------------

/// Law: pan/tilt encode then decode gives the input back exactly.
pub proof fn lemma_aw_axis_round_trip(p: int)
    requires
        -1000 <= p <= 1000,
    ensures
        aw_axis_norm(aw_axis_value(p)) == p,
{
    let v = round_div((p + 1000) * 65534, 2000);
    lemma_round_div_close((p + 1000) * 65534, 2000);
    lemma_round_div_close(v * 2000, 65534);
}

/// Law: zoom encode then decode gives the input back exactly.
pub proof fn lemma_aw_zoom_round_trip(z: int)
    requires
        0 <= z <= 1000,
    ensures
        aw_zoom_norm(aw_zoom_value(z)) == z,
{
    let v = round_div(z * 2730, 1000);
    lemma_round_div_close(z * 2730, 1000);
    lemma_round_div_close(v * 1000, 2730);
}

// ---------------------------------------------------------------------
// Command strings
// ---------------------------------------------------------------------

/// Four uppercase hex digits of the native pan value.
pub fn normalize_to_pan_hex(normalized: i32) -> (s: String)
    ensures
        s@ == hex4(aw_axis_value(normalized as int)),
{
    let v = aw_pan_value_of(normalized);
    let mut m = String::new();
    append_hex4(&mut m, v);
    proof {
        assert(m@ =~= hex4(aw_axis_value(normalized as int)));
    }
    m
}

/// Four uppercase hex digits of the native tilt value.
pub fn normalize_to_tilt_hex(normalized: i32) -> (s: String)
    ensures
        s@ == hex4(aw_axis_value(normalized as int)),
{
    normalize_to_pan_hex(normalized)
}

/// Three uppercase hex digits of the native zoom value.
pub fn normalize_to_zoom_hex(normalized: i32) -> (s: String)
    ensures
        s@ == hex3(aw_zoom_value(normalized as int)),
{
    let v = aw_zoom_value_of(normalized);
    let mut m = String::new();
    append_hex3(&mut m, v);
    proof {
        assert(m@ =~= hex3(aw_zoom_value(normalized as int)));
    }
    m
}

/// Two decimal digits of the speed of a relative move delta.
pub fn delta_to_speed(delta: i32) -> (s: String)
    ensures
        s@ == dec2_u8(aw_speed_value(delta as int)),
{
    let v = aw_speed_value_of(delta);
    let mut m = String::new();
    append_dec2_u8(&mut m, v);
    proof {
        assert(m@ =~= dec2_u8(aw_speed_value(delta as int)));
    }
    m
}

/// The absolute pan/tilt command `APS{pan4}{tilt4}30` (fixed speed 30).
pub open spec fn aw_pan_tilt_absolute_cmd_spec(pan: int, tilt: int) -> Seq<char> {
    "APS"@ + hex4(aw_axis_value(pan)) + hex4(aw_axis_value(tilt)) + "30"@
}

pub fn aw_pan_tilt_absolute_cmd(pan: i32, tilt: i32) -> (c: String)
    ensures
        c@ == aw_pan_tilt_absolute_cmd_spec(pan as int, tilt as int),
{
    let mut m = String::from_str("APS");
    let ph = normalize_to_pan_hex(pan);
    m.append(ph.as_str());
    let th = normalize_to_tilt_hex(tilt);
    m.append(th.as_str());
    m.append("30");
    proof {
        assert(m@ =~= aw_pan_tilt_absolute_cmd_spec(pan as int, tilt as int));
    }
    m
}

/// The absolute zoom command `Z{zoom3}`.
pub open spec fn aw_zoom_cmd_spec(zoom: int) -> Seq<char> {
    "Z"@ + hex3(aw_zoom_value(zoom))
}

pub fn aw_zoom_cmd(zoom: i32) -> (c: String)
    ensures
        c@ == aw_zoom_cmd_spec(zoom as int),
{
    let mut m = String::from_str("Z");
    let zh = normalize_to_zoom_hex(zoom);
    m.append(zh.as_str());
    proof {
        assert(m@ =~= aw_zoom_cmd_spec(zoom as int));
    }
    m
}

/// The pan speed command `P{speed2}`.
pub open spec fn aw_pan_speed_cmd_spec(delta: int) -> Seq<char> {
    "P"@ + dec2_u8(aw_speed_value(delta))
}

pub fn aw_pan_speed_cmd(delta: i32) -> (c: String)
    ensures
        c@ == aw_pan_speed_cmd_spec(delta as int),
{
    let mut m = String::from_str("P");
    let sp = delta_to_speed(delta);
    m.append(sp.as_str());
    proof {
        assert(m@ =~= aw_pan_speed_cmd_spec(delta as int));
    }
    m
}

/// The tilt speed command `T{speed2}`.
pub open spec fn aw_tilt_speed_cmd_spec(delta: int) -> Seq<char> {
    "T"@ + dec2_u8(aw_speed_value(delta))
}

pub fn aw_tilt_speed_cmd(delta: i32) -> (c: String)
    ensures
        c@ == aw_tilt_speed_cmd_spec(delta as int),
{
    let mut m = String::from_str("T");
    let sp = delta_to_speed(delta);
    m.append(sp.as_str());
    proof {
        assert(m@ =~= aw_tilt_speed_cmd_spec(delta as int));
    }
    m
}

/// The combined continuous-move command `PTS{pan2}{tilt2}`.
pub open spec fn aw_continuous_move_cmd_spec(pan_speed: int, tilt_speed: int) -> Seq<char> {
    "PTS"@ + dec2_u8(aw_speed_value(pan_speed)) + dec2_u8(aw_speed_value(tilt_speed))
}

pub fn aw_continuous_move_cmd(pan_speed: i32, tilt_speed: i32) -> (c: String)
    ensures
        c@ == aw_continuous_move_cmd_spec(pan_speed as int, tilt_speed as int),
{
    let mut m = String::from_str("PTS");
    let ps = delta_to_speed(pan_speed);
    m.append(ps.as_str());
    let ts = delta_to_speed(tilt_speed);
    m.append(ts.as_str());
    proof {
        assert(m@ =~= aw_continuous_move_cmd_spec(pan_speed as int, tilt_speed as int));
    }
    m
}

/// The stop command: both axes at speed 50.
pub fn aw_stop_cmd() -> (c: String)
    ensures
        c@ == "PTS5050"@,
{
    String::from_str("PTS5050")
}

/// The preset recall command `R{index2}`.
pub open spec fn aw_preset_recall_cmd_spec(index: int) -> Seq<char> {
    "R"@ + dec2_u8(index)
}

pub fn aw_preset_recall_cmd(index: u8) -> (c: String)
    ensures
        c@ == aw_preset_recall_cmd_spec(index as int),
{
    let mut m = String::from_str("R");
    append_dec2_u8(&mut m, index);
    proof {
        assert(m@ =~= aw_preset_recall_cmd_spec(index as int));
    }
    m
}

/// The preset store command `M{index2}`.
pub open spec fn aw_preset_store_cmd_spec(index: int) -> Seq<char> {
    "M"@ + dec2_u8(index)
}

pub fn aw_preset_store_cmd(index: u8) -> (c: String)
    ensures
        c@ == aw_preset_store_cmd_spec(index as int),
{
    let mut m = String::from_str("M");
    append_dec2_u8(&mut m, index);
    proof {
        assert(m@ =~= aw_preset_store_cmd_spec(index as int));
    }
    m
}

/// The pan/tilt position inquiry command.
pub fn aw_position_inquiry_cmd() -> (c: String)
    ensures
        c@ == "APC"@,
{
    String::from_str("APC")
}

/// The zoom position inquiry command.
pub fn aw_zoom_inquiry_cmd() -> (c: String)
    ensures
        c@ == "GZ"@,
{
    String::from_str("GZ")
}

// ---------------------------------------------------------------------
// Response parsing
// ---------------------------------------------------------------------

/// An ASCII hexadecimal digit byte, either case.
pub open spec fn is_hex_digit(b: u8) -> bool {
    (0x30 <= b <= 0x39) || (0x41 <= b <= 0x46) || (0x61 <= b <= 0x66)
}

/// The value of an ASCII hexadecimal digit byte.
pub open spec fn hex_digit_val(b: u8) -> int {
    if 0x30 <= b <= 0x39 {
        b - 0x30
    } else if 0x41 <= b <= 0x46 {
        b - 55
    } else {
        b - 87
    }
}

pub open spec fn hex4_ok(s: Seq<u8>) -> bool {
    s.len() == 4 && is_hex_digit(s[0]) && is_hex_digit(s[1]) && is_hex_digit(s[2]) && is_hex_digit(
        s[3],
    )
}

pub open spec fn hex4_val(s: Seq<u8>) -> int {
    ((hex_digit_val(s[0]) * 16 + hex_digit_val(s[1])) * 16 + hex_digit_val(s[2])) * 16
        + hex_digit_val(s[3])
}

pub open spec fn hex3_ok(s: Seq<u8>) -> bool {
    s.len() == 3 && is_hex_digit(s[0]) && is_hex_digit(s[1]) && is_hex_digit(s[2])
}

pub open spec fn hex3_val(s: Seq<u8>) -> int {
    (hex_digit_val(s[0]) * 16 + hex_digit_val(s[1])) * 16 + hex_digit_val(s[2])
}

/// The value of one ASCII hexadecimal digit byte, or `None`.
pub fn parse_hex_digit(b: u8) -> (r: Option<u8>)
    ensures
        r == if is_hex_digit(b) {
            Some(hex_digit_val(b) as u8)
        } else {
            None::<u8>
        },
{
    if 0x30 <= b && b <= 0x39 {
        Some(b - 0x30)
    } else if 0x41 <= b && b <= 0x46 {
        Some(b - 55)
    } else if 0x61 <= b && b <= 0x66 {
        Some(b - 87)
    } else {
        None
    }
}

/// Parse four hex digit bytes of `s` starting at `off`.
pub fn parse_hex4_at(s: &[u8], off: usize) -> (r: Option<u16>)
    requires
        off + 4 <= s@.len(),
    ensures
        r == if hex4_ok(s@.subrange(off as int, off as int + 4)) {
            Some(hex4_val(s@.subrange(off as int, off as int + 4)) as u16)
        } else {
            None::<u16>
        },
{
    let d0 = parse_hex_digit(s[off]);
    let d1 = parse_hex_digit(s[off + 1]);
    let d2 = parse_hex_digit(s[off + 2]);
    let d3 = parse_hex_digit(s[off + 3]);
    match (d0, d1, d2, d3) {
        (Some(a), Some(b), Some(c), Some(d)) => {
            let v = ((a as u16) << 12) | ((b as u16) << 8) | ((c as u16) << 4) | (d as u16);
            proof {
                let (a16, b16, c16, d16) = (a as u16, b as u16, c as u16, d as u16);
                assert(a16 < 16 && b16 < 16 && c16 < 16 && d16 < 16 ==> ((a16 << 12) | (b16 << 8)
                    | (c16 << 4) | d16) == ((a16 * 16 + b16) * 16 + c16) * 16
                    + d16) by (bit_vector);
            }
            Some(v)
        },
        _ => None,
    }
}

/// Parse three hex digit bytes of `s` starting at `off`.
pub fn parse_hex3_at(s: &[u8], off: usize) -> (r: Option<u16>)
    requires
        off + 3 <= s@.len(),
    ensures
        r == if hex3_ok(s@.subrange(off as int, off as int + 3)) {
            Some(hex3_val(s@.subrange(off as int, off as int + 3)) as u16)
        } else {
            None::<u16>
        },
{
    let d0 = parse_hex_digit(s[off]);
    let d1 = parse_hex_digit(s[off + 1]);
    let d2 = parse_hex_digit(s[off + 2]);
    match (d0, d1, d2) {
        (Some(a), Some(b), Some(c)) => {
            let v = ((a as u16) << 8) | ((b as u16) << 4) | (c as u16);
            proof {
                let (a16, b16, c16) = (a as u16, b as u16, c as u16);
                assert(a16 < 16 && b16 < 16 && c16 < 16 ==> ((a16 << 8) | (b16 << 4) | c16) == (a16
                    * 16 + b16) * 16 + c16) by (bit_vector);
            }
            Some(v)
        },
        _ => None,
    }
}

/// An `APC` pan/tilt inquiry response: `aPC` then four hex digits of
/// pan and four of tilt.
pub open spec fn apc_prefix_ok(s: Seq<u8>) -> bool {
    s.len() >= 11 && s[0] == 0x61 && s[1] == 0x50 && s[2] == 0x43
}

pub open spec fn apc_parse_ok(s: Seq<u8>) -> bool {
    apc_prefix_ok(s) && hex4_ok(s.subrange(3, 7)) && hex4_ok(s.subrange(7, 11))
}

pub open spec fn apc_pan(s: Seq<u8>) -> int {
    hex4_val(s.subrange(3, 7))
}

pub open spec fn apc_tilt(s: Seq<u8>) -> int {
    hex4_val(s.subrange(7, 11))
}

/// A `GZ` zoom inquiry response: `gz` then three hex digits.
pub open spec fn gz_prefix_ok(s: Seq<u8>) -> bool {
    s.len() >= 5 && s[0] == 0x67 && s[1] == 0x7A
}

pub open spec fn gz_zoom(s: Seq<u8>) -> int {
    hex3_val(s.subrange(2, 5))
}

/// Parse the native pan and tilt values out of an `APC` response.
/// A response without the expected prefix and length, or with bytes
/// that are not hex digits where the values stand, is a protocol error.
pub fn parse_apc_response(resp: &[u8]) -> (r: Result<(u16, u16), PtzError>)
    ensures
        r is Ok <==> apc_parse_ok(resp@),
        r matches Ok((pan, tilt)) ==> pan == apc_pan(resp@) && tilt == apc_tilt(resp@),
        r matches Err(e) ==> e is ProtocolError,
{
    if resp.len() < 11 || resp[0] != 0x61 || resp[1] != 0x50 || resp[2] != 0x43 {
        return Err(PtzError::ProtocolError(String::from_str("Invalid APC response")));
    }
    let pan = parse_hex4_at(resp, 3);
    let tilt = parse_hex4_at(resp, 7);
    match (pan, tilt) {
        (Some(p), Some(t)) => Ok((p, t)),
        _ => Err(PtzError::ProtocolError(String::from_str("Invalid APC response"))),
    }
}

/// Parse the native zoom value out of a `GZ` response. A response
/// without the expected prefix and length, or with bytes that are not
/// hex digits where the value stands, is a protocol error.
pub fn parse_gz_response(resp: &[u8]) -> (r: Result<u16, PtzError>)
    ensures
        r is Ok <==> gz_prefix_ok(resp@) && hex3_ok(resp@.subrange(2, 5)),
        r matches Ok(zoom) ==> zoom == gz_zoom(resp@),
        r matches Err(e) ==> e is ProtocolError,
{
    if resp.len() < 5 || resp[0] != 0x67 || resp[1] != 0x7A {
        return Err(PtzError::ProtocolError(String::from_str("Invalid GZ response")));
    }
    match parse_hex3_at(resp, 2) {
        Some(z) => Ok(z),
        None => Err(PtzError::ProtocolError(String::from_str("Invalid GZ response"))),
    }
}

/// The normalized position carried by a pan/tilt response and a zoom
/// response.
pub open spec fn aw_position_spec(pt: Seq<u8>, z: Seq<u8>) -> PtzPosition {
    PtzPosition {
        pan: aw_axis_norm(apc_pan(pt)) as i32,
        tilt: aw_axis_norm(apc_tilt(pt)) as i32,
        zoom: aw_zoom_norm(gz_zoom(z)) as i32,
    }
}

/// Decode the two inquiry responses of a position query into the
/// normalized position. Either response not matching its expected
/// prefix and minimum length, or carrying malformed digits, is a
/// protocol error.
pub fn aw_position_from_responses(pt: &[u8], z: &[u8]) -> (r: Result<PtzPosition, PtzError>)
    ensures
        r is Ok <==> apc_parse_ok(pt@) && gz_prefix_ok(z@) && hex3_ok(z@.subrange(2, 5)),
        r matches Ok(p) ==> p == aw_position_spec(pt@, z@) && p.well_formed(),
        r matches Err(e) ==> e is ProtocolError,
{
    let (pan_val, tilt_val) = match parse_apc_response(pt) {
        Ok(v) => v,
        Err(e) => {
            return Err(e);
        },
    };
    let zoom_val = match parse_gz_response(z) {
        Ok(zv) => zv,
        Err(e) => {
            return Err(e);
        },
    };
    Ok(PtzPosition {
        pan: aw_axis_to_normalized(pan_val),
        tilt: aw_axis_to_normalized(tilt_val),
        zoom: aw_zoom_to_normalized(zoom_val),
    })
}

// ---------------------------------------------------------------------
// The encode/decode round trip through the wire format itself: replies
// rendered from encoded values parse back to the exact position.
// ---------------------------------------------------------------------

/// The ASCII bytes of a rendered command or reply text.
pub open spec fn ascii_bytes(s: Seq<char>) -> Seq<u8> {
    s.map_values(|c: char| c as u8)
}

/// Each rendered hex digit parses back to its value.
proof fn lemma_hex_digit_render_parse(d: int)
    requires
        0 <= d < 16,
    ensures
        is_hex_digit(hex_char(d) as u8),
        hex_digit_val(hex_char(d) as u8) == d,
{
}

/// A value below 0x10000 is the sum of its four hex digits, weighted.
proof fn lemma_hex_decompose4(v: int)
    requires
        0 <= v < 0x10000,
    ensures
        ((v / 0x1000 % 16 * 16 + v / 0x100 % 16) * 16 + v / 0x10 % 16) * 16 + v % 16 == v,
{
    lemma_fundamental_div_mod(v, 16);
    lemma_fundamental_div_mod(v / 16, 16);
    lemma_fundamental_div_mod(v / 256, 16);
    lemma_div_denominator(v, 16, 16);
    lemma_div_denominator(v, 256, 16);
    assert(v / 0x1000 % 16 == v / 0x1000) by {
        vstd::arithmetic::div_mod::lemma_small_mod((v / 0x1000) as nat, 16);
    }
}

/// A value below 0x1000 is the sum of its three hex digits, weighted.
proof fn lemma_hex_decompose3(v: int)
    requires
        0 <= v < 0x1000,
    ensures
        (v / 0x100 % 16 * 16 + v / 0x10 % 16) * 16 + v % 16 == v,
{
    lemma_fundamental_div_mod(v, 16);
    lemma_fundamental_div_mod(v / 16, 16);
    lemma_div_denominator(v, 16, 16);
    assert(v / 0x100 % 16 == v / 0x100) by {
        vstd::arithmetic::div_mod::lemma_small_mod((v / 0x100) as nat, 16);
    }
}

/// Law: the four rendered hex digits of a 16-bit value parse back to it.
pub proof fn lemma_hex4_render_parse(v: int)
    requires
        0 <= v < 0x10000,
    ensures
        hex4_ok(ascii_bytes(hex4(v))),
        hex4_val(ascii_bytes(hex4(v))) == v,
{
    lemma_hex_digit_render_parse(v / 0x1000 % 16);
    lemma_hex_digit_render_parse(v / 0x100 % 16);
    lemma_hex_digit_render_parse(v / 0x10 % 16);
    lemma_hex_digit_render_parse(v % 16);
    lemma_hex_decompose4(v);
}

/// Law: the three rendered hex digits of a value below 0x1000 parse
/// back to it.
pub proof fn lemma_hex3_render_parse(v: int)
    requires
        0 <= v < 0x1000,
    ensures
        hex3_ok(ascii_bytes(hex3(v))),
        hex3_val(ascii_bytes(hex3(v))) == v,
{
    lemma_hex_digit_render_parse(v / 0x100 % 16);
    lemma_hex_digit_render_parse(v / 0x10 % 16);
    lemma_hex_digit_render_parse(v % 16);
    lemma_hex_decompose3(v);
}

/// The encoded native pan or tilt value lies in 0x0001..0xFFFF.
pub proof fn lemma_aw_axis_value_range(p: int)
    ensures
        1 <= aw_axis_value(p) <= 0xFFFF,
{
    lemma_round_div_close((clamp_spec(p, -1000, 1000) + 1000) * 65534, 2000);
}

/// The encoded native zoom value lies in 0x555..0xFFF.
pub proof fn lemma_aw_zoom_value_range(z: int)
    ensures
        0x555 <= aw_zoom_value(z) <= 0xFFF,
{
    lemma_round_div_close(clamp_spec(z, 0, 1000) * 2730, 1000);
}

/// Law: a position query whose pan/tilt reply is `aPC` followed by the
/// rendered hex of the encoded pan and tilt, and whose zoom reply is
/// `gz` followed by the rendered hex of the encoded zoom, decodes to
/// exactly the original normalized position.
pub proof fn lemma_aw_position_round_trip(p: int, t: int, z: int)
    requires
        -1000 <= p <= 1000,
        -1000 <= t <= 1000,
        0 <= z <= 1000,
    ensures
        ({
            let pt = ascii_bytes("aPC"@ + hex4(aw_axis_value(p)) + hex4(aw_axis_value(t)));
            let zr = ascii_bytes("gz"@ + hex3(aw_zoom_value(z)));
            &&& apc_parse_ok(pt)
            &&& gz_prefix_ok(zr)
            &&& hex3_ok(zr.subrange(2, 5))
            &&& aw_position_spec(pt, zr) == (PtzPosition {
                pan: p as i32,
                tilt: t as i32,
                zoom: z as i32,
            })
        }),
{
    reveal_strlit("aPC");
    reveal_strlit("gz");
    let pv = aw_axis_value(p);
    let tv = aw_axis_value(t);
    let zv = aw_zoom_value(z);
    lemma_aw_axis_value_range(p);
    lemma_aw_axis_value_range(t);
    lemma_aw_zoom_value_range(z);
    let pt = ascii_bytes("aPC"@ + hex4(pv) + hex4(tv));
    let zr = ascii_bytes("gz"@ + hex3(zv));
    assert(pt.len() == 11);
    assert(pt.subrange(3, 7) =~= ascii_bytes(hex4(pv)));
    assert(pt.subrange(7, 11) =~= ascii_bytes(hex4(tv)));
    lemma_hex4_render_parse(pv);
    lemma_hex4_render_parse(tv);
    assert(zr.len() == 5);
    assert(zr.subrange(2, 5) =~= ascii_bytes(hex3(zv)));
    lemma_hex3_render_parse(zv);
    lemma_aw_axis_round_trip(p);
    lemma_aw_axis_round_trip(t);
    lemma_aw_zoom_round_trip(z);
}

} // verus!
