//! Generic REST (BirdDog) codec: the JSON request bodies and paths of
//! each controller operation, and the decoding of the position query.
//! The HTTP transport around this crate sends the bodies built here
//! and hands the numeric fields of the responses back as normalized
//! thousandths.

use crate::norm::{abs_val, clamp_pan_tilt, clamp_spec, clamp_zoom};
use crate::text::{dec_u8, digit_char, digit_str};
use crate::types::PtzPosition;
use vstd::prelude::*;
use vstd::string::*;

verus! {

/// Decimal rendering of a normalized thousandths value as a number
/// with three fraction digits, e.g. -300 renders as `-0.300`.
pub open spec fn milli_decimal(v: int) -> Seq<char>
    recommends
        -1000 <= v <= 1000,
{
    (if v < 0 {
        seq!['-']
    } else {
        Seq::<char>::empty()
    }) + seq![digit_char(abs_val(v) / 1000), '.', digit_char(abs_val(v) / 100 % 10), digit_char(
        abs_val(v) / 10 % 10,
    ), digit_char(abs_val(v) % 10)]
}

/// Append the decimal rendering of a normalized thousandths value.
pub fn append_milli(m: &mut String, v: i32)
    requires
        -1000 <= v <= 1000,
    ensures
        final(m)@ == old(m)@ + milli_decimal(v as int),
{
    let a: u16 = if v < 0 {
        m.append("-");
        (-v) as u16
    } else {
        v as u16
    };
    m.append(digit_str((a / 1000) as u8));
    m.append(".");
    m.append(digit_str((a / 100 % 10) as u8));
    m.append(digit_str((a / 10 % 10) as u8));
    m.append(digit_str((a % 10) as u8));
    proof {
        reveal_strlit("-");
        reveal_strlit(".");
        assert(m@ =~= old(m)@ + milli_decimal(v as int));
    }
}

/// Body of an absolute move: all three axes, clamped, mode `absolute`.
pub open spec fn birddog_move_absolute_body_spec(pan: int, tilt: int, zoom: int) -> Seq<char> {
    "{\"pan\":"@ + milli_decimal(clamp_spec(pan, -1000, 1000)) + ",\"tilt\":"@ + milli_decimal(
        clamp_spec(tilt, -1000, 1000),
    ) + ",\"zoom\":"@ + milli_decimal(clamp_spec(zoom, 0, 1000)) + ",\"mode\":\"absolute\"}"@
}

pub fn birddog_move_absolute_body(pan: i32, tilt: i32, zoom: i32) -> (b: String)
    ensures
        b@ == birddog_move_absolute_body_spec(pan as int, tilt as int, zoom as int),
{
    let mut m = String::from_str("{\"pan\":");
    append_milli(&mut m, clamp_pan_tilt(pan));
    m.append(",\"tilt\":");
    append_milli(&mut m, clamp_pan_tilt(tilt));
    m.append(",\"zoom\":");
    append_milli(&mut m, clamp_zoom(zoom));
    m.append(",\"mode\":\"absolute\"}");
    proof {
        assert(m@ =~= birddog_move_absolute_body_spec(pan as int, tilt as int, zoom as int));
    }
    m
}

/// Body of a relative move: the two deltas, clamped, mode `relative`.
pub open spec fn birddog_move_relative_body_spec(pan_delta: int, tilt_delta: int) -> Seq<char> {
    "{\"pan\":"@ + milli_decimal(clamp_spec(pan_delta, -1000, 1000)) + ",\"tilt\":"@
        + milli_decimal(clamp_spec(tilt_delta, -1000, 1000)) + ",\"mode\":\"relative\"}"@
}

pub fn birddog_move_relative_body(pan_delta: i32, tilt_delta: i32) -> (b: String)
    ensures
        b@ == birddog_move_relative_body_spec(pan_delta as int, tilt_delta as int),
{
    let mut m = String::from_str("{\"pan\":");
    append_milli(&mut m, clamp_pan_tilt(pan_delta));
    m.append(",\"tilt\":");
    append_milli(&mut m, clamp_pan_tilt(tilt_delta));
    m.append(",\"mode\":\"relative\"}");
    proof {
        assert(m@ =~= birddog_move_relative_body_spec(pan_delta as int, tilt_delta as int));
    }
    m
}

/// Body of a zoom command: the zoom alone, clamped, mode `absolute`.
pub open spec fn birddog_zoom_body_spec(zoom: int) -> Seq<char> {
    "{\"zoom\":"@ + milli_decimal(clamp_spec(zoom, 0, 1000)) + ",\"mode\":\"absolute\"}"@
}

pub fn birddog_zoom_body(zoom: i32) -> (b: String)
    ensures
        b@ == birddog_zoom_body_spec(zoom as int),
{
    let mut m = String::from_str("{\"zoom\":");
    append_milli(&mut m, clamp_zoom(zoom));
    m.append(",\"mode\":\"absolute\"}");
    proof {
        assert(m@ =~= birddog_zoom_body_spec(zoom as int));
    }
    m
}

/// Body of a preset recall or store: the preset index.
pub open spec fn birddog_preset_body_spec(index: int) -> Seq<char> {
    "{\"preset\":"@ + dec_u8(index) + "}"@
}

pub fn birddog_preset_body(index: u8) -> (b: String)
    ensures
        b@ == birddog_preset_body_spec(index as int),
{
    let mut m = String::from_str("{\"preset\":");
    crate::text::append_dec_u8(&mut m, index);
    m.append("}");
    proof {
        assert(m@ =~= birddog_preset_body_spec(index as int));
    }
    m
}

/// Path of move and zoom commands.
pub fn birddog_ptz_path() -> (p: &'static str)
    ensures
        p@ == "ptz"@,
{
    "ptz"
}

/// Path of a preset recall.
pub fn birddog_recall_path() -> (p: &'static str)
    ensures
        p@ == "recall"@,
{
    "recall"
}

/// Path of a preset store.
pub fn birddog_store_path() -> (p: &'static str)
    ensures
        p@ == "store"@,
{
    "store"
}

/// Path of the position query.
pub fn birddog_position_path() -> (p: &'static str)
    ensures
        p@ == "ptz/position"@,
{
    "ptz/position"
}

/// Path of the connectivity test.
pub fn birddog_about_path() -> (p: &'static str)
    ensures
        p@ == "about"@,
{
    "about"
}

/// The position carried by a position response: a missing field reads
/// as zero, and each axis is clamped into the normalized range.
pub open spec fn birddog_position_spec(pan: Option<i32>, tilt: Option<i32>, zoom: Option<
    i32,
>) -> PtzPosition {
    PtzPosition {
        pan: clamp_spec(
            match pan {
                Some(p) => p as int,
                None => 0,
            },
            -1000,
            1000,
        ) as i32,
        tilt: clamp_spec(
            match tilt {
                Some(t) => t as int,
                None => 0,
            },
            -1000,
            1000,
        ) as i32,
        zoom: clamp_spec(
            match zoom {
                Some(z) => z as int,
                None => 0,
            },
            0,
            1000,
        ) as i32,
    }
}

/// Assemble the normalized position out of the numeric fields of a
/// position response, already scaled to thousandths.
pub fn birddog_position_from_fields(pan: Option<i32>, tilt: Option<i32>, zoom: Option<i32>) -> (r:
    PtzPosition)
    ensures
        r == birddog_position_spec(pan, tilt, zoom),
        r.well_formed(),
{
    let p = match pan {
        Some(v) => v,
        None => 0,
    };
    let t = match tilt {
        Some(v) => v,
        None => 0,
    };
    let z = match zoom {
        Some(v) => v,
        None => 0,
    };
    PtzPosition { pan: clamp_pan_tilt(p), tilt: clamp_pan_tilt(t), zoom: clamp_zoom(z) }
}

} // verus!
