//! Panasonic AW codec: command strings, speed mapping, response
//! parsing, and encode/decode round trips.

use ptzcam::controller::PtzError;
use ptzcam::panasonic::{
    aw_axis_to_normalized, aw_continuous_move_cmd, aw_pan_speed_cmd, aw_pan_tilt_absolute_cmd,
    aw_pan_value_of, aw_position_from_responses, aw_position_inquiry_cmd, aw_preset_recall_cmd,
    aw_preset_store_cmd, aw_stop_cmd, aw_tilt_speed_cmd, aw_zoom_cmd, aw_zoom_inquiry_cmd,
    aw_zoom_to_normalized, aw_zoom_value_of, delta_to_speed, normalize_to_pan_hex,
    normalize_to_tilt_hex, normalize_to_zoom_hex, parse_apc_response, parse_gz_response,
};

#[test]
fn pan_hex_center_and_extremes() {
    assert_eq!(normalize_to_pan_hex(0), "8000");
    assert_eq!(normalize_to_pan_hex(-1000), "0001");
    assert_eq!(normalize_to_pan_hex(1000), "FFFF");
    assert_eq!(normalize_to_pan_hex(2000), "FFFF");
}

#[test]
fn zoom_hex_range() {
    assert_eq!(normalize_to_zoom_hex(0), "555");
    assert_eq!(normalize_to_zoom_hex(1000), "FFF");
    assert_eq!(normalize_to_zoom_hex(500), "AAA");
}

#[test]
fn absolute_move_command() {
    assert_eq!(aw_pan_tilt_absolute_cmd(0, 0), "APS8000800030");
    assert_eq!(aw_pan_tilt_absolute_cmd(-1000, 1000), "APS0001FFFF30");
}

#[test]
fn zoom_command() {
    assert_eq!(aw_zoom_cmd(0), "Z555");
    assert_eq!(aw_zoom_cmd(1000), "ZFFF");
}

#[test]
fn speed_mapping() {
    assert_eq!(delta_to_speed(0), "50");
    assert_eq!(delta_to_speed(9), "50");
    assert_eq!(delta_to_speed(-9), "50");
    assert_eq!(delta_to_speed(1000), "99");
    assert_eq!(delta_to_speed(-1000), "01");
    assert_eq!(delta_to_speed(500), "75");
    assert_eq!(delta_to_speed(-500), "25");
}

#[test]
fn speed_commands() {
    assert_eq!(aw_pan_speed_cmd(500), "P75");
    assert_eq!(aw_tilt_speed_cmd(-500), "T25");
    assert_eq!(aw_continuous_move_cmd(500, -500), "PTS7525");
    assert_eq!(aw_stop_cmd(), "PTS5050");
}

#[test]
fn preset_commands() {
    assert_eq!(aw_preset_recall_cmd(5), "R05");
    assert_eq!(aw_preset_store_cmd(12), "M12");
    assert_eq!(aw_preset_recall_cmd(255), "R255");
}

#[test]
fn inquiry_commands() {
    assert_eq!(aw_position_inquiry_cmd(), "APC");
    assert_eq!(aw_zoom_inquiry_cmd(), "GZ");
}

#[test]
fn apc_response_parses_hex_values() {
    let (pan, tilt) = parse_apc_response(b"aPC80008000").unwrap();
    assert_eq!(pan, 0x8000);
    assert_eq!(tilt, 0x8000);
    let (pan, tilt) = parse_apc_response(b"aPC0001ffff").unwrap();
    assert_eq!(pan, 0x0001);
    assert_eq!(tilt, 0xFFFF);
}

#[test]
fn apc_response_rejects_malformed() {
    assert!(matches!(
        parse_apc_response(b"xPC80008000"),
        Err(PtzError::ProtocolError(_))
    ));
    assert!(matches!(parse_apc_response(b"aPC8000"), Err(PtzError::ProtocolError(_))));
    assert!(matches!(
        parse_apc_response(b"aPCZZZZ8000"),
        Err(PtzError::ProtocolError(_))
    ));
}

#[test]
fn gz_response_parsing() {
    assert_eq!(parse_gz_response(b"gz555").unwrap(), 0x555);
    assert!(matches!(parse_gz_response(b"oops"), Err(PtzError::ProtocolError(_))));
    assert!(matches!(parse_gz_response(b"gzXYZ"), Err(PtzError::ProtocolError(_))));
}

#[test]
fn position_from_responses() {
    let pos = aw_position_from_responses(b"aPC80008000", b"gz555").unwrap();
    assert_eq!(pos.pan, 0);
    assert_eq!(pos.tilt, 0);
    assert_eq!(pos.zoom, 0);
    let pos = aw_position_from_responses(b"aPCFFFF0001", b"gzFFF").unwrap();
    assert_eq!(pos.pan, 1000);
    assert_eq!(pos.tilt, -1000);
    assert_eq!(pos.zoom, 1000);
    // a zoom response with another prefix is a protocol error
    assert!(matches!(
        aw_position_from_responses(b"aPC80008000", b"er"),
        Err(PtzError::ProtocolError(_))
    ));
}

#[test]
fn aw_pan_round_trip_is_exact() {
    for &val in &[-1000i32, -700, -1, 0, 1, 333, 1000] {
        let native = aw_pan_value_of(val);
        assert_eq!(aw_axis_to_normalized(native), val);
    }
}

#[test]
fn aw_zoom_round_trip_is_exact() {
    for &val in &[0i32, 1, 250, 500, 999, 1000] {
        let native = aw_zoom_value_of(val);
        assert_eq!(aw_zoom_to_normalized(native), val);
    }
}

#[test]
fn position_round_trip_through_replies() {
    for &(p, t, z) in &[(0, 0, 0), (500, -300, 800), (-1000, 1000, 1000), (1, -1, 999)] {
        let mut pt = String::from("aPC");
        pt.push_str(&normalize_to_pan_hex(p));
        pt.push_str(&normalize_to_tilt_hex(t));
        let mut zr = String::from("gz");
        zr.push_str(&normalize_to_zoom_hex(z));
        let pos = aw_position_from_responses(pt.as_bytes(), zr.as_bytes()).unwrap();
        assert_eq!((pos.pan, pos.tilt, pos.zoom), (p, t, z));
    }
}
