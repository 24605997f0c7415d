//! VISCA command encoding and response parsing against known bytes.

use ptzcam::visca::commands::{
    autofocus_off, autofocus_on, autofocus_trigger, build_visca_packet, focus_far, focus_near,
    focus_stop, normalize_to_visca_pan, normalize_to_visca_tilt, normalize_to_visca_zoom,
    pan_tilt_absolute, pan_tilt_home, pan_tilt_position_inquiry, pan_tilt_relative, pan_tilt_stop,
    parse_pan_tilt_response, parse_zoom_response, preset_recall, preset_store,
    visca_pan_to_normalized, visca_tilt_to_normalized, visca_zoom_to_normalized, ViscaIpHeader,
    zoom_absolute, zoom_position_inquiry,
};

#[test]
fn pan_round_trip() {
    for &val in &[-1000i32, -500, 0, 500, 1000] {
        let visca = normalize_to_visca_pan(val);
        let back = visca_pan_to_normalized(visca);
        assert!(
            (back - val).abs() < 10,
            "pan round trip failed: {val} -> {visca} -> {back}"
        );
    }
}

#[test]
fn tilt_round_trip() {
    for &val in &[-1000i32, -500, 0, 500, 1000] {
        let visca = normalize_to_visca_tilt(val);
        let back = visca_tilt_to_normalized(visca);
        assert!(
            (back - val).abs() < 10,
            "tilt round trip failed: {val} -> {visca} -> {back}"
        );
    }
}

#[test]
fn zoom_round_trip() {
    for &val in &[0i32, 250, 500, 750, 1000] {
        let visca = normalize_to_visca_zoom(val);
        let back = visca_zoom_to_normalized(visca);
        assert!(
            (back - val).abs() < 10,
            "zoom round trip failed: {val} -> {visca} -> {back}"
        );
    }
}

#[test]
fn pan_normalization_native_range() {
    assert_eq!(normalize_to_visca_pan(1000), 880);
    assert_eq!(normalize_to_visca_pan(-1000), -880);
    assert_eq!(normalize_to_visca_pan(0), 0);
    assert_eq!(normalize_to_visca_pan(2000), 880);
    assert_eq!(normalize_to_visca_pan(-2000), -880);
}

#[test]
fn tilt_normalization_native_range() {
    assert_eq!(normalize_to_visca_tilt(1000), 288);
    assert_eq!(normalize_to_visca_tilt(-1000), -400);
    assert_eq!(normalize_to_visca_tilt(0), -56);
}

#[test]
fn zoom_normalization_native_range() {
    assert_eq!(normalize_to_visca_zoom(0), 0);
    assert_eq!(normalize_to_visca_zoom(1000), 0x4000);
    assert_eq!(normalize_to_visca_zoom(500), 0x2000);
    assert_eq!(normalize_to_visca_zoom(1500), 0x4000);
}

#[test]
fn parse_pan_tilt_known_bytes() {
    // Pan = 0x0370 (880), Tilt = 0x0120 (288)
    let payload = [
        0x90, 0x50, 0x00, 0x03, 0x07, 0x00, 0x00, 0x01, 0x02, 0x00, 0xFF,
    ];
    let (pan, tilt) = parse_pan_tilt_response(&payload).unwrap();
    assert_eq!(pan, 0x0370);
    assert_eq!(tilt, 0x0120);
}

#[test]
fn parse_pan_tilt_center() {
    let payload = [
        0x90, 0x50, 0x00, 0x00, 0x00, 0x00, 0x00, 0x00, 0x00, 0x00, 0xFF,
    ];
    let (pan, tilt) = parse_pan_tilt_response(&payload).unwrap();
    assert_eq!(pan, 0);
    assert_eq!(tilt, 0);
}

#[test]
fn parse_pan_tilt_negative_value() {
    // Pan = 0xFC90 (-880)
    let payload = [
        0x90, 0x50, 0x0F, 0x0C, 0x09, 0x00, 0x00, 0x00, 0x00, 0x00, 0xFF,
    ];
    let (pan, tilt) = parse_pan_tilt_response(&payload).unwrap();
    assert_eq!(pan, -880);
    assert_eq!(tilt, 0);
}

#[test]
fn parse_pan_tilt_rejects_short() {
    let payload = [0x90, 0x50, 0x00];
    assert!(parse_pan_tilt_response(&payload).is_none());
}

#[test]
fn parse_pan_tilt_rejects_wrong_header() {
    let payload = [
        0x90, 0x60, 0x00, 0x00, 0x00, 0x00, 0x00, 0x00, 0x00, 0x00, 0xFF,
    ];
    assert!(parse_pan_tilt_response(&payload).is_none());
}

#[test]
fn parse_zoom_known_bytes() {
    // Zoom = 0x4000
    let payload = [0x90, 0x50, 0x04, 0x00, 0x00, 0x00, 0xFF];
    let zoom = parse_zoom_response(&payload).unwrap();
    assert_eq!(zoom, 0x4000);
}

#[test]
fn parse_zoom_rejects_short() {
    let payload = [0x90, 0x50, 0x00];
    assert!(parse_zoom_response(&payload).is_none());
}

#[test]
fn home_command_encoding() {
    assert_eq!(pan_tilt_home(), vec![0x81, 0x01, 0x06, 0x04, 0xFF]);
}

#[test]
fn focus_command_encodings() {
    assert_eq!(focus_far(), vec![0x81, 0x01, 0x04, 0x08, 0x02, 0xFF]);
    assert_eq!(focus_near(), vec![0x81, 0x01, 0x04, 0x08, 0x03, 0xFF]);
    assert_eq!(focus_stop(), vec![0x81, 0x01, 0x04, 0x08, 0x00, 0xFF]);
    assert_eq!(autofocus_on(), vec![0x81, 0x01, 0x04, 0x38, 0x02, 0xFF]);
    assert_eq!(autofocus_off(), vec![0x81, 0x01, 0x04, 0x38, 0x03, 0xFF]);
    assert_eq!(autofocus_trigger(), vec![0x81, 0x01, 0x04, 0x18, 0x01, 0xFF]);
}

#[test]
fn stop_command_encoding() {
    assert_eq!(
        pan_tilt_stop(),
        vec![0x81, 0x01, 0x06, 0x01, 0x00, 0x00, 0x03, 0x03, 0xFF]
    );
}

#[test]
fn preset_command_encodings() {
    assert_eq!(
        preset_recall(5),
        vec![0x81, 0x01, 0x04, 0x3F, 0x02, 0x05, 0xFF]
    );
    assert_eq!(
        preset_store(7),
        vec![0x81, 0x01, 0x04, 0x3F, 0x01, 0x07, 0xFF]
    );
}

#[test]
fn inquiry_command_encodings() {
    assert_eq!(pan_tilt_position_inquiry(), vec![0x81, 0x09, 0x06, 0x12, 0xFF]);
    assert_eq!(zoom_position_inquiry(), vec![0x81, 0x09, 0x04, 0x47, 0xFF]);
}

#[test]
fn pan_tilt_absolute_nibble_packing() {
    // Pan 880 = 0x0370, tilt 288 = 0x0120
    assert_eq!(
        pan_tilt_absolute(0x0C, 0x0C, 880, 288),
        vec![
            0x81, 0x01, 0x06, 0x02, 0x0C, 0x0C, 0x00, 0x03, 0x07, 0x00, 0x00, 0x01, 0x02, 0x00,
            0xFF
        ]
    );
    // Pan -880 = 0xFC90
    assert_eq!(
        pan_tilt_absolute(0x18, 0x17, -880, 0),
        vec![
            0x81, 0x01, 0x06, 0x02, 0x18, 0x17, 0x0F, 0x0C, 0x09, 0x00, 0x00, 0x00, 0x00, 0x00,
            0xFF
        ]
    );
}

#[test]
fn pan_tilt_relative_encoding() {
    assert_eq!(
        pan_tilt_relative(0x0C, 0x0B, 0x01, 0x02),
        vec![0x81, 0x01, 0x06, 0x01, 0x0C, 0x0B, 0x01, 0x02, 0xFF]
    );
}

#[test]
fn zoom_absolute_nibble_packing() {
    assert_eq!(
        zoom_absolute(0x4000),
        vec![0x81, 0x01, 0x04, 0x47, 0x04, 0x00, 0x00, 0x00, 0xFF]
    );
    assert_eq!(
        zoom_absolute(0x1234),
        vec![0x81, 0x01, 0x04, 0x47, 0x01, 0x02, 0x03, 0x04, 0xFF]
    );
}

#[test]
fn header_encoding() {
    let header = ViscaIpHeader::new_command(5, 0x01020304);
    assert_eq!(
        header.to_bytes(),
        vec![0x01, 0x00, 0x00, 0x05, 0x01, 0x02, 0x03, 0x04]
    );
}

#[test]
fn packet_framing() {
    let payload = [0x81u8, 0x09, 0x04, 0x47, 0xFF];
    assert_eq!(
        build_visca_packet(&payload, 1),
        vec![0x01, 0x00, 0x00, 0x05, 0x00, 0x00, 0x00, 0x01, 0x81, 0x09, 0x04, 0x47, 0xFF]
    );
}
