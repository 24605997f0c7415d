//! The VISCA client core: sequence numbering, relative-move
//! parameters, and position decoding.

use ptzcam::controller::PtzError;
use ptzcam::visca::client::{
    visca_autofocus_payload, visca_continuous_payload, visca_focus_payload,
    visca_move_absolute_payloads, visca_position_from_responses, visca_relative_payload,
    ViscaClient,
};

#[test]
fn new_client_rejects_invalid_host() {
    let err = ViscaClient::new("192.168.1.1/24", 52381).unwrap_err();
    assert!(matches!(err, PtzError::ConnectionFailed(_)));
    assert!(err.message().contains("192.168.1.1/24"));
}

#[test]
fn new_client_accepts_valid_host() {
    let client = ViscaClient::new("192.168.1.100", 52381).unwrap();
    assert_eq!(client.host(), "192.168.1.100");
    assert_eq!(client.port(), 52381);
}

#[test]
fn sequence_numbers_start_at_one_and_increase() {
    let mut client = ViscaClient::new("10.0.0.50", 52381).unwrap();
    let payload = [0x81u8, 0x09, 0x04, 0x47, 0xFF];
    let first = client.next_packet(&payload);
    let second = client.next_packet(&payload);
    assert_eq!(&first[4..8], &[0x00, 0x00, 0x00, 0x01]);
    assert_eq!(&second[4..8], &[0x00, 0x00, 0x00, 0x02]);
    assert_eq!(&first[8..], &payload[..]);
}

#[test]
fn relative_payload_deadband_is_none() {
    assert!(visca_relative_payload(5, -5).is_none());
    assert!(visca_relative_payload(0, 0).is_none());
    assert!(visca_relative_payload(9, 9).is_none());
}

#[test]
fn relative_payload_direction_and_speed() {
    // 0.5 right, 0.5 down: speed ceil(0.5*24)=12, ceil(0.5*23)=12
    let v = visca_relative_payload(500, -500).unwrap();
    assert_eq!(v, vec![0x81, 0x01, 0x06, 0x01, 12, 12, 0x02, 0x02, 0xFF]);
    // full-speed left and up
    let v = visca_relative_payload(-1000, 1000).unwrap();
    assert_eq!(v, vec![0x81, 0x01, 0x06, 0x01, 24, 23, 0x01, 0x01, 0xFF]);
    // pan only: tilt axis idles at minimum speed with stop direction
    let v = visca_relative_payload(1000, 0).unwrap();
    assert_eq!(v, vec![0x81, 0x01, 0x06, 0x01, 24, 1, 0x02, 0x03, 0xFF]);
}

#[test]
fn continuous_payload_stops_inside_deadband() {
    assert_eq!(
        visca_continuous_payload(0, 0),
        vec![0x81, 0x01, 0x06, 0x01, 0x00, 0x00, 0x03, 0x03, 0xFF]
    );
    assert_eq!(
        visca_continuous_payload(250, 0),
        vec![0x81, 0x01, 0x06, 0x01, 6, 1, 0x02, 0x03, 0xFF]
    );
}

#[test]
fn focus_payload_choice() {
    assert_eq!(visca_focus_payload(500), vec![0x81, 0x01, 0x04, 0x08, 0x02, 0xFF]);
    assert_eq!(visca_focus_payload(-500), vec![0x81, 0x01, 0x04, 0x08, 0x03, 0xFF]);
    assert_eq!(visca_focus_payload(0), vec![0x81, 0x01, 0x04, 0x08, 0x00, 0xFF]);
}

#[test]
fn autofocus_payload_choice() {
    assert_eq!(visca_autofocus_payload(true), vec![0x81, 0x01, 0x04, 0x38, 0x02, 0xFF]);
    assert_eq!(visca_autofocus_payload(false), vec![0x81, 0x01, 0x04, 0x38, 0x03, 0xFF]);
}

#[test]
fn move_absolute_payloads_encode_both_commands() {
    let (pt, zoom) = visca_move_absolute_payloads(1000, 1000, 1000);
    // pan 880 = 0x0370, tilt 288 = 0x0120, zoom 0x4000
    assert_eq!(
        pt,
        vec![
            0x81, 0x01, 0x06, 0x02, 0x0C, 0x0C, 0x00, 0x03, 0x07, 0x00, 0x00, 0x01, 0x02, 0x00,
            0xFF
        ]
    );
    assert_eq!(zoom, vec![0x81, 0x01, 0x04, 0x47, 0x04, 0x00, 0x00, 0x00, 0xFF]);
}

#[test]
fn position_decodes_framed_responses() {
    // 8 header bytes, then pan 0x0370 / tilt 0x0120, then zoom 0x2000.
    let pt = [
        0x01, 0x11, 0x00, 0x0B, 0x00, 0x00, 0x00, 0x09, // header
        0x90, 0x50, 0x00, 0x03, 0x07, 0x00, 0x00, 0x01, 0x02, 0x00, 0xFF,
    ];
    let z = [
        0x01, 0x11, 0x00, 0x07, 0x00, 0x00, 0x00, 0x0A, // header
        0x90, 0x50, 0x02, 0x00, 0x00, 0x00, 0xFF,
    ];
    let pos = visca_position_from_responses(&pt, &z).unwrap();
    assert_eq!(pos.pan, 1000);
    assert_eq!(pos.tilt, 1000);
    assert_eq!(pos.zoom, 500);
}

#[test]
fn position_decodes_unframed_zoom_response() {
    // A pan/tilt response longer than 8 bytes is always taken as
    // framed; a zoom response of at most 8 bytes is read bare.
    let pt = [
        0x01, 0x11, 0x00, 0x0B, 0x00, 0x00, 0x00, 0x0B, // header
        0x90, 0x50, 0x00, 0x00, 0x00, 0x00, 0x00, 0x00, 0x00, 0x00, 0xFF,
    ];
    let z = [0x90, 0x50, 0x00, 0x00, 0x00, 0x00, 0xFF];
    let pos = visca_position_from_responses(&pt, &z).unwrap();
    assert_eq!(pos.pan, 0);
    // native tilt 0 reads back as the normalized center of the
    // asymmetric range: round(56 * 1000 / 344) = 163
    assert_eq!(pos.tilt, 163);
    assert_eq!(pos.zoom, 0);
}

#[test]
fn position_rejects_malformed_responses() {
    let good_pt = [0x90, 0x50, 0x00, 0x00, 0x00, 0x00, 0x00, 0x00, 0x00, 0x00, 0xFF];
    let bad = [0x90, 0x60, 0x00];
    let err = visca_position_from_responses(&bad, &good_pt).unwrap_err();
    assert!(matches!(err, PtzError::ProtocolError(_)));
    let err = visca_position_from_responses(&good_pt, &bad).unwrap_err();
    assert!(matches!(err, PtzError::ProtocolError(_)));
}
