//! Generic REST codec: request bodies, paths, and position assembly.
//! Also the NDI stubs, which share the REST clients' controller role.

use ptzcam::birddog::{
    birddog_about_path, birddog_move_absolute_body, birddog_move_relative_body,
    birddog_position_from_fields, birddog_position_path, birddog_preset_body, birddog_ptz_path,
    birddog_recall_path, birddog_store_path, birddog_zoom_body,
};
use ptzcam::ndi::{NdiFinder, NdiReceiver};

#[test]
fn move_absolute_body_renders_all_axes() {
    assert_eq!(
        birddog_move_absolute_body(500, -300, 800),
        "{\"pan\":0.500,\"tilt\":-0.300,\"zoom\":0.800,\"mode\":\"absolute\"}"
    );
    assert_eq!(
        birddog_move_absolute_body(-1000, 1000, 0),
        "{\"pan\":-1.000,\"tilt\":1.000,\"zoom\":0.000,\"mode\":\"absolute\"}"
    );
}

#[test]
fn move_absolute_body_clamps() {
    assert_eq!(
        birddog_move_absolute_body(5000, -5000, 5000),
        "{\"pan\":1.000,\"tilt\":-1.000,\"zoom\":1.000,\"mode\":\"absolute\"}"
    );
}

#[test]
fn move_relative_body_renders_deltas() {
    assert_eq!(
        birddog_move_relative_body(100, -200),
        "{\"pan\":0.100,\"tilt\":-0.200,\"mode\":\"relative\"}"
    );
}

#[test]
fn zoom_body_renders_zoom() {
    assert_eq!(birddog_zoom_body(750), "{\"zoom\":0.750,\"mode\":\"absolute\"}");
}

#[test]
fn preset_body_renders_index() {
    assert_eq!(birddog_preset_body(5), "{\"preset\":5}");
    assert_eq!(birddog_preset_body(42), "{\"preset\":42}");
    assert_eq!(birddog_preset_body(255), "{\"preset\":255}");
}

#[test]
fn request_paths() {
    assert_eq!(birddog_ptz_path(), "ptz");
    assert_eq!(birddog_recall_path(), "recall");
    assert_eq!(birddog_store_path(), "store");
    assert_eq!(birddog_position_path(), "ptz/position");
    assert_eq!(birddog_about_path(), "about");
}

#[test]
fn position_missing_fields_read_as_zero() {
    let pos = birddog_position_from_fields(None, None, None);
    assert_eq!(pos.pan, 0);
    assert_eq!(pos.tilt, 0);
    assert_eq!(pos.zoom, 0);
}

#[test]
fn position_fields_clamped_into_range() {
    let pos = birddog_position_from_fields(Some(1500), Some(-1500), Some(2000));
    assert_eq!(pos.pan, 1000);
    assert_eq!(pos.tilt, -1000);
    assert_eq!(pos.zoom, 1000);
    let pos = birddog_position_from_fields(Some(250), None, Some(900));
    assert_eq!(pos.pan, 250);
    assert_eq!(pos.tilt, 0);
    assert_eq!(pos.zoom, 900);
}

#[test]
fn ndi_discovery_is_unavailable() {
    assert!(NdiFinder::new().is_none());
    assert!(NdiReceiver::connect("CAM (chan 1)").is_none());
}
