//! The simulated controller: clamping, accumulation, and presets.

use ptzcam::controller::{PtzController, PtzError};
use ptzcam::simulator::SimulatedController;

#[test]
fn new_controller_starts_at_origin() {
    let ctrl = SimulatedController::new();
    let pos = ctrl.get_position().unwrap();
    assert_eq!(pos.pan, 0);
    assert_eq!(pos.tilt, 0);
    assert_eq!(pos.zoom, 0);
}

#[test]
fn move_absolute_sets_position() {
    let mut ctrl = SimulatedController::new();
    ctrl.move_absolute(500, -300, 800).unwrap();
    let pos = ctrl.get_position().unwrap();
    assert_eq!(pos.pan, 500);
    assert_eq!(pos.tilt, -300);
    assert_eq!(pos.zoom, 800);
}

#[test]
fn move_absolute_clamps_values() {
    let mut ctrl = SimulatedController::new();
    ctrl.move_absolute(2000, -5000, 3000).unwrap();
    let pos = ctrl.get_position().unwrap();
    assert_eq!(pos.pan, 1000);
    assert_eq!(pos.tilt, -1000);
    assert_eq!(pos.zoom, 1000);
}

#[test]
fn move_absolute_clamps_zoom_lower_bound() {
    let mut ctrl = SimulatedController::new();
    ctrl.move_absolute(0, 0, -1000).unwrap();
    let pos = ctrl.get_position().unwrap();
    assert_eq!(pos.zoom, 0);
}

#[test]
fn move_relative_adds_deltas() {
    let mut ctrl = SimulatedController::new();
    ctrl.move_absolute(200, 300, 500).unwrap();
    ctrl.move_relative(100, -200).unwrap();
    let pos = ctrl.get_position().unwrap();
    assert_eq!(pos.pan, 300);
    assert_eq!(pos.tilt, 100);
    assert_eq!(pos.zoom, 500);
}

#[test]
fn move_relative_clamps_at_bounds() {
    let mut ctrl = SimulatedController::new();
    ctrl.move_absolute(900, -900, 0).unwrap();
    ctrl.move_relative(500, -500).unwrap();
    let pos = ctrl.get_position().unwrap();
    assert_eq!(pos.pan, 1000);
    assert_eq!(pos.tilt, -1000);
}

#[test]
fn zoom_to_sets_zoom() {
    let mut ctrl = SimulatedController::new();
    ctrl.zoom_to(750).unwrap();
    let pos = ctrl.get_position().unwrap();
    assert_eq!(pos.zoom, 750);
}

#[test]
fn zoom_to_clamps() {
    let mut ctrl = SimulatedController::new();
    ctrl.zoom_to(1500).unwrap();
    assert_eq!(ctrl.get_position().unwrap().zoom, 1000);
    ctrl.zoom_to(-500).unwrap();
    assert_eq!(ctrl.get_position().unwrap().zoom, 0);
}

#[test]
fn preset_store_and_recall() {
    let mut ctrl = SimulatedController::new();
    ctrl.move_absolute(500, -300, 800).unwrap();
    ctrl.store_preset(1).unwrap();

    ctrl.move_absolute(0, 0, 0).unwrap();
    ctrl.recall_preset(1).unwrap();

    let pos = ctrl.get_position().unwrap();
    assert_eq!(pos.pan, 500);
    assert_eq!(pos.tilt, -300);
    assert_eq!(pos.zoom, 800);
}

#[test]
fn recall_missing_preset_returns_error() {
    let mut ctrl = SimulatedController::new();
    let result = ctrl.recall_preset(99);
    assert!(result.is_err());
    let err = result.unwrap_err();
    assert!(matches!(err, PtzError::CommandFailed(_)));
    assert!(err.message().contains("99"));
    assert_eq!(err.message(), "Command failed: No preset stored at index 99");
}

#[test]
fn multiple_presets_independent() {
    let mut ctrl = SimulatedController::new();

    ctrl.move_absolute(100, 200, 300).unwrap();
    ctrl.store_preset(1).unwrap();

    ctrl.move_absolute(400, 500, 600).unwrap();
    ctrl.store_preset(2).unwrap();

    ctrl.recall_preset(1).unwrap();
    let pos = ctrl.get_position().unwrap();
    assert_eq!(pos.pan, 100);
    assert_eq!(pos.tilt, 200);
    assert_eq!(pos.zoom, 300);

    ctrl.recall_preset(2).unwrap();
    let pos = ctrl.get_position().unwrap();
    assert_eq!(pos.pan, 400);
    assert_eq!(pos.tilt, 500);
    assert_eq!(pos.zoom, 600);
}

#[test]
fn test_connection_always_succeeds() {
    let ctrl = SimulatedController::new();
    assert!(ctrl.test_connection().is_ok());
}

#[test]
fn home_returns_to_origin() {
    let mut ctrl = SimulatedController::new();
    ctrl.move_absolute(500, 500, 500).unwrap();
    ctrl.home().unwrap();
    let pos = ctrl.get_position().unwrap();
    assert_eq!(pos.pan, 0);
    assert_eq!(pos.tilt, 0);
    assert_eq!(pos.zoom, 0);
}

#[test]
fn optional_capabilities_default_to_ok() {
    let mut ctrl = SimulatedController::new();
    assert!(ctrl.continuous_move(500, 500).is_ok());
    assert!(ctrl.stop().is_ok());
    assert!(ctrl.focus_continuous(100).is_ok());
    assert!(ctrl.set_autofocus(true).is_ok());
    assert!(ctrl.autofocus_trigger().is_ok());
    assert!(ctrl.focus_stop().is_ok());
}
