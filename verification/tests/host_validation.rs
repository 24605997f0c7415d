//! Host string validation and the shared data model types.

use ptzcam::types::{validate_host, ProtocolConfig, PtzCommand, PtzPosition, PtzProtocol};

#[test]
fn validate_host_accepts_ip_address() {
    assert!(validate_host("192.168.1.100").is_ok());
}

#[test]
fn validate_host_accepts_hostname() {
    assert!(validate_host("camera-1.local").is_ok());
}

#[test]
fn validate_host_accepts_ipv6_shorthand() {
    assert!(validate_host("::1").is_ok());
}

#[test]
fn validate_host_rejects_empty() {
    assert!(validate_host("").is_err());
}

#[test]
fn validate_host_rejects_forward_slash() {
    assert!(validate_host("192.168.1.1/24").is_err());
}

#[test]
fn validate_host_rejects_backslash() {
    assert!(validate_host("host\\path").is_err());
}

#[test]
fn validate_host_rejects_spaces() {
    assert!(validate_host("host name").is_err());
}

#[test]
fn validate_host_rejects_at_sign() {
    assert!(validate_host("user@host").is_err());
}

#[test]
fn validate_host_rejects_special_characters() {
    assert!(validate_host("host;rm -rf").is_err());
}

#[test]
fn validate_host_error_messages() {
    assert_eq!(validate_host("").unwrap_err(), "Host cannot be empty");
    assert_eq!(
        validate_host("user@host").unwrap_err(),
        "Invalid host: 'user@host'"
    );
    assert_eq!(
        validate_host("host;rm").unwrap_err(),
        "Invalid host characters: 'host;rm'"
    );
}

#[test]
fn ptz_position_default_is_origin() {
    let pos = PtzPosition::default();
    assert_eq!(pos.pan, 0);
    assert_eq!(pos.tilt, 0);
    assert_eq!(pos.zoom, 0);
}

#[test]
fn protocol_config_default_is_ndi() {
    let config = ProtocolConfig::default();
    match config {
        ProtocolConfig::Ndi => {}
        _ => panic!("Expected Ndi default"),
    }
}

#[test]
fn protocol_config_clone_keeps_fields() {
    let config = ProtocolConfig::PanasonicAw {
        host: "10.0.0.1".to_string(),
        port: 80,
        username: Some("admin".to_string()),
        password: Some("secret".to_string()),
    };
    match config.clone() {
        ProtocolConfig::PanasonicAw {
            host,
            port,
            username,
            password,
        } => {
            assert_eq!(host, "10.0.0.1");
            assert_eq!(port, 80);
            assert_eq!(username.as_deref(), Some("admin"));
            assert_eq!(password.as_deref(), Some("secret"));
        }
        _ => panic!("Expected PanasonicAw"),
    }
}

#[test]
fn ptz_command_carries_normalized_values() {
    let cmd = PtzCommand::MoveAbsolute {
        pan: 100,
        tilt: 200,
        zoom: 300,
    };
    match cmd {
        PtzCommand::MoveAbsolute { pan, tilt, zoom } => {
            assert_eq!(pan, 100);
            assert_eq!(tilt, 200);
            assert_eq!(zoom, 300);
        }
        _ => panic!("Expected MoveAbsolute"),
    }
    assert_eq!(PtzProtocol::Visca, PtzProtocol::Visca);
}
