//! Protocol-abstraction core for pan-tilt-zoom (PTZ) camera control.
//!
//! Cameras that speak incompatible wire protocols (VISCA-over-IP, the
//! Panasonic AW CGI dialect, a generic REST API) are driven through one
//! normalized command interface.  Normalized pan and tilt values range
//! over [-1, 1] and zoom over [0, 1]; this crate stores them in
//! fixed-point thousandths (see [`norm`]).  Each protocol module maps
//! that space onto its native value ranges and builds and parses the
//! exact command bytes; transports (UDP sockets, HTTP requests) live
//! outside this crate and carry the bytes produced here.

pub mod controller;
pub mod birddog;
pub mod endpoints;
pub mod ndi;
pub mod norm;
pub mod panasonic;
pub mod simulator;
pub mod text;
pub mod types;
pub mod visca;
