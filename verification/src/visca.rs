//! VISCA-over-IP: command byte encoding and the verified client core.

pub mod client;
pub mod commands;
