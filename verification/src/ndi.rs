//! NDI stubs. The NDI SDK is proprietary and not linked, so discovery
//! finds nothing and the PTZ controller reports a connection failure
//! on every operation.

use crate::controller::{PtzController, PtzError};
use crate::types::PtzPosition;
use vstd::prelude::*;
use vstd::string::*;

verus! {

/// A discovered NDI source on the network.
#[derive(Debug)]
pub struct NdiSource {
    pub name: String,
    pub url: String,
}

impl Clone for NdiSource {
    fn clone(&self) -> (r: Self)
        ensures
            r == *self,
    {
        NdiSource { name: self.name.clone(), url: self.url.clone() }
    }
}

/// NDI source finder stub; unavailable without the SDK.
pub struct NdiFinder;

impl NdiFinder {
    pub fn new() -> (r: Option<Self>)
        ensures
            r is None,
    {
        None
    }

    pub fn get_sources(&self) -> (r: Vec<NdiSource>)
        ensures
            r@ == Seq::<NdiSource>::empty(),
    {
        Vec::new()
    }
}

/// NDI video receiver stub; never connects without the SDK.
pub struct NdiReceiver;

impl NdiReceiver {
    pub fn connect(source_name: &str) -> (r: Option<Self>)
        ensures
            r is None,
    {
        let _ = source_name;
        None
    }
}

/// The detail string of every stub failure.
pub open spec fn ndi_unavailable_detail() -> Seq<char> {
    "NDI SDK not linked"@
}

/// NDI PTZ controller stub: every operation fails with a connection
/// failure naming the missing SDK.
pub struct NdiPtzController;

impl NdiPtzController {
    pub fn new() -> (c: Self) {
        NdiPtzController
    }
}

impl Default for NdiPtzController {
    fn default() -> (c: Self) {
        NdiPtzController::new()
    }
}

impl PtzController for NdiPtzController {
    open spec fn inv(&self) -> bool {
        true
    }

    fn move_absolute(&mut self, pan: i32, tilt: i32, zoom: i32) -> (r: Result<(), PtzError>)
        ensures
            r matches Err(e) && e matches PtzError::ConnectionFailed(m) && m@
                == ndi_unavailable_detail(),
    {
        let _ = (pan, tilt, zoom);
        Err(PtzError::ConnectionFailed(String::from_str("NDI SDK not linked")))
    }

    fn move_relative(&mut self, pan_delta: i32, tilt_delta: i32) -> (r: Result<(), PtzError>)
        ensures
            r matches Err(e) && e matches PtzError::ConnectionFailed(m) && m@
                == ndi_unavailable_detail(),
    {
        let _ = (pan_delta, tilt_delta);
        Err(PtzError::ConnectionFailed(String::from_str("NDI SDK not linked")))
    }

    fn zoom_to(&mut self, zoom: i32) -> (r: Result<(), PtzError>)
        ensures
            r matches Err(e) && e matches PtzError::ConnectionFailed(m) && m@
                == ndi_unavailable_detail(),
    {
        let _ = zoom;
        Err(PtzError::ConnectionFailed(String::from_str("NDI SDK not linked")))
    }

    fn recall_preset(&mut self, preset_index: u8) -> (r: Result<(), PtzError>)
        ensures
            r matches Err(e) && e matches PtzError::ConnectionFailed(m) && m@
                == ndi_unavailable_detail(),
    {
        let _ = preset_index;
        Err(PtzError::ConnectionFailed(String::from_str("NDI SDK not linked")))
    }

    fn store_preset(&mut self, preset_index: u8) -> (r: Result<(), PtzError>)
        ensures
            r matches Err(e) && e matches PtzError::ConnectionFailed(m) && m@
                == ndi_unavailable_detail(),
    {
        let _ = preset_index;
        Err(PtzError::ConnectionFailed(String::from_str("NDI SDK not linked")))
    }

    fn get_position(&self) -> (r: Result<PtzPosition, PtzError>)
        ensures
            r matches Err(e) && e matches PtzError::ConnectionFailed(m) && m@
                == ndi_unavailable_detail(),
    {
        Err(PtzError::ConnectionFailed(String::from_str("NDI SDK not linked")))
    }

    fn test_connection(&self) -> (r: Result<(), PtzError>)
        ensures
            r matches Err(e) && e matches PtzError::ConnectionFailed(m) && m@
                == ndi_unavailable_detail(),
    {
        Err(PtzError::ConnectionFailed(String::from_str("NDI SDK not linked")))
    }
}

} // verus!
