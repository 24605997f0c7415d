//! The protocol-agnostic controller contract, the shared error
//! taxonomy, and the dispatcher that forwards commands to whichever
//! controller is currently installed.

use crate::types::PtzPosition;
use vstd::prelude::*;
use vstd::string::*;

verus! {

/// The closed error taxonomy shared by every protocol client. All
/// variants but [`PtzError::NotConnected`] carry a human-readable
/// detail string.
#[derive(Debug)]
pub enum PtzError {
    ConnectionFailed(String),
    CommandFailed(String),
    Timeout(String),
    ProtocolError(String),
    NotConnected,
}

impl Clone for PtzError {
    fn clone(&self) -> (r: Self)
        ensures
            r == *self,
    {
        match self {
            PtzError::ConnectionFailed(d) => PtzError::ConnectionFailed(d.clone()),
            PtzError::CommandFailed(d) => PtzError::CommandFailed(d.clone()),
            PtzError::Timeout(d) => PtzError::Timeout(d.clone()),
            PtzError::ProtocolError(d) => PtzError::ProtocolError(d.clone()),
            PtzError::NotConnected => PtzError::NotConnected,
        }
    }
}

impl PtzError {
    /// The full human-readable message of this error.
    pub open spec fn message_spec(&self) -> Seq<char> {
        match self {
            PtzError::ConnectionFailed(d) => "Connection failed: "@ + d@,
            PtzError::CommandFailed(d) => "Command failed: "@ + d@,
            PtzError::Timeout(d) => "Timeout: "@ + d@,
            PtzError::ProtocolError(d) => "Protocol error: "@ + d@,
            PtzError::NotConnected => "Not connected"@,
        }
    }

    /// Render the error as its message: the kind, then the detail.
    pub fn message(&self) -> (m: String)
        ensures
            m@ == self.message_spec(),
    {
        match self {
            PtzError::ConnectionFailed(d) => {
                let mut m = String::from_str("Connection failed: ");
                m.append(d.as_str());
                m
            },
            PtzError::CommandFailed(d) => {
                let mut m = String::from_str("Command failed: ");
                m.append(d.as_str());
                m
            },
            PtzError::Timeout(d) => {
                let mut m = String::from_str("Timeout: ");
                m.append(d.as_str());
                m
            },
            PtzError::ProtocolError(d) => {
                let mut m = String::from_str("Protocol error: ");
                m.append(d.as_str());
                m
            },
            PtzError::NotConnected => String::from_str("Not connected"),
        }
    }
}

/// The protocol-agnostic PTZ controller contract. Every protocol
/// client implements it: the in-memory simulator in this crate, and
/// the transport-backed clients around it. Position arguments are
/// normalized thousandths (pan/tilt in [-1000, 1000], zoom in
/// [0, 1000]); inputs are not pre-validated, each implementation
/// clamps to its own legal range.
pub trait PtzController: Sized {
    /// Well-formedness that every operation preserves.
    spec fn inv(&self) -> bool;

    /// Move to an absolute position (normalized values).
    fn move_absolute(&mut self, pan: i32, tilt: i32, zoom: i32) -> (r: Result<(), PtzError>)
        requires
            old(self).inv(),
        ensures
            final(self).inv(),
    ;

    /// Move relative to the current position (normalized deltas).
    fn move_relative(&mut self, pan_delta: i32, tilt_delta: i32) -> (r: Result<(), PtzError>)
        requires
            old(self).inv(),
        ensures
            final(self).inv(),
    ;

    /// Set the zoom level (normalized [0, 1000]).
    fn zoom_to(&mut self, zoom: i32) -> (r: Result<(), PtzError>)
        requires
            old(self).inv(),
        ensures
            final(self).inv(),
    ;

    /// Recall a camera-native preset by index.
    fn recall_preset(&mut self, preset_index: u8) -> (r: Result<(), PtzError>)
        requires
            old(self).inv(),
        ensures
            final(self).inv(),
    ;

    /// Store the current position as a camera-native preset.
    fn store_preset(&mut self, preset_index: u8) -> (r: Result<(), PtzError>)
        requires
            old(self).inv(),
        ensures
            final(self).inv(),
    ;

    /// Query the current PTZ position from the camera; failures
    /// propagate rather than falling back to a cached value.
    fn get_position(&self) -> (r: Result<PtzPosition, PtzError>)
        requires
            self.inv(),
        ensures
            r matches Ok(p) ==> p.well_formed(),
    ;

    /// Test connectivity to the camera.
    fn test_connection(&self) -> (r: Result<(), PtzError>)
        requires
            self.inv(),
    ;

    /// Move to the home/center position. The default delegates to
    /// `move_absolute(0, 0, 0)` and returns that call's result.
    fn home(&mut self) -> (r: Result<(), PtzError>)
        requires
            old(self).inv(),
        ensures
            final(self).inv(),
    {
        self.move_absolute(0, 0, 0)
    }

    /// Start continuous pan/tilt movement at a given velocity
    /// (normalized thousandths per axis; 0 stops that axis).
    fn continuous_move(&mut self, pan_speed: i32, tilt_speed: i32) -> (r: Result<(), PtzError>)
        requires
            old(self).inv(),
        ensures
            final(self).inv(),
        default_ensures
            r is Ok,
            *final(self) == *old(self),
    {
        let _ = pan_speed;
        let _ = tilt_speed;
        Ok(())
    }

    /// Stop all movement.
    fn stop(&mut self) -> (r: Result<(), PtzError>)
        requires
            old(self).inv(),
        ensures
            final(self).inv(),
        default_ensures
            r is Ok,
            *final(self) == *old(self),
    {
        Ok(())
    }

    /// Start continuous focus movement; negative is near, positive far.
    fn focus_continuous(&mut self, speed: i32) -> (r: Result<(), PtzError>)
        requires
            old(self).inv(),
        ensures
            final(self).inv(),
        default_ensures
            r is Ok,
            *final(self) == *old(self),
    {
        let _ = speed;
        Ok(())
    }

    /// Toggle autofocus on or off.
    fn set_autofocus(&mut self, enabled: bool) -> (r: Result<(), PtzError>)
        requires
            old(self).inv(),
        ensures
            final(self).inv(),
        default_ensures
            r is Ok,
            *final(self) == *old(self),
    {
        let _ = enabled;
        Ok(())
    }

    /// One-push autofocus trigger.
    fn autofocus_trigger(&mut self) -> (r: Result<(), PtzError>)
        requires
            old(self).inv(),
        ensures
            final(self).inv(),
        default_ensures
            r is Ok,
            *final(self) == *old(self),
    {
        Ok(())
    }

    /// Stop focus movement.
    fn focus_stop(&mut self) -> (r: Result<(), PtzError>)
        requires
            old(self).inv(),
        ensures
            final(self).inv(),
        default_ensures
            r is Ok,
            *final(self) == *old(self),
    {
        Ok(())
    }
}

/// Routes PTZ commands to the active protocol-specific controller.
/// It holds zero or one controller; every forwarding operation fails
/// immediately with [`PtzError::NotConnected`] when none is installed,
/// without attempting any I/O. It performs no retries and no queuing.
pub struct PtzDispatcher<C: PtzController> {
    controller: Option<C>,
}

impl<C: PtzController> PtzDispatcher<C> {
    /// The currently installed controller, if any.
    pub closed spec fn controller_spec(&self) -> Option<C> {
        self.controller
    }

    /// The installed controller, if any, is well-formed.
    pub open spec fn wf(&self) -> bool {
        match self.controller_spec() {
            Some(c) => c.inv(),
            None => true,
        }
    }

    /// Whether a controller is currently installed.
    pub open spec fn connected(&self) -> bool {
        self.controller_spec() is Some
    }

    pub fn new() -> (d: Self)
        ensures
            !d.connected(),
            d.wf(),
    {
        PtzDispatcher { controller: None }
    }

    /// Install a controller, dropping and replacing any previous one.
    pub fn set_controller(&mut self, controller: C)
        requires
            controller.inv(),
        ensures
            final(self).controller_spec() == Some(controller),
            final(self).wf(),
    {
        self.controller = Some(controller);
    }

    /// Remove the active controller, if any.
    pub fn clear_controller(&mut self)
        ensures
            !final(self).connected(),
            final(self).wf(),
    {
        self.controller = None;
    }

    pub fn has_controller(&self) -> (r: bool)
        ensures
            r == self.connected(),
    {
        match &self.controller {
            Some(_) => true,
            None => false,
        }
    }

    pub fn move_absolute(&mut self, pan: i32, tilt: i32, zoom: i32) -> (r: Result<(), PtzError>)
        requires
            old(self).wf(),
        ensures
            final(self).wf(),
            final(self).connected() == old(self).connected(),
            !old(self).connected() ==> r == Err::<(), PtzError>(PtzError::NotConnected)
                && *final(self) == *old(self),
    {
        match &mut self.controller {
            Some(c) => c.move_absolute(pan, tilt, zoom),
            None => Err(PtzError::NotConnected),
        }
    }

    pub fn move_relative(&mut self, pan_delta: i32, tilt_delta: i32) -> (r: Result<(), PtzError>)
        requires
            old(self).wf(),
        ensures
            final(self).wf(),
            final(self).connected() == old(self).connected(),
            !old(self).connected() ==> r == Err::<(), PtzError>(PtzError::NotConnected)
                && *final(self) == *old(self),
    {
        match &mut self.controller {
            Some(c) => c.move_relative(pan_delta, tilt_delta),
            None => Err(PtzError::NotConnected),
        }
    }

    pub fn zoom_to(&mut self, zoom: i32) -> (r: Result<(), PtzError>)
        requires
            old(self).wf(),
        ensures
            final(self).wf(),
            final(self).connected() == old(self).connected(),
            !old(self).connected() ==> r == Err::<(), PtzError>(PtzError::NotConnected)
                && *final(self) == *old(self),
    {
        match &mut self.controller {
            Some(c) => c.zoom_to(zoom),
            None => Err(PtzError::NotConnected),
        }
    }

    pub fn recall_preset(&mut self, preset_index: u8) -> (r: Result<(), PtzError>)
        requires
            old(self).wf(),
        ensures
            final(self).wf(),
            final(self).connected() == old(self).connected(),
            !old(self).connected() ==> r == Err::<(), PtzError>(PtzError::NotConnected)
                && *final(self) == *old(self),
    {
        match &mut self.controller {
            Some(c) => c.recall_preset(preset_index),
            None => Err(PtzError::NotConnected),
        }
    }

    pub fn store_preset(&mut self, preset_index: u8) -> (r: Result<(), PtzError>)
        requires
            old(self).wf(),
        ensures
            final(self).wf(),
            final(self).connected() == old(self).connected(),
            !old(self).connected() ==> r == Err::<(), PtzError>(PtzError::NotConnected)
                && *final(self) == *old(self),
    {
        match &mut self.controller {
            Some(c) => c.store_preset(preset_index),
            None => Err(PtzError::NotConnected),
        }
    }

    pub fn get_position(&self) -> (r: Result<PtzPosition, PtzError>)
        requires
            self.wf(),
        ensures
            !self.connected() ==> r == Err::<PtzPosition, PtzError>(PtzError::NotConnected),
            self.connected() ==> (self.controller_spec() matches Some(c) && call_ensures(
                C::get_position,
                (&c,),
                r,
            )),
            r matches Ok(p) ==> p.well_formed(),
    {
        match &self.controller {
            Some(c) => c.get_position(),
            None => Err(PtzError::NotConnected),
        }
    }

    pub fn test_connection(&self) -> (r: Result<(), PtzError>)
        requires
            self.wf(),
        ensures
            !self.connected() ==> r == Err::<(), PtzError>(PtzError::NotConnected),
            self.connected() ==> (self.controller_spec() matches Some(c) && call_ensures(
                C::test_connection,
                (&c,),
                r,
            )),
    {
        match &self.controller {
            Some(c) => c.test_connection(),
            None => Err(PtzError::NotConnected),
        }
    }

    pub fn home(&mut self) -> (r: Result<(), PtzError>)
        requires
            old(self).wf(),
        ensures
            final(self).wf(),
            final(self).connected() == old(self).connected(),
            !old(self).connected() ==> r == Err::<(), PtzError>(PtzError::NotConnected)
                && *final(self) == *old(self),
    {
        match &mut self.controller {
            Some(c) => c.home(),
            None => Err(PtzError::NotConnected),
        }
    }

    pub fn continuous_move(&mut self, pan_speed: i32, tilt_speed: i32) -> (r: Result<(), PtzError>)
        requires
            old(self).wf(),
        ensures
            final(self).wf(),
            final(self).connected() == old(self).connected(),
            !old(self).connected() ==> r == Err::<(), PtzError>(PtzError::NotConnected)
                && *final(self) == *old(self),
    {
        match &mut self.controller {
            Some(c) => c.continuous_move(pan_speed, tilt_speed),
            None => Err(PtzError::NotConnected),
        }
    }

    pub fn stop(&mut self) -> (r: Result<(), PtzError>)
        requires
            old(self).wf(),
        ensures
            final(self).wf(),
            final(self).connected() == old(self).connected(),
            !old(self).connected() ==> r == Err::<(), PtzError>(PtzError::NotConnected)
                && *final(self) == *old(self),
    {
        match &mut self.controller {
            Some(c) => c.stop(),
            None => Err(PtzError::NotConnected),
        }
    }

    pub fn focus_continuous(&mut self, speed: i32) -> (r: Result<(), PtzError>)
        requires
            old(self).wf(),
        ensures
            final(self).wf(),
            final(self).connected() == old(self).connected(),
            !old(self).connected() ==> r == Err::<(), PtzError>(PtzError::NotConnected)
                && *final(self) == *old(self),
    {
        match &mut self.controller {
            Some(c) => c.focus_continuous(speed),
            None => Err(PtzError::NotConnected),
        }
    }

    pub fn set_autofocus(&mut self, enabled: bool) -> (r: Result<(), PtzError>)
        requires
            old(self).wf(),
        ensures
            final(self).wf(),
            final(self).connected() == old(self).connected(),
            !old(self).connected() ==> r == Err::<(), PtzError>(PtzError::NotConnected)
                && *final(self) == *old(self),
    {
        match &mut self.controller {
            Some(c) => c.set_autofocus(enabled),
            None => Err(PtzError::NotConnected),
        }
    }

    pub fn autofocus_trigger(&mut self) -> (r: Result<(), PtzError>)
        requires
            old(self).wf(),
        ensures
            final(self).wf(),
            final(self).connected() == old(self).connected(),
            !old(self).connected() ==> r == Err::<(), PtzError>(PtzError::NotConnected)
                && *final(self) == *old(self),
    {
        match &mut self.controller {
            Some(c) => c.autofocus_trigger(),
            None => Err(PtzError::NotConnected),
        }
    }

    pub fn focus_stop(&mut self) -> (r: Result<(), PtzError>)
        requires
            old(self).wf(),
        ensures
            final(self).wf(),
            final(self).connected() == old(self).connected(),
            !old(self).connected() ==> r == Err::<(), PtzError>(PtzError::NotConnected)
                && *final(self) == *old(self),
    {
        match &mut self.controller {
            Some(c) => c.focus_stop(),
            None => Err(PtzError::NotConnected),
        }
    }
}

impl<C: PtzController> Default for PtzDispatcher<C> {
    fn default() -> (d: Self)
        ensures
            !d.connected(),
            d.wf(),
    {
        PtzDispatcher::new()
    }
}

} // verus!
