//! The verified core of the VISCA-over-IP client: host validation, the
//! per-client sequence counter and packet framing, the relative-move
//! parameter computation, and inquiry response decoding. The UDP
//! socket, the 2-second receive timeout, and the 200 ms
//! move-then-stop pulse timing live in the transport around this
//! crate, which sends exactly the bytes built here.

use crate::controller::PtzError;
use crate::norm::{abs_val, ceil_div, clamp_spec};
use crate::types::{host_error_message, valid_host, validate_host, PtzPosition};
use crate::visca::commands::{
    build_visca_packet, normalize_to_visca_pan, normalize_to_visca_tilt, normalize_to_visca_zoom,
    packet_bytes, pan_tilt_absolute, pan_tilt_absolute_bytes, pan_tilt_relative,
    pan_tilt_relative_bytes, pan_tilt_response_ok, pan_tilt_stop, pan_tilt_stop_bytes,
    parse_pan_tilt_response, parse_zoom_response, response_pan, response_tilt, response_zoom,
    visca_pan_norm, visca_pan_of, visca_tilt_norm, visca_tilt_of, visca_zoom_norm, visca_zoom_of,
    zoom_absolute, zoom_absolute_bytes, zoom_response_ok,
};
use crate::visca::commands;
use vstd::prelude::*;
use vstd::slice::slice_subrange;
use vstd::string::*;

verus! {

/// The deadband: a delta below one hundredth moves nothing.
pub open spec fn below_deadband(d: int) -> bool {
    -10 < d < 10
}

/// Pan speed of a relative move: ceil(|delta| * 24) clamped to 1..24.
pub open spec fn visca_pan_speed(d: int) -> u8 {
    clamp_spec(ceil_div(abs_val(d) * 24, 1000), 1, 24) as u8
}

/// Tilt speed of a relative move: ceil(|delta| * 23) clamped to 1..23.
pub open spec fn visca_tilt_speed(d: int) -> u8 {
    clamp_spec(ceil_div(abs_val(d) * 23, 1000), 1, 23) as u8
}

/// Pan direction byte: 01 = left, 02 = right, 03 = stop.
pub open spec fn visca_pan_dir(d: int) -> u8 {
    if d < -10 {
        0x01
    } else if d > 10 {
        0x02
    } else {
        0x03
    }
}

/// Tilt direction byte: 01 = up, 02 = down, 03 = stop.
pub open spec fn visca_tilt_dir(d: int) -> u8 {
    if d > 10 {
        0x01
    } else if d < -10 {
        0x02
    } else {
        0x03
    }
}

/// The VISCA payload of an inquiry response: the reply to a framed
/// inquiry carries the 8-byte VISCA-over-IP header first.
pub open spec fn strip_header(s: Seq<u8>) -> Seq<u8> {
    if s.len() > 8 {
        s.skip(8)
    } else {
        s
    }
}

/// The normalized position carried by a pan/tilt inquiry response and
/// a zoom inquiry response.
pub open spec fn visca_position_spec(pt: Seq<u8>, z: Seq<u8>) -> PtzPosition {
    PtzPosition {
        pan: visca_pan_norm(response_pan(strip_header(pt)) as int) as i32,
        tilt: visca_tilt_norm(response_tilt(strip_header(pt)) as int) as i32,
        zoom: visca_zoom_norm(response_zoom(strip_header(z)) as int) as i32,
    }
}

/// Pan speed byte of a relative move delta.
pub fn visca_pan_speed_of(delta: i32) -> (r: u8)
    ensures
        r == visca_pan_speed(delta as int),
        1 <= r <= 24,
{
    let m: u64 = if delta >= 0 {
        delta as u64
    } else {
        (-(delta as i64)) as u64
    };
    let q: u64 = (m * 24 + 999) / 1000;
    if q < 1 {
        1
    } else if q > 24 {
        24
    } else {
        q as u8
    }
}

/// Tilt speed byte of a relative move delta.
pub fn visca_tilt_speed_of(delta: i32) -> (r: u8)
    ensures
        r == visca_tilt_speed(delta as int),
        1 <= r <= 23,
{
    let m: u64 = if delta >= 0 {
        delta as u64
    } else {
        (-(delta as i64)) as u64
    };
    let q: u64 = (m * 23 + 999) / 1000;
    if q < 1 {
        1
    } else if q > 23 {
        23
    } else {
        q as u8
    }
}

/// The relative-move payload for a pair of deltas, or `None` when both
/// deltas are below the deadband and nothing is to be sent. The
/// transport sends the payload, waits 200 ms, then sends a stop.
pub fn visca_relative_payload(pan_delta: i32, tilt_delta: i32) -> (r: Option<Vec<u8>>)
    ensures
        r is None <==> below_deadband(pan_delta as int) && below_deadband(tilt_delta as int),
        r matches Some(v) ==> v@ == pan_tilt_relative_bytes(
            visca_pan_speed(pan_delta as int),
            visca_tilt_speed(tilt_delta as int),
            visca_pan_dir(pan_delta as int),
            visca_tilt_dir(tilt_delta as int),
        ),
{
    if -10 < pan_delta && pan_delta < 10 && -10 < tilt_delta && tilt_delta < 10 {
        return None;
    }
    let pan_speed = visca_pan_speed_of(pan_delta);
    let tilt_speed = visca_tilt_speed_of(tilt_delta);
    let pan_dir: u8 = if pan_delta < -10 {
        0x01
    } else if pan_delta > 10 {
        0x02
    } else {
        0x03
    };
    let tilt_dir: u8 = if tilt_delta > 10 {
        0x01
    } else if tilt_delta < -10 {
        0x02
    } else {
        0x03
    };
    Some(pan_tilt_relative(pan_speed, tilt_speed, pan_dir, tilt_dir))
}

/// The payload of a continuous move: a stop when both speeds are below
/// the deadband, else a relative-move command at those speeds.
pub fn visca_continuous_payload(pan_speed: i32, tilt_speed: i32) -> (v: Vec<u8>)
    ensures
        below_deadband(pan_speed as int) && below_deadband(tilt_speed as int) ==> v@
            == pan_tilt_stop_bytes(),
        !(below_deadband(pan_speed as int) && below_deadband(tilt_speed as int)) ==> v@
            == pan_tilt_relative_bytes(
            visca_pan_speed(pan_speed as int),
            visca_tilt_speed(tilt_speed as int),
            visca_pan_dir(pan_speed as int),
            visca_tilt_dir(tilt_speed as int),
        ),
{
    match visca_relative_payload(pan_speed, tilt_speed) {
        Some(v) => v,
        None => pan_tilt_stop(),
    }
}

/// The payload of a continuous focus command: far above the deadband,
/// near below it, stop inside it.
pub fn visca_focus_payload(speed: i32) -> (v: Vec<u8>)
    ensures
        speed > 10 ==> v@ == commands::focus_far_bytes(),
        speed < -10 ==> v@ == commands::focus_near_bytes(),
        -10 <= speed <= 10 ==> v@ == commands::focus_stop_bytes(),
{
    if speed > 10 {
        commands::focus_far()
    } else if speed < -10 {
        commands::focus_near()
    } else {
        commands::focus_stop()
    }
}

/// The payload toggling autofocus.
pub fn visca_autofocus_payload(enabled: bool) -> (v: Vec<u8>)
    ensures
        enabled ==> v@ == commands::autofocus_on_bytes(),
        !enabled ==> v@ == commands::autofocus_off_bytes(),
{
    if enabled {
        commands::autofocus_on()
    } else {
        commands::autofocus_off()
    }
}

/// The two payloads of an absolute move: pan/tilt at fixed speed 0x0C,
/// then zoom.
pub fn visca_move_absolute_payloads(pan: i32, tilt: i32, zoom: i32) -> (r: (Vec<u8>, Vec<u8>))
    ensures
        r.0@ == pan_tilt_absolute_bytes(
            0x0C,
            0x0C,
            visca_pan_of(pan as int) as i16,
            visca_tilt_of(tilt as int) as i16,
        ),
        r.1@ == zoom_absolute_bytes(visca_zoom_of(zoom as int) as u16),
{
    let visca_pan = normalize_to_visca_pan(pan);
    let visca_tilt = normalize_to_visca_tilt(tilt);
    let visca_zoom = normalize_to_visca_zoom(zoom);
    let pt_cmd = pan_tilt_absolute(0x0C, 0x0C, visca_pan, visca_tilt);
    let zoom_cmd = zoom_absolute(visca_zoom);
    (pt_cmd, zoom_cmd)
}

/// Decode the two framed inquiry responses of a position query into
/// the normalized position. A response whose payload has the wrong
/// prefix or is too short is a protocol error.
pub fn visca_position_from_responses(pt_response: &[u8], zoom_response: &[u8]) -> (r: Result<
    PtzPosition,
    PtzError,
>)
    ensures
        r is Ok <==> pan_tilt_response_ok(strip_header(pt_response@)) && zoom_response_ok(
            strip_header(zoom_response@),
        ),
        r matches Ok(p) ==> p == visca_position_spec(pt_response@, zoom_response@)
            && p.well_formed(),
        r matches Err(e) ==> e is ProtocolError,
{
    let pt_payload: &[u8] = if pt_response.len() > 8 {
        slice_subrange(pt_response, 8, pt_response.len())
    } else {
        pt_response
    };
    let z_payload: &[u8] = if zoom_response.len() > 8 {
        slice_subrange(zoom_response, 8, zoom_response.len())
    } else {
        zoom_response
    };
    proof {
        assert(pt_payload@ =~= strip_header(pt_response@));
        assert(z_payload@ =~= strip_header(zoom_response@));
    }
    let (visca_pan, visca_tilt) = match parse_pan_tilt_response(pt_payload) {
        Some(v) => v,
        None => {
            return Err(
                PtzError::ProtocolError(String::from_str("Invalid pan/tilt inquiry response")),
            );
        },
    };
    let visca_zoom = match parse_zoom_response(z_payload) {
        Some(v) => v,
        None => {
            return Err(PtzError::ProtocolError(String::from_str("Invalid zoom inquiry response")));
        },
    };
    Ok(PtzPosition {
        pan: commands::visca_pan_to_normalized(visca_pan),
        tilt: commands::visca_tilt_to_normalized(visca_tilt),
        zoom: commands::visca_zoom_to_normalized(visca_zoom),
    })
}

/// VISCA-over-IP client core: the camera address and the sequence
/// counter, which starts at 1 and increases by one per framed packet.
#[derive(Debug)]
pub struct ViscaClient {
    host: String,
    port: u16,
    sequence: u32,
}

impl ViscaClient {
    pub closed spec fn host_spec(&self) -> Seq<char> {
        self.host@
    }

    pub closed spec fn port_spec(&self) -> u16 {
        self.port
    }

    pub closed spec fn sequence_spec(&self) -> u32 {
        self.sequence
    }

    /// Create a client for a validated host. An invalid host is a
    /// connection failure carrying the validation message.
    pub fn new(host: &str, port: u16) -> (r: Result<Self, PtzError>)
        ensures
            r is Ok <==> valid_host(host@),
            r matches Ok(c) ==> c.host_spec() == host@ && c.port_spec() == port
                && c.sequence_spec() == 1,
            r matches Err(e) ==> (e matches PtzError::ConnectionFailed(m) && m@
                == host_error_message(host@)),
    {
        match validate_host(host) {
            Ok(()) => Ok(ViscaClient { host: host.to_owned(), port, sequence: 1 }),
            Err(m) => Err(PtzError::ConnectionFailed(m)),
        }
    }

    /// The camera host, as validated.
    pub fn host(&self) -> (h: &str)
        ensures
            h@ == self.host_spec(),
    {
        self.host.as_str()
    }

    /// The camera port.
    pub fn port(&self) -> (p: u16)
        ensures
            p == self.port_spec(),
    {
        self.port
    }

    /// Frame a payload into a full packet, consuming the current
    /// sequence number; the counter increases by one per packet and is
    /// never reset (it wraps at the 32-bit limit).
    pub fn next_packet(&mut self, payload: &[u8]) -> (p: Vec<u8>)
        requires
            payload@.len() <= 0xFFFF,
        ensures
            p@ == packet_bytes(payload@, old(self).sequence_spec()),
            final(self).sequence_spec() == if old(self).sequence_spec() == u32::MAX {
                0u32
            } else {
                (old(self).sequence_spec() + 1) as u32
            },
            final(self).host_spec() == old(self).host_spec(),
            final(self).port_spec() == old(self).port_spec(),
    {
        let seq = self.sequence;
        self.sequence = if self.sequence == u32::MAX {
            0
        } else {
            self.sequence + 1
        };
        build_visca_packet(payload, seq)
    }
}

} // verus!
