//! Shared data model: the normalized position, the protocol selection
//! and connection configuration, and host-string validation.

use vstd::prelude::*;
use vstd::string::*;

verus! {

/// A normalized PTZ position in fixed-point thousandths: pan and tilt
/// lie in [-1000, 1000] (for [-1, 1]), zoom in [0, 1000] (for [0, 1]).
/// This is the only position representation that crosses protocol
/// boundaries; every codec normalizes into and out of it.
#[derive(Debug, Clone, Copy, PartialEq, Eq, Structural)]
pub struct PtzPosition {
    pub pan: i32,
    pub tilt: i32,
    pub zoom: i32,
}

impl PtzPosition {
    /// The invariant of every position this crate produces.
    pub open spec fn well_formed(self) -> bool {
        &&& -1000 <= self.pan <= 1000
        &&& -1000 <= self.tilt <= 1000
        &&& 0 <= self.zoom <= 1000
    }
}

impl Default for PtzPosition {
    /// The default position is the origin (centered, fully wide).
    fn default() -> (d: Self)
        ensures
            d == (PtzPosition { pan: 0, tilt: 0, zoom: 0 }),
    {
        PtzPosition { pan: 0, tilt: 0, zoom: 0 }
    }
}

/// A PTZ command to send to a camera, in normalized thousandths.
#[derive(Debug, Clone, Copy, PartialEq, Eq, Structural)]
pub enum PtzCommand {
    MoveAbsolute { pan: i32, tilt: i32, zoom: i32 },
    MoveRelative { pan_delta: i32, tilt_delta: i32 },
    Zoom { level: i32 },
    RecallPreset { index: u8 },
    StorePreset { index: u8 },
}

/// Supported PTZ control protocols.
#[derive(Debug, Clone, Copy, PartialEq, Eq, Structural)]
pub enum PtzProtocol {
    Ndi,
    Visca,
    PanasonicAw,
    BirdDogRest,
}

/// Protocol-specific connection configuration, immutable once built.
#[derive(Debug)]
pub enum ProtocolConfig {
    Ndi,
    Visca { host: String, port: u16 },
    PanasonicAw { host: String, port: u16, username: Option<String>, password: Option<String> },
    BirdDogRest { host: String, port: u16 },
}

impl Clone for ProtocolConfig {
    fn clone(&self) -> (r: Self)
        ensures
            r == *self,
    {
        match self {
            ProtocolConfig::Ndi => ProtocolConfig::Ndi,
            ProtocolConfig::Visca { host, port } => ProtocolConfig::Visca {
                host: host.clone(),
                port: *port,
            },
            ProtocolConfig::PanasonicAw { host, port, username, password } => {
                let username = match username {
                    Some(u) => Some(u.clone()),
                    None => None,
                };
                let password = match password {
                    Some(p) => Some(p.clone()),
                    None => None,
                };
                ProtocolConfig::PanasonicAw { host: host.clone(), port: *port, username, password }
            },
            ProtocolConfig::BirdDogRest { host, port } => ProtocolConfig::BirdDogRest {
                host: host.clone(),
                port: *port,
            },
        }
    }
}

impl Default for ProtocolConfig {
    fn default() -> (d: Self)
        ensures
            d is Ndi,
    {
        ProtocolConfig::Ndi
    }
}

/// A camera endpoint definition for PTZ control.
#[derive(Debug)]
pub struct CameraEndpoint {
    pub id: String,
    pub name: String,
    pub protocol: PtzProtocol,
    pub config: ProtocolConfig,
}

impl Clone for CameraEndpoint {
    fn clone(&self) -> (r: Self)
        ensures
            r == *self,
    {
        CameraEndpoint {
            id: self.id.clone(),
            name: self.name.clone(),
            protocol: self.protocol,
            config: self.config.clone(),
        }
    }
}

/// Whether the Unicode character counts as alphanumeric, exactly as
/// `char::is_alphanumeric` decides it.
pub uninterp spec fn is_unicode_alphanumeric(c: char) -> bool;

/// Relies on `char::is_alphanumeric`: the answer depends on the
/// character alone, and ASCII letters and digits are alphanumeric.
#[verifier::external_body]
fn char_is_alphanumeric(c: char) -> (r: bool)
    ensures
        r == is_unicode_alphanumeric(c),
        ('0' <= c <= '9' || 'a' <= c <= 'z' || 'A' <= c <= 'Z') ==> r,
{
    c.is_alphanumeric()
}

/// Characters that a host string may never contain: path separators,
/// whitespace, and the credential separator.
pub open spec fn host_char_forbidden(c: char) -> bool {
    c == '/' || c == '\\' || c == ' ' || c == '@'
}

/// Characters a host string is built from: alphanumerics plus the
/// separators of IP addresses and hostnames.
pub open spec fn host_char_allowed(c: char) -> bool {
    is_unicode_alphanumeric(c) || c == '.' || c == ':' || c == '-'
}

pub open spec fn has_forbidden_char(s: Seq<char>) -> bool {
    exists|i: int| 0 <= i < s.len() && host_char_forbidden(#[trigger] s[i])
}

/// A valid host string: nonempty, free of forbidden characters, and
/// made only of allowed characters.
pub open spec fn valid_host(s: Seq<char>) -> bool {
    &&& s.len() > 0
    &&& !has_forbidden_char(s)
    &&& forall|i: int| 0 <= i < s.len() ==> host_char_allowed(#[trigger] s[i])
}

/// The message rejecting an invalid host string.
pub open spec fn host_error_message(s: Seq<char>) -> Seq<char> {
    if s.len() == 0 {
        "Host cannot be empty"@
    } else if has_forbidden_char(s) {
        "Invalid host: '"@ + s + "'"@
    } else {
        "Invalid host characters: '"@ + s + "'"@
    }
}

/// Validate that a host string is a safe IP address or hostname.
/// Rejects values containing path separators, whitespace, or other
/// injection-prone characters.
pub fn validate_host(host: &str) -> (r: Result<(), String>)
    ensures
        r is Ok <==> valid_host(host@),
        match r {
            Ok(_) => true,
            Err(m) => m@ == host_error_message(host@),
        },
{
    let n = host.unicode_len();
    if n == 0 {
        return Err(String::from_str("Host cannot be empty"));
    }
    let mut forbidden = false;
    let mut allowed = true;
    let mut i: usize = 0;
    while i < n
        invariant
            n == host@.len(),
            0 <= i <= n,
            forbidden == exists|j: int| 0 <= j < i && host_char_forbidden(#[trigger] host@[j]),
            allowed == forall|j: int| 0 <= j < i ==> host_char_allowed(#[trigger] host@[j]),
        decreases n - i,
    {
        let c = host.get_char(i);
        if c == '/' || c == '\\' || c == ' ' || c == '@' {
            forbidden = true;
        }
        if !(char_is_alphanumeric(c) || c == '.' || c == ':' || c == '-') {
            allowed = false;
        }
        i = i + 1;
    }
    if forbidden {
        let mut m = String::from_str("Invalid host: '");
        m.append(host);
        m.append("'");
        proof {
            assert(m@ =~= "Invalid host: '"@ + host@ + "'"@);
        }
        return Err(m);
    }
    if !allowed {
        let mut m = String::from_str("Invalid host characters: '");
        m.append(host);
        m.append("'");
        proof {
            assert(m@ =~= "Invalid host characters: '"@ + host@ + "'"@);
        }
        return Err(m);
    }
    Ok(())
}

} // verus!
