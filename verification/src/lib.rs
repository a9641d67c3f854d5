//! Core of a music-synchronized LED system: a datagram session protocol that
//! carries loudness/beat telemetry from a "remote" node to a "server" node,
//! and the server-side actuation machinery (single-slot mailbox, animation
//! runners, fixed-period scheduler) that turns that telemetry into light.
//!
//! Telemetry values travel as IEEE 754 binary64 bit patterns (`u64`), so the
//! wire format and all decisions about them are exact integer logic; the one
//! floating-point division (novelty = value / peak) is left to the caller.
use vstd::prelude::*;
use vstd::string::StringSliceAdditionalSpecFns;

pub mod color;
pub mod controller;
pub mod mailbox;
pub mod packets;
pub mod remote;
pub mod rng;
pub mod runners;
pub mod scheduler;
pub mod server;

verus! {

/// Fixed protocol version byte carried by Hello and Goodbye.
pub const MAGIC: u8 = 0x42;

/// Legacy fixture mode selector kept for compatibility with older remotes.
#[derive(Copy, Clone, Debug, PartialEq, Eq, Structural)]
pub enum LedMode {
    OnlyColor,
    OnlyIntensity,
    ColorAndIntensity,
}

impl LedMode {
    /// Numeric tag used by the legacy byte protocol.
    pub open spec fn spec_int_value(self) -> u8 {
        match self {
            LedMode::OnlyColor => 1,
            LedMode::OnlyIntensity => 2,
            LedMode::ColorAndIntensity => 3,
        }
    }

    pub fn int_value(self) -> (r: u8)
        ensures
            r == self.spec_int_value(),
    {
        match self {
            LedMode::OnlyColor => 1,
            LedMode::OnlyIntensity => 2,
            LedMode::ColorAndIntensity => 3,
        }
    }

    /// Inverse of `int_value`: `Some` exactly on the three legal tags.
    pub fn from_int(v: u8) -> (r: Option<LedMode>)
        ensures
            match r {
                Some(m) => m.spec_int_value() == v,
                None => v != 1 && v != 2 && v != 3,
            },
    {
        if v == 1 {
            Some(LedMode::OnlyColor)
        } else if v == 2 {
            Some(LedMode::OnlyIntensity)
        } else if v == 3 {
            Some(LedMode::ColorAndIntensity)
        } else {
            None
        }
    }
}

/// Kind of LED strip hardware a server can drive.
#[derive(Copy, Clone, Debug, PartialEq, Eq, Structural)]
pub enum LedStripType {
    Ws2811,
}

/// ASCII lowercase of one byte.
pub open spec fn spec_ascii_lower(b: u8) -> u8 {
    if 65 <= b <= 90 {
        (b + 32) as u8
    } else {
        b
    }
}

/// The byte spelling of the one supported strip type, case-insensitively.
pub open spec fn spec_is_ws2811_name(bytes: Seq<u8>) -> bool {
    bytes.len() == 6 && spec_ascii_lower(bytes[0]) == 119 && spec_ascii_lower(bytes[1]) == 115
        && bytes[2] == 50 && bytes[3] == 56 && bytes[4] == 49 && bytes[5] == 49
}

fn ascii_lower(b: u8) -> (r: u8)
    ensures
        r == spec_ascii_lower(b),
{
    if 65 <= b && b <= 90 {
        b + 32
    } else {
        b
    }
}

impl LedStripType {
    /// Recognize a strip type name, case-insensitively: `Some` exactly on
    /// the spelling "ws2811".
    pub fn parse(s: &str) -> (r: Option<LedStripType>)
        ensures
            r == if spec_is_ws2811_name(s.spec_bytes()) {
                Some(LedStripType::Ws2811)
            } else {
                None::<LedStripType>
            },
    {
        let bytes = s.as_bytes();
        if bytes.len() != 6 {
            return None;
        }
        if ascii_lower(bytes[0]) == 119 && ascii_lower(bytes[1]) == 115 && bytes[2] == 50
            && bytes[3] == 56 && bytes[4] == 49 && bytes[5] == 49 {
            Some(LedStripType::Ws2811)
        } else {
            None
        }
    }
}

} // verus!
