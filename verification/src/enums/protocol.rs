use vstd::prelude::*;

verus! {

/// The Engine.io protocol version used by the server.
#[derive(Debug, Clone, Copy, PartialEq, Eq, Structural, Hash, PartialOrd, Ord)]
pub enum ProtocolVersion {
    V3,
}

/// The number of a protocol version.
pub open spec fn protocol_version_number(v: ProtocolVersion) -> u8 {
    match v {
        ProtocolVersion::V3 => 3,
    }
}

/// The protocol version a number stands for; unknown numbers stand for the default, `V3`.
pub open spec fn protocol_version_of_number(n: u8) -> ProtocolVersion {
    ProtocolVersion::V3
}

/// The decimal text of a protocol version's number.
pub open spec fn protocol_version_text(v: ProtocolVersion) -> Seq<char> {
    match v {
        ProtocolVersion::V3 => "3"@,
    }
}

impl ProtocolVersion {
    /// The number of this protocol version.
    pub fn to_u8(self) -> (r: u8)
        ensures
            r == protocol_version_number(self),
    {
        match self {
            ProtocolVersion::V3 => 3,
        }
    }

    /// The protocol version of a number; unknown numbers give the default.
    pub fn from_u8(value: u8) -> (r: ProtocolVersion)
        ensures
            r == protocol_version_of_number(value),
    {
        match value {
            3 => ProtocolVersion::V3,
            _ => ProtocolVersion::default(),
        }
    }
}

impl Default for ProtocolVersion {
    fn default() -> (r: Self)
        ensures
            r == ProtocolVersion::V3,
    {
        ProtocolVersion::V3
    }
}

impl From<u8> for ProtocolVersion {
    fn from(value: u8) -> (r: Self) {
        ProtocolVersion::from_u8(value)
    }
}

impl vstd::std_specs::convert::FromSpecImpl<u8> for ProtocolVersion {
    open spec fn obeys_from_spec() -> bool {
        true
    }

    open spec fn from_spec(v: u8) -> ProtocolVersion {
        protocol_version_of_number(v)
    }
}

impl<'a> From<&'a u8> for ProtocolVersion {
    fn from(value: &'a u8) -> (r: Self) {
        ProtocolVersion::from_u8(*value)
    }
}

impl<'a> vstd::std_specs::convert::FromSpecImpl<&'a u8> for ProtocolVersion {
    open spec fn obeys_from_spec() -> bool {
        true
    }

    open spec fn from_spec(v: &'a u8) -> ProtocolVersion {
        protocol_version_of_number(*v)
    }
}

impl From<ProtocolVersion> for u8 {
    fn from(value: ProtocolVersion) -> (r: Self) {
        value.to_u8()
    }
}

impl vstd::std_specs::convert::FromSpecImpl<ProtocolVersion> for u8 {
    open spec fn obeys_from_spec() -> bool {
        true
    }

    open spec fn from_spec(v: ProtocolVersion) -> u8 {
        protocol_version_number(v)
    }
}

impl ToString for ProtocolVersion {
    fn to_string(&self) -> (r: String)
        ensures
            r@ == protocol_version_text(*self),
    {
        match self {
            ProtocolVersion::V3 => String::from_str("3"),
        }
    }
}

impl From<ProtocolVersion> for String {
    fn from(value: ProtocolVersion) -> (r: String)
        ensures
            r@ == protocol_version_text(value),
    {
        value.to_string()
    }
}

impl vstd::std_specs::convert::FromSpecImpl<ProtocolVersion> for String {
    open spec fn obeys_from_spec() -> bool {
        false
    }

    open spec fn from_spec(v: ProtocolVersion) -> String {
        vstd::pervasive::arbitrary()
    }
}

/// A protocol version's number gives back the protocol version.
pub proof fn law_protocol_number_round_trip(v: ProtocolVersion)
    ensures
        protocol_version_of_number(protocol_version_number(v)) == v,
{
}

} // verus!
