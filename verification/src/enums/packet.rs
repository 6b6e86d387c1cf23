use vstd::prelude::*;

use crate::text::str_equals;

verus! {

/// The kind of a socket.io packet, as it appears at the front of an encoded frame.
#[derive(Debug, Clone, Copy, PartialEq, Eq, Structural, Hash, PartialOrd, Ord)]
pub enum PacketType {
    Connect,
    Disconnect,
    Event,
    Ack,
    ConnectError,
    BinaryEvent,
    BinaryAck,
    Ping,
    Message,
}

/// The number that identifies each packet type on the wire.
pub open spec fn packet_type_code(t: PacketType) -> u8 {
    match t {
        PacketType::Connect => 0,
        PacketType::Disconnect => 1,
        PacketType::Event => 2,
        PacketType::Ack => 3,
        PacketType::ConnectError => 4,
        PacketType::BinaryEvent => 5,
        PacketType::BinaryAck => 6,
        PacketType::Ping => 40,
        PacketType::Message => 42,
    }
}

/// The packet type a number stands for; unknown numbers stand for `Message`.
pub open spec fn packet_type_of_code(v: u8) -> PacketType {
    if v == 0 {
        PacketType::Connect
    } else if v == 1 {
        PacketType::Disconnect
    } else if v == 2 {
        PacketType::Event
    } else if v == 3 {
        PacketType::Ack
    } else if v == 4 {
        PacketType::ConnectError
    } else if v == 5 {
        PacketType::BinaryEvent
    } else if v == 6 {
        PacketType::BinaryAck
    } else if v == 40 {
        PacketType::Ping
    } else if v == 42 {
        PacketType::Message
    } else {
        PacketType::Message
    }
}

/// The decimal text of a packet type's number.
pub open spec fn packet_type_code_text(t: PacketType) -> Seq<char> {
    match t {
        PacketType::Connect => seq!['0'],
        PacketType::Disconnect => seq!['1'],
        PacketType::Event => seq!['2'],
        PacketType::Ack => seq!['3'],
        PacketType::ConnectError => seq!['4'],
        PacketType::BinaryEvent => seq!['5'],
        PacketType::BinaryAck => seq!['6'],
        PacketType::Ping => seq!['4', '0'],
        PacketType::Message => seq!['4', '2'],
    }
}

/// The event name of a packet type.
pub open spec fn packet_type_name(t: PacketType) -> Seq<char> {
    match t {
        PacketType::Connect => "connect"@,
        PacketType::Disconnect => "disconnect"@,
        PacketType::Event => "event"@,
        PacketType::Ack => "ack"@,
        PacketType::ConnectError => "connect_error"@,
        PacketType::BinaryEvent => "binary_event"@,
        PacketType::BinaryAck => "binary_ack"@,
        PacketType::Ping => "ping"@,
        PacketType::Message => "message"@,
    }
}

/// The packet type an event name stands for; unknown names stand for `Message`.
pub open spec fn packet_type_of_name(s: Seq<char>) -> PacketType {
    if s == "connect"@ {
        PacketType::Connect
    } else if s == "disconnect"@ {
        PacketType::Disconnect
    } else if s == "event"@ {
        PacketType::Event
    } else if s == "ack"@ {
        PacketType::Ack
    } else if s == "connect_error"@ {
        PacketType::ConnectError
    } else if s == "binary_event"@ {
        PacketType::BinaryEvent
    } else if s == "binary_ack"@ {
        PacketType::BinaryAck
    } else if s == "ping"@ {
        PacketType::Ping
    } else {
        PacketType::Message
    }
}

impl PacketType {
    /// The packet type of an event name; unknown names give `Message`.
    pub fn from_name(value: &str) -> (r: PacketType)
        ensures
            r == packet_type_of_name(value@),
    {
        if str_equals(value, "connect") {
            PacketType::Connect
        } else if str_equals(value, "disconnect") {
            PacketType::Disconnect
        } else if str_equals(value, "event") {
            PacketType::Event
        } else if str_equals(value, "ack") {
            PacketType::Ack
        } else if str_equals(value, "connect_error") {
            PacketType::ConnectError
        } else if str_equals(value, "binary_event") {
            PacketType::BinaryEvent
        } else if str_equals(value, "binary_ack") {
            PacketType::BinaryAck
        } else if str_equals(value, "ping") {
            PacketType::Ping
        } else if str_equals(value, "message") {
            PacketType::Message
        } else {
            PacketType::default()
        }
    }

    /// The number of this packet type.
    pub fn to_u8(self) -> (r: u8)
        ensures
            r == packet_type_code(self),
    {
        match self {
            PacketType::Connect => 0,
            PacketType::Disconnect => 1,
            PacketType::Event => 2,
            PacketType::Ack => 3,
            PacketType::ConnectError => 4,
            PacketType::BinaryEvent => 5,
            PacketType::BinaryAck => 6,
            PacketType::Ping => 40,
            PacketType::Message => 42,
        }
    }

    /// The packet type of a number; unknown numbers give `Message`.
    pub fn from_u8(value: u8) -> (r: PacketType)
        ensures
            r == packet_type_of_code(value),
    {
        match value {
            0 => PacketType::Connect,
            1 => PacketType::Disconnect,
            2 => PacketType::Event,
            3 => PacketType::Ack,
            4 => PacketType::ConnectError,
            5 => PacketType::BinaryEvent,
            6 => PacketType::BinaryAck,
            40 => PacketType::Ping,
            42 => PacketType::Message,
            _ => PacketType::default(),
        }
    }

    /// The decimal text of the packet type's number.
    pub fn code_str(self) -> (r: &'static str)
        ensures
            r@ == packet_type_code_text(self),
    {
        match self {
            PacketType::Connect => {
                proof { reveal_strlit("0"); }
                "0"
            },
            PacketType::Disconnect => {
                proof { reveal_strlit("1"); }
                "1"
            },
            PacketType::Event => {
                proof { reveal_strlit("2"); }
                "2"
            },
            PacketType::Ack => {
                proof { reveal_strlit("3"); }
                "3"
            },
            PacketType::ConnectError => {
                proof { reveal_strlit("4"); }
                "4"
            },
            PacketType::BinaryEvent => {
                proof { reveal_strlit("5"); }
                "5"
            },
            PacketType::BinaryAck => {
                proof { reveal_strlit("6"); }
                "6"
            },
            PacketType::Ping => {
                proof { reveal_strlit("40"); }
                "40"
            },
            PacketType::Message => {
                proof { reveal_strlit("42"); }
                "42"
            },
        }
    }

    /// The event name of the packet type.
    pub fn name(self) -> (r: &'static str)
        ensures
            r@ == packet_type_name(self),
    {
        match self {
            PacketType::Connect => "connect",
            PacketType::Disconnect => "disconnect",
            PacketType::Event => "event",
            PacketType::Ack => "ack",
            PacketType::ConnectError => "connect_error",
            PacketType::BinaryEvent => "binary_event",
            PacketType::BinaryAck => "binary_ack",
            PacketType::Ping => "ping",
            PacketType::Message => "message",
        }
    }
}

impl Default for PacketType {
    fn default() -> (r: Self)
        ensures
            r == PacketType::Message,
    {
        PacketType::Message
    }
}

impl From<u8> for PacketType {
    fn from(value: u8) -> (r: Self) {
        PacketType::from_u8(value)
    }
}

impl vstd::std_specs::convert::FromSpecImpl<u8> for PacketType {
    open spec fn obeys_from_spec() -> bool {
        true
    }

    open spec fn from_spec(v: u8) -> PacketType {
        packet_type_of_code(v)
    }
}

impl From<PacketType> for u8 {
    fn from(value: PacketType) -> (r: Self) {
        value.to_u8()
    }
}

impl vstd::std_specs::convert::FromSpecImpl<PacketType> for u8 {
    open spec fn obeys_from_spec() -> bool {
        true
    }

    open spec fn from_spec(v: PacketType) -> u8 {
        packet_type_code(v)
    }
}

impl From<PacketType> for String {
    fn from(value: PacketType) -> (r: String)
        ensures
            r@ == packet_type_code_text(value),
    {
        String::from_str(value.code_str())
    }
}

impl vstd::std_specs::convert::FromSpecImpl<PacketType> for String {
    open spec fn obeys_from_spec() -> bool {
        false
    }

    open spec fn from_spec(v: PacketType) -> String {
        vstd::pervasive::arbitrary()
    }
}

impl From<PacketType> for &'static str {
    fn from(value: PacketType) -> (r: &'static str)
        ensures
            r@ == packet_type_name(value),
    {
        value.name()
    }
}

impl vstd::std_specs::convert::FromSpecImpl<PacketType> for &'static str {
    open spec fn obeys_from_spec() -> bool {
        false
    }

    open spec fn from_spec(v: PacketType) -> &'static str {
        vstd::pervasive::arbitrary()
    }
}

impl<'a> From<&'a str> for PacketType {
    fn from(value: &'a str) -> (r: PacketType) {
        PacketType::from_name(value)
    }
}

impl<'a> vstd::std_specs::convert::FromSpecImpl<&'a str> for PacketType {
    open spec fn obeys_from_spec() -> bool {
        true
    }

    open spec fn from_spec(v: &'a str) -> PacketType {
        packet_type_of_name(v@)
    }
}

/// A packet type's number gives back the packet type.
pub proof fn law_code_round_trip(t: PacketType)
    ensures
        packet_type_of_code(packet_type_code(t)) == t,
{
}

/// A packet type's event name gives back the packet type.
pub proof fn law_name_round_trip(t: PacketType)
    ensures
        packet_type_of_name(packet_type_name(t)) == t,
{
    reveal_strlit("connect");
    reveal_strlit("disconnect");
    reveal_strlit("event");
    reveal_strlit("ack");
    reveal_strlit("connect_error");
    reveal_strlit("binary_event");
    reveal_strlit("binary_ack");
    reveal_strlit("ping");
    reveal_strlit("message");
    let names = seq![
        "connect"@,
        "disconnect"@,
        "event"@,
        "ack"@,
        "connect_error"@,
        "binary_event"@,
        "binary_ack"@,
        "ping"@,
        "message"@,
    ];
    assert forall|i: int, j: int| 0 <= i < j < 9 implies names[i] != names[j] by {
        assert(names[i][0] != names[j][0] || names[i].len() != names[j].len() || names[i][1]
            != names[j][1] || names[i][8] != names[j][8]);
    }
    assert(names[0] == "connect"@);
}

} // verus!
