use vstd::prelude::*;

verus! {

/// The type of connection to use.
#[derive(Debug, Clone, Copy, PartialEq, Eq, Structural, Hash, PartialOrd, Ord)]
pub enum ConnectionType {
    WebSocket,
}

/// The name of a connection type, as a query parameter gives it.
pub open spec fn connection_type_name(c: ConnectionType) -> Seq<char> {
    match c {
        ConnectionType::WebSocket => "websocket"@,
    }
}

impl Default for ConnectionType {
    fn default() -> (r: Self)
        ensures
            r == ConnectionType::WebSocket,
    {
        ConnectionType::WebSocket
    }
}

impl ToString for ConnectionType {
    fn to_string(&self) -> (r: String)
        ensures
            r@ == connection_type_name(*self),
    {
        match self {
            ConnectionType::WebSocket => String::from_str("websocket"),
        }
    }
}

impl From<ConnectionType> for String {
    fn from(value: ConnectionType) -> (r: String)
        ensures
            r@ == connection_type_name(value),
    {
        value.to_string()
    }
}

impl vstd::std_specs::convert::FromSpecImpl<ConnectionType> for String {
    open spec fn obeys_from_spec() -> bool {
        false
    }

    open spec fn from_spec(v: ConnectionType) -> String {
        vstd::pervasive::arbitrary()
    }
}

} // verus!
