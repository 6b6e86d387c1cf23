use vstd::prelude::*;

use crate::enums::packet::PacketType;
use crate::json::{json_string_text, JsonValue};
use crate::parser::{bare_packet, raw_data_text, Packet, PacketView};
use crate::strmap::StrMap;
use crate::text::str_equals;

verus! {

/// A packet of type `t` whose data is the JSON string `text`.
pub open spec fn string_packet(t: PacketType, text: Seq<char>) -> PacketView {
    PacketView { packet_type: t, nsp: None, target: None, data: Some(json_string_text(text)) }
}

/// An event packet whose data is the JSON string `text`: what the socket hands its listeners
/// when it closes, stops a worker or connects again.
pub fn event_with_text(text: &str) -> (r: Packet)
    ensures
        r@ == string_packet(PacketType::Event, text@),
{
    Packet::new(PacketType::Event, None, None, Some(JsonValue::string(text)))
}

/// A packet of type `t` with nothing else.
pub fn bare(t: PacketType) -> (r: Packet)
    ensures
        r@ == bare_packet(t),
{
    Packet::new(t, None, None, None)
}

/// The event name under which a listener listens for every event.
pub open spec fn is_wildcard_event(event: Seq<char>) -> bool {
    event == "*"@
}

/// Adds a listener: for the event `*` it becomes the listener for every event, for any other
/// event it goes after the listeners of that event.
pub fn register_listener<L>(
    listeners: &mut StrMap<Vec<L>>,
    wildcard: &mut Option<L>,
    event: &str,
    listener: L,
)
    ensures
        is_wildcard_event(event@) ==> *final(wildcard) == Some(listener) && final(listeners)@
            == old(listeners)@,
        !is_wildcard_event(event@) ==> *final(wildcard) == *old(wildcard) && final(listeners)@
            == old(listeners)@.insert(
            event@,
            if old(listeners)@.contains_key(event@) {
                old(listeners)@[event@]
            } else {
                Seq::<L>::empty()
            }.push(listener),
        ),
{
    if str_equals(event, "*") {
        *wildcard = Some(listener);
    } else {
        listeners.push_to(event, listener);
    }
}

/// The events whose listeners a packet that came in is handed to, before the listener for
/// every event: `handshake` for a connect packet, then the packet's target.
pub open spec fn dispatch_events(p: PacketView) -> Seq<Seq<char>> {
    let first: Seq<Seq<char>> = if p.packet_type == PacketType::Connect {
        seq!["handshake"@]
    } else {
        seq![]
    };
    match p.target {
        Some(t) => first.push(t),
        None => first,
    }
}

/// The events whose listeners a packet that came in is handed to.
pub fn dispatch_events_of(packet: &Packet) -> (r: Vec<String>)
    ensures
        r@.map_values(|s: String| s@) == dispatch_events(packet@),
{
    let mut out: Vec<String> = Vec::new();
    if packet.packet_type == PacketType::Connect {
        out.push(String::from_str("handshake"));
    }
    if let Some(target) = &packet.target {
        out.push(target.clone());
    }
    assert(out@.map_values(|s: String| s@) =~= dispatch_events(packet@));
    out
}

/// The event packet that sending bytes makes: their text as JSON data (`null` where serde_json
/// refuses it), or `None` where the bytes are not UTF-8.
pub fn event_packet_from_bytes(data: &[u8]) -> (r: Option<Packet>)
    ensures
        match r {
            Some(p) => vstd::utf8::valid_utf8(data@) && p@ == (PacketView {
                packet_type: PacketType::Event,
                nsp: None,
                target: None,
                data: Some(raw_data_text(vstd::utf8::decode_utf8(data@))),
            }),
            None => !vstd::utf8::valid_utf8(data@),
        },
{
    match crate::text::str_from_utf8(data) {
        None => None,
        Some(text) => {
            proof {
                broadcast use vstd::utf8::encode_utf8_decode_utf8;

                assert(text@ == vstd::utf8::decode_utf8(data@));
            }
            Some(Packet::new_raw(PacketType::Event, None, None, text.to_owned()))
        },
    }
}

} // verus!
