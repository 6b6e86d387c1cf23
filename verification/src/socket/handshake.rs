use vstd::prelude::*;

use crate::enums::packet::PacketType;
use crate::parser::{decode_bytes, decode_bytes_slices_inside_char, raw_data_text, Packet, PacketView};
use crate::structs::handshake::Handshake;

verus! {

/// The ping timeout a client offers, in milliseconds.
pub const CLIENT_PING_TIMEOUT: u64 = 20000;

/// The ping interval a client offers, in milliseconds.
pub const CLIENT_PING_INTERVAL: u64 = 25000;

/// The handshake a client offers: no session yet, an upgrade to websocket, and the client's
/// ping timeout and interval.
pub fn client_handshake() -> (r: Handshake)
    ensures
        r.sid is None,
        r.upgrades@.len() == 1,
        r.upgrades@[0]@ == "websocket"@,
        r.ping_timeout == CLIENT_PING_TIMEOUT,
        r.ping_interval == CLIENT_PING_INTERVAL,
{
    let mut upgrades: Vec<String> = Vec::new();
    upgrades.push(String::from_str("websocket"));
    Handshake {
        sid: None,
        upgrades,
        ping_timeout: CLIENT_PING_TIMEOUT,
        ping_interval: CLIENT_PING_INTERVAL,
    }
}

/// The connect packet that carries a handshake, given the handshake's JSON text.
pub fn handshake_request(handshake_json: String) -> (r: Packet)
    ensures
        r@ == (PacketView {
            packet_type: PacketType::Connect,
            nsp: None,
            target: None,
            data: Some(raw_data_text(handshake_json@)),
        }),
{
    Packet::new_raw(PacketType::Connect, None, None, handshake_json)
}

/// What the socket does with the reply to its handshake.
#[derive(Debug)]
pub enum HandshakeReply {
    /// Nothing more: the reply is not a frame with a packet.
    Ignore,
    /// Stop, as the socket stops on a reply that cannot be decoded without slicing inside a
    /// character.
    Abort,
    /// Take the packet's data, when it has some, as the session's parameters, and hand the
    /// `handshake` listeners the packet.
    Accept { packet: Packet },
}

/// The socket's answer to the payload of the frame that replied to its handshake (`None` for a
/// frame that is neither text nor binary): a packet that decodes is accepted, anything else is
/// ignored.
pub fn handshake_reply(payload: Option<&[u8]>) -> (r: HandshakeReply)
    ensures
        match payload {
            None => r is Ignore,
            Some(b) => if decode_bytes_slices_inside_char(b@) {
                r is Abort
            } else {
                match decode_bytes(b@) {
                    Ok(p) => r matches HandshakeReply::Accept { packet } && packet@ == p,
                    Err(_) => r is Ignore,
                }
            },
        },
{
    match payload {
        None => HandshakeReply::Ignore,
        Some(b) => {
            if Packet::decode_slices_inside_char(b) {
                HandshakeReply::Abort
            } else {
                match Packet::decode(b) {
                    Ok(packet) => HandshakeReply::Accept { packet },
                    Err(_) => HandshakeReply::Ignore,
                }
            }
        },
    }
}

} // verus!
