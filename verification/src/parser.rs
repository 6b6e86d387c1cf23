use vstd::prelude::*;

use crate::enums::packet::{packet_type_code_text, packet_type_of_code, PacketType};
use crate::json::{
    json_normal_form, json_text_is_array, json_text_is_nonempty_array, json_text_is_null,
    json_text_is_object, opt_json_view, JsonValue,
};
use crate::packet_laws::{encoding_reads_back, law_encoding_reads_back};
use crate::text::{
    chars_of, digits_of, find_char, has_char, is_ascii_char, lemma_first_index, opt_view,
    parse_digits_u8, parse_u8_digits, prefix_upto, split_once, starts_with, str_from_utf8,
};

verus! {

broadcast use vstd::utf8::encode_utf8_decode_utf8, vstd::utf8::decode_utf8_encode_utf8;

/// A socket.io packet: its type, namespace, target event and JSON data.
#[derive(Debug, PartialEq, Eq)]
pub struct Packet {
    pub packet_type: PacketType,
    pub nsp: Option<String>,
    pub target: Option<String>,
    pub data: Option<JsonValue>,
}

fn clone_opt_string(o: &Option<String>) -> (r: Option<String>)
    ensures
        r == *o,
{
    match o {
        Some(s) => Some(s.clone()),
        None => None,
    }
}

impl Clone for Packet {
    fn clone(&self) -> (r: Self)
        ensures
            r == *self,
    {
        Packet {
            packet_type: self.packet_type,
            nsp: clone_opt_string(&self.nsp),
            target: clone_opt_string(&self.target),
            data: match &self.data {
                Some(d) => Some(d.clone()),
                None => None,
            },
        }
    }
}

/// What a packet holds, as characters.
pub struct PacketView {
    pub packet_type: PacketType,
    pub nsp: Option<Seq<char>>,
    pub target: Option<Seq<char>>,
    pub data: Option<Seq<char>>,
}

impl View for Packet {
    type V = PacketView;

    open spec fn view(&self) -> PacketView {
        PacketView {
            packet_type: self.packet_type,
            nsp: opt_view(self.nsp),
            target: opt_view(self.target),
            data: opt_json_view(self.data),
        }
    }
}

/// Why a frame could not be decoded.
#[derive(Debug, Clone, Copy, PartialEq, Eq, Structural)]
pub enum DecodeError {
    /// The frame is not valid UTF-8.
    InvalidUtf8,
    /// The frame does not start with a packet number that fits in a byte.
    InvalidPacketType,
}

/// A packet with a type and nothing else.
pub open spec fn bare_packet(t: PacketType) -> PacketView {
    PacketView { packet_type: t, nsp: None, target: None, data: None }
}

/// `s` with its first and last character taken off.
pub open spec fn strip_ends(s: Seq<char>) -> Seq<char> {
    s.subrange(1, s.len() - 1)
}

/// `None` for the empty sequence, `Some(s)` otherwise.
pub open spec fn nonempty(s: Seq<char>) -> Option<Seq<char>> {
    if s.len() == 0 {
        None
    } else {
        Some(s)
    }
}

/// `split_once(s, c)`, or two empty parts when `s` holds no `c`.
pub open spec fn split_or_empty(s: Seq<char>, c: char) -> (Seq<char>, Seq<char>) {
    match split_once(s, c) {
        Some(p) => p,
        None => (seq![], seq![]),
    }
}

/// `split_once(s, c)`, or `s` and an empty part when `s` holds no `c`.
pub open spec fn split_or_whole(s: Seq<char>, c: char) -> (Seq<char>, Seq<char>) {
    match split_once(s, c) {
        Some(p) => p,
        None => (s, seq![]),
    }
}

/// The frame opens a connection with an object: `0{` or `0\{`.
pub open spec fn is_connect_frame(s: Seq<char>) -> bool {
    starts_with(s, seq!['0', '{']) || starts_with(s, seq!['0', '\\', '{'])
}

/// The part of a frame before the first `,`, and the part after it.
pub open spec fn frame_head(s: Seq<char>) -> Seq<char> {
    split_or_empty(s, ',').0
}

pub open spec fn frame_payload(s: Seq<char>) -> Seq<char> {
    split_or_empty(s, ',').1
}

/// The packet number part of a frame head, and its namespace part.
pub open spec fn head_ident(s: Seq<char>) -> Seq<char> {
    split_or_whole(frame_head(s), '/').0
}

pub open spec fn head_namespace(s: Seq<char>) -> Seq<char> {
    split_or_whole(frame_head(s), '/').1
}

/// The packet number of a frame head: the digits among its first three characters.
pub open spec fn head_code(s: Seq<char>) -> Option<u8> {
    parse_u8_digits(digits_of(prefix_upto(head_ident(s), 3)))
}

/// The quoted target of a `[..]` payload, and the data after it.
pub open spec fn payload_target_part(payload: Seq<char>) -> Seq<char> {
    split_or_empty(strip_ends(payload), ',').0
}

pub open spec fn payload_data_part(payload: Seq<char>) -> Seq<char> {
    split_or_empty(strip_ends(payload), ',').1
}

/// Decoding the text `s` of a frame of `blen` bytes.
pub open spec fn decode_text(s: Seq<char>, blen: int) -> Result<PacketView, DecodeError> {
    if blen < 4 {
        match parse_u8_digits(digits_of(s)) {
            Some(v) => Ok(bare_packet(packet_type_of_code(v))),
            None => Err(DecodeError::InvalidPacketType),
        }
    } else if is_connect_frame(s) && blen > 5 {
        Ok(
            PacketView {
                packet_type: PacketType::Connect,
                nsp: None,
                target: None,
                data: json_normal_form(s.skip(1)),
            },
        )
    } else {
        match head_code(s) {
            None => Err(DecodeError::InvalidPacketType),
            Some(v) => {
                let t = packet_type_of_code(v);
                let nsp = nonempty(head_namespace(s));
                let payload = frame_payload(s);
                if blen < 5 || payload.len() == 0 {
                    Ok(PacketView { packet_type: t, nsp, target: None, data: None })
                } else {
                    Ok(
                        PacketView {
                            packet_type: t,
                            nsp,
                            target: payload_target(payload),
                            data: payload_data(payload),
                        },
                    )
                }
            },
        }
    }
}

/// The target of a payload: the quoted first element of a `[..]` list.
pub open spec fn payload_target(payload: Seq<char>) -> Option<Seq<char>> {
    if payload[0] == '[' && payload_target_part(payload).len() > 0 {
        Some(strip_ends(payload_target_part(payload)))
    } else {
        None
    }
}

/// The data of a payload: what follows the target in a `[..]` list, or the whole payload.
pub open spec fn payload_data(payload: Seq<char>) -> Option<Seq<char>> {
    if payload[0] == '[' {
        json_normal_form(payload_data_part(payload))
    } else {
        json_normal_form(payload)
    }
}

/// Reading a non-empty `[..]` payload slices inside a character.
pub open spec fn payload_slices_inside_char(payload: Seq<char>) -> bool {
    let target_part = payload_target_part(payload);
    &&& payload[0] == '['
    &&& (payload.len() < 2 || !is_ascii_char(payload.last()) || (target_part.len() > 0 && (
    target_part.len() < 2 || !is_ascii_char(target_part[0]) || !is_ascii_char(
        target_part.last(),
    ))))
}

/// The frames of `blen` bytes with text `s` on which decoding slices the text inside a
/// character: a `[` payload of one character or that ends in a character of several bytes,
/// or a target of one character or that starts or ends in one.
pub open spec fn decode_text_slices_inside_char(s: Seq<char>, blen: int) -> bool {
    &&& blen >= 5
    &&& !(is_connect_frame(s) && blen > 5)
    &&& head_code(s) is Some
    &&& frame_payload(s).len() > 0
    &&& payload_slices_inside_char(frame_payload(s))
}

/// Decoding the bytes of a frame.
pub open spec fn decode_bytes(chunk: Seq<u8>) -> Result<PacketView, DecodeError> {
    if vstd::utf8::valid_utf8(chunk) {
        decode_text(vstd::utf8::decode_utf8(chunk), chunk.len() as int)
    } else {
        Err(DecodeError::InvalidUtf8)
    }
}

/// The frames on which decoding would slice inside a character.
pub open spec fn decode_bytes_slices_inside_char(chunk: Seq<u8>) -> bool {
    vstd::utf8::valid_utf8(chunk) && decode_text_slices_inside_char(
        vstd::utf8::decode_utf8(chunk),
        chunk.len() as int,
    )
}

/// Decoding the text `s` of a frame of `blen` bytes up to its payload, which is handed back as
/// it stands; the part after `/` is read as the target.
pub open spec fn decode_raw_text(s: Seq<char>, blen: int) -> Result<
    (PacketView, Option<Seq<char>>),
    DecodeError,
> {
    if blen < 4 {
        match parse_u8_digits(digits_of(s)) {
            Some(v) => Ok((bare_packet(packet_type_of_code(v)), None)),
            None => Err(DecodeError::InvalidPacketType),
        }
    } else if s.len() > 0 && s[0] == '0' && blen > 5 {
        Ok(
            (
                PacketView {
                    packet_type: PacketType::Connect,
                    nsp: None,
                    target: None,
                    data: json_normal_form(s.skip(1)),
                },
                None,
            ),
        )
    } else {
        match head_code(s) {
            None => Err(DecodeError::InvalidPacketType),
            Some(v) => Ok(
                (
                    PacketView {
                        packet_type: packet_type_of_code(v),
                        nsp: None,
                        target: nonempty(head_namespace(s)),
                        data: None,
                    },
                    Some(frame_payload(s)),
                ),
            ),
        }
    }
}

/// Decoding the bytes of a frame up to its payload.
pub open spec fn decode_raw_bytes(chunk: Seq<u8>) -> Result<
    (PacketView, Option<Seq<char>>),
    DecodeError,
> {
    if vstd::utf8::valid_utf8(chunk) {
        decode_raw_text(vstd::utf8::decode_utf8(chunk), chunk.len() as int)
    } else {
        Err(DecodeError::InvalidUtf8)
    }
}

/// The view of a result of `decode_raw`.
pub open spec fn decode_raw_result_view(r: Result<(Packet, Option<&str>), DecodeError>) -> Result<
    (PacketView, Option<Seq<char>>),
    DecodeError,
> {
    match r {
        Ok((p, Some(payload))) => Ok((p@, Some(payload@))),
        Ok((p, None)) => Ok((p@, None)),
        Err(e) => Err(e),
    }
}

/// The text of an encoded packet: the packet number, `/` and the namespace, then the data,
/// which message and ping packets send as a `,[..]` list with the target first, connect
/// packets send as it stands and other packets send as a `[..]` list.
pub open spec fn encode_text(p: PacketView) -> Seq<char> {
    let code = packet_type_code_text(p.packet_type);
    if p.nsp is None && p.target is None && p.data is None {
        code
    } else {
        let ns = match p.nsp {
            Some(n) => seq!['/'] + n,
            None => seq![],
        };
        match p.data {
            None => code + ns + seq![','],
            Some(d) => match p.packet_type {
                PacketType::Connect => code + ns + d,
                PacketType::Message | PacketType::Ping => match p.target {
                    Some(t) => code + ns + seq![',', '[', '"'] + t + seq!['"', ','] + d + seq![']'],
                    None => code + ns + seq![',', '['] + d + seq![']'],
                },
                _ => code + ns + seq!['['] + d + seq![']'],
            },
        }
    }
}

/// The data suits the packet type: an object or null to connect, null to disconnect, a
/// non-empty array for an event, an array for an ack and an object for a connect error.
pub open spec fn data_suits_type(p: PacketView) -> bool {
    match p.data {
        None => false,
        Some(d) => match p.packet_type {
            PacketType::Connect => json_text_is_object(d) || json_text_is_null(d),
            PacketType::Disconnect => json_text_is_null(d),
            PacketType::Event => json_text_is_nonempty_array(d),
            PacketType::Ack => json_text_is_array(d),
            PacketType::ConnectError => json_text_is_object(d),
            _ => false,
        },
    }
}

/// The data text that `new_raw` keeps for a raw text: serde_json's reading of it, or `null`.
pub open spec fn raw_data_text(raw: Seq<char>) -> Seq<char> {
    match json_normal_form(raw) {
        Some(t) => t,
        None => "null"@,
    }
}

/// The view of a decoding result.
pub open spec fn decode_result_view(r: Result<Packet, DecodeError>) -> Result<PacketView, DecodeError> {
    match r {
        Ok(p) => Ok(p@),
        Err(e) => Err(e),
    }
}

impl Packet {
    /// A packet with the given parts.
    pub fn new(
        packet_type: PacketType,
        nsp: Option<String>,
        target: Option<String>,
        data: Option<JsonValue>,
    ) -> (r: Packet)
        ensures
            r@ == (PacketView {
                packet_type,
                nsp: opt_view(nsp),
                target: opt_view(target),
                data: opt_json_view(data),
            }),
    {
        Packet { packet_type, nsp, target, data }
    }

    /// A packet whose data is read from JSON text; text that serde_json refuses gives `null`.
    pub fn new_raw(
        packet_type: PacketType,
        nsp: Option<String>,
        target: Option<String>,
        data: String,
    ) -> (r: Packet)
        ensures
            r@ == (PacketView {
                packet_type,
                nsp: opt_view(nsp),
                target: opt_view(target),
                data: Some(raw_data_text(data@)),
            }),
    {
        let value = match JsonValue::parse(data.as_str()) {
            Some(v) => v,
            None => JsonValue::null(),
        };
        Packet { packet_type, nsp, target, data: Some(value) }
    }

    /// The packet has data of the kind its type calls for.
    pub fn data_is_valid(&self) -> (r: bool)
        ensures
            r == data_suits_type(self@),
    {
        match &self.data {
            None => false,
            Some(data) => match self.packet_type {
                PacketType::Connect => data.is_object() || data.is_null(),
                PacketType::Disconnect => data.is_null(),
                PacketType::Event => data.is_nonempty_array(),
                PacketType::Ack => data.is_array(),
                PacketType::ConnectError => data.is_object(),
                _ => false,
            },
        }
    }

    /// Encodes a packet as the text of a frame.
    pub fn encode(packet: Packet) -> (r: String)
        ensures
            r@ == encode_text(packet@),
            encoding_reads_back(packet@) ==> ({
                let bytes = vstd::utf8::encode_utf8(r@);
                &&& !decode_bytes_slices_inside_char(bytes)
                &&& decode_bytes(bytes) == Ok::<PacketView, DecodeError>(packet@)
            }),
    {
        let mut out = String::new();
        out.append(packet.packet_type.code_str());
        if packet.nsp.is_none() && packet.target.is_none() && packet.data.is_none() {
            proof {
                if encoding_reads_back(packet@) {
                    law_encoding_reads_back(packet@);
                }
            }
            return out;
        }
        proof {
            reveal_strlit("/");
            reveal_strlit(",");
            reveal_strlit(",[\"");
            reveal_strlit("\",");
            reveal_strlit("]");
            reveal_strlit(",[");
            reveal_strlit("[");
        }
        let ghost code = out@;
        if let Some(nsp) = &packet.nsp {
            out.append("/");
            out.append(nsp.as_str());
        }
        let ghost head = out@;
        assert(head == code + match packet@.nsp {
            Some(n) => seq!['/'] + n,
            None => seq![],
        });
        match &packet.data {
            None => {
                out.append(",");
            },
            Some(data) => match packet.packet_type {
                PacketType::Connect => {
                    out.append(data.as_str());
                },
                PacketType::Message | PacketType::Ping => match &packet.target {
                    Some(target) => {
                        out.append(",[\"");
                        out.append(target.as_str());
                        out.append("\",");
                        out.append(data.as_str());
                        out.append("]");
                    },
                    None => {
                        out.append(",[");
                        out.append(data.as_str());
                        out.append("]");
                    },
                },
                _ => {
                    out.append("[");
                    out.append(data.as_str());
                    out.append("]");
                },
            },
        }
        assert(out@ == encode_text(packet@));
        proof {
            if encoding_reads_back(packet@) {
                law_encoding_reads_back(packet@);
            }
        }
        out
    }

    /// Decodes a frame: the packet number, the namespace after `/`, and after the first `,`
    /// either a `[target,data]` list or JSON data. Frames of fewer than four bytes hold only a
    /// packet number, and a frame that starts with `0{` or `0\{` and is longer than five bytes
    /// is a connect packet whose data is the rest of the frame.
    pub fn decode(chunk: &[u8]) -> (r: Result<Packet, DecodeError>)
        requires
            !decode_bytes_slices_inside_char(chunk@),
        ensures
            decode_result_view(r) == decode_bytes(chunk@),
    {
        let s = match str_from_utf8(chunk) {
            Some(s) => s,
            None => {
                return Err(DecodeError::InvalidUtf8);
            },
        };
        assert(s@ == vstd::utf8::decode_utf8(chunk@));
        Self::decode_str(s, chunk.len())
    }

    /// Decodes a frame up to its payload, which is handed back as it stands; the part of the
    /// head after `/` is read as the target. Frames of fewer than four bytes hold only a packet
    /// number, and a frame of more than five bytes that starts with `0` is a connect packet
    /// whose data is the rest of the frame.
    pub fn decode_raw<'a>(chunk: &'a [u8]) -> (r: Result<(Packet, Option<&'a str>), DecodeError>)
        ensures
            decode_raw_result_view(r) == decode_raw_bytes(chunk@),
    {
        let s = match str_from_utf8(chunk) {
            Some(s) => s,
            None => {
                return Err(DecodeError::InvalidUtf8);
            },
        };
        assert(s@ == vstd::utf8::decode_utf8(chunk@));
        let blen = chunk.len();
        let cs = chars_of(s);
        let n = cs.len();
        assert(cs@.subrange(0, n as int) =~= cs@);
        if blen < 4 {
            return match parse_digits_u8(&cs, 0, n) {
                Some(v) => Ok((Packet::new(PacketType::from_u8(v), None, None, None), None)),
                None => Err(DecodeError::InvalidPacketType),
            };
        }
        if n > 0 && cs[0] == '0' && blen > 5 {
            let rest = s.substring_char(1, n);
            assert(rest@ =~= cs@.skip(1));
            return Ok(
                (Packet::new(PacketType::Connect, None, None, JsonValue::parse(rest)), None),
            );
        }
        let (head_end, payload_start, ident_end, ns_start) = Self::frame_parts(&cs);
        let code_end = if ident_end < 3 {
            ident_end
        } else {
            3
        };
        assert(prefix_upto(head_ident(cs@), 3) =~= cs@.subrange(0, code_end as int));
        let v = match parse_digits_u8(&cs, 0, code_end) {
            Some(v) => v,
            None => {
                return Err(DecodeError::InvalidPacketType);
            },
        };
        let target = if ns_start < head_end {
            Some(s.substring_char(ns_start, head_end).to_owned())
        } else {
            None
        };
        let payload = s.substring_char(payload_start, n);
        Ok((Packet::new(PacketType::from_u8(v), None, target, None), Some(payload)))
    }

    /// Whether decoding the frame would slice its text inside a character, which `decode`
    /// does not do: callers test this first.
    pub fn decode_slices_inside_char(chunk: &[u8]) -> (r: bool)
        ensures
            r == decode_bytes_slices_inside_char(chunk@),
    {
        let s = match str_from_utf8(chunk) {
            Some(s) => s,
            None => {
                return false;
            },
        };
        assert(s@ == vstd::utf8::decode_utf8(chunk@));
        let blen = chunk.len();
        let cs = chars_of(s);
        let n = cs.len();
        if blen < 5 {
            return false;
        }
        let connect_frame = n >= 2 && cs[0] == '0' && (cs[1] == '{' || (n >= 3 && cs[1] == '\\'
            && cs[2] == '{'));
        proof {
            assert(connect_frame == is_connect_frame(cs@)) by {
                if n >= 2 {
                    assert(cs@.take(2) =~= seq![cs@[0], cs@[1]]);
                }
                if n >= 3 {
                    assert(cs@.take(3) =~= seq![cs@[0], cs@[1], cs@[2]]);
                }
            }
        }
        if connect_frame && blen > 5 {
            return false;
        }
        let (head_end, payload_start, ident_end, ns_start) = Self::frame_parts(&cs);
        let code_end = if ident_end < 3 {
            ident_end
        } else {
            3
        };
        assert(prefix_upto(head_ident(cs@), 3) =~= cs@.subrange(0, code_end as int));
        if parse_digits_u8(&cs, 0, code_end).is_none() || payload_start >= n {
            return false;
        }
        assert(cs@.skip(payload_start as int) =~= frame_payload(cs@));
        Self::payload_slices_inside_char(&cs, payload_start)
    }

    /// Whether reading the non-empty payload that starts at `start` slices inside a character.
    fn payload_slices_inside_char(cs: &Vec<char>, start: usize) -> (r: bool)
        requires
            start < cs@.len(),
        ensures
            r == payload_slices_inside_char(cs@.skip(start as int)),
    {
        let n = cs.len();
        let ghost payload = cs@.skip(start as int);
        if cs[start] != '[' {
            return false;
        }
        if n - start < 2 || (cs[n - 1] as u32) >= 128 {
            return true;
        }
        let inner_start = start + 1;
        let inner_end = n - 1;
        assert(strip_ends(payload) =~= cs@.subrange(inner_start as int, inner_end as int));
        let target_end = match find_char(cs, inner_start, inner_end, ',') {
            Some(k) => {
                proof {
                    lemma_first_index(
                        cs@.subrange(inner_start as int, inner_end as int),
                        ',',
                        k - inner_start,
                    );
                }
                k
            },
            None => inner_start,
        };
        assert(payload_target_part(payload) =~= cs@.subrange(
            inner_start as int,
            target_end as int,
        ));
        if target_end == inner_start {
            return false;
        }
        target_end - inner_start < 2 || (cs[inner_start] as u32) >= 128 || (cs[target_end
            - 1] as u32) >= 128
    }

    /// Where the head of a frame ends and its payload starts, and where the packet number part
    /// of the head ends and its namespace starts.
    fn frame_parts(cs: &Vec<char>) -> (r: (usize, usize, usize, usize))
        ensures
            r.0 <= r.1 <= cs@.len(),
            r.2 <= r.3 <= r.0,
            frame_head(cs@) == cs@.subrange(0, r.0 as int),
            frame_payload(cs@) == cs@.subrange(r.1 as int, cs@.len() as int),
            head_ident(cs@) == cs@.subrange(0, r.2 as int),
            head_namespace(cs@) == cs@.subrange(r.3 as int, r.0 as int),
    {
        let n = cs.len();
        assert(cs@.subrange(0, n as int) =~= cs@);
        let (head_end, payload_start) = match find_char(cs, 0, n, ',') {
            Some(i) => {
                proof {
                    lemma_first_index(cs@, ',', i as int);
                }
                (i, i + 1)
            },
            None => (0, n),
        };
        assert(frame_head(cs@) =~= cs@.subrange(0, head_end as int));
        assert(frame_payload(cs@) =~= cs@.subrange(payload_start as int, n as int));
        let (ident_end, ns_start) = match find_char(cs, 0, head_end, '/') {
            Some(j) => {
                proof {
                    lemma_first_index(cs@.subrange(0, head_end as int), '/', j as int);
                }
                (j, j + 1)
            },
            None => (head_end, head_end),
        };
        assert(head_ident(cs@) =~= cs@.subrange(0, ident_end as int));
        assert(head_namespace(cs@) =~= cs@.subrange(ns_start as int, head_end as int));
        (head_end, payload_start, ident_end, ns_start)
    }

    /// Decodes the text of a frame of `blen` bytes.
    fn decode_str(s: &str, blen: usize) -> (r: Result<Packet, DecodeError>)
        requires
            !decode_text_slices_inside_char(s@, blen as int),
        ensures
            decode_result_view(r) == decode_text(s@, blen as int),
    {
        let cs = chars_of(s);
        let n = cs.len();
        assert(cs@.subrange(0, n as int) =~= cs@);
        if blen < 4 {
            return match parse_digits_u8(&cs, 0, n) {
                Some(v) => Ok(Packet::new(PacketType::from_u8(v), None, None, None)),
                None => Err(DecodeError::InvalidPacketType),
            };
        }
        let connect_frame = n >= 2 && cs[0] == '0' && (cs[1] == '{' || (n >= 3 && cs[1] == '\\'
            && cs[2] == '{'));
        proof {
            assert(connect_frame == is_connect_frame(cs@)) by {
                if n >= 2 {
                    assert(cs@.take(2) =~= seq![cs@[0], cs@[1]]);
                }
                if n >= 3 {
                    assert(cs@.take(3) =~= seq![cs@[0], cs@[1], cs@[2]]);
                }
            }
        }
        if connect_frame && blen > 5 {
            let rest = s.substring_char(1, n);
            assert(rest@ =~= cs@.skip(1));
            return Ok(Packet::new(PacketType::Connect, None, None, JsonValue::parse(rest)));
        }
        // The head runs up to the first `,`; the payload follows it.

        let (head_end, payload_start, ident_end, ns_start) = Self::frame_parts(&cs);
        let code_end = if ident_end < 3 {
            ident_end
        } else {
            3
        };
        assert(prefix_upto(head_ident(cs@), 3) =~= cs@.subrange(0, code_end as int));
        let v = match parse_digits_u8(&cs, 0, code_end) {
            Some(v) => v,
            None => {
                return Err(DecodeError::InvalidPacketType);
            },
        };
        let packet_type = PacketType::from_u8(v);
        let nsp = if ns_start < head_end {
            Some(s.substring_char(ns_start, head_end).to_owned())
        } else {
            None
        };
        if blen < 5 || payload_start >= n {
            return Ok(Packet::new(packet_type, nsp, None, None));
        }
        assert(head_code(cs@) == Some(v));
        assert(cs@.skip(payload_start as int) =~= frame_payload(cs@));
        let (target, data) = Self::decode_payload(s, &cs, payload_start);
        Ok(Packet::new(packet_type, nsp, target, data))
    }

    /// Reads the target and data of the non-empty payload that starts at `start`.
    fn decode_payload(s: &str, cs: &Vec<char>, start: usize) -> (r: (
        Option<String>,
        Option<JsonValue>,
    ))
        requires
            cs@ == s@,
            start < cs@.len(),
            !payload_slices_inside_char(cs@.skip(start as int)),
        ensures
            opt_view(r.0) == payload_target(cs@.skip(start as int)),
            opt_json_view(r.1) == payload_data(cs@.skip(start as int)),
    {
        let n = cs.len();
        let ghost payload = cs@.skip(start as int);
        if cs[start] == '[' {
            let inner_start = start + 1;
            let inner_end = n - 1;
            assert(strip_ends(payload) =~= cs@.subrange(inner_start as int, inner_end as int));
            let (target_end, rest_start) = match find_char(cs, inner_start, inner_end, ',') {
                Some(k) => {
                    proof {
                        lemma_first_index(
                            cs@.subrange(inner_start as int, inner_end as int),
                            ',',
                            k - inner_start,
                        );
                    }
                    (k, k + 1)
                },
                None => (inner_start, inner_end),
            };
            let rest_end = inner_end;
            assert(payload_target_part(payload) =~= cs@.subrange(
                inner_start as int,
                target_end as int,
            ));
            assert(payload_data_part(payload) =~= cs@.subrange(rest_start as int, rest_end as int));
            let target = if inner_start < target_end {
                let t = s.substring_char(inner_start + 1, target_end - 1);
                assert(t@ =~= strip_ends(payload_target_part(payload)));
                Some(t.to_owned())
            } else {
                None
            };
            let data = JsonValue::parse(s.substring_char(rest_start, rest_end));
            (target, data)
        } else {
            let data = JsonValue::parse(s.substring_char(start, n));
            assert(cs@.subrange(start as int, n as int) =~= payload);
            (None, data)
        }
    }
}

} // verus!
