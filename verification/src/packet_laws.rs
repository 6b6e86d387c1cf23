use vstd::prelude::*;

use crate::enums::packet::{packet_type_code, packet_type_code_text, packet_type_of_code, PacketType};
use crate::json::{json_float_free, json_normal_form, json_text_is_nonempty_object, json_written};
use crate::parser::{
    bare_packet, decode_bytes, decode_bytes_slices_inside_char, encode_text, frame_head,
    frame_payload, head_code, head_ident, head_namespace, is_connect_frame, nonempty,
    payload_data_part, payload_target_part, strip_ends, data_suits_type, DecodeError, PacketView,
};
use crate::text::{
    decimal_value, digits_of, has_char, is_ascii_char, is_ascii_digit, is_first_index, lemma_first_index,
    parse_u8_digits, prefix_upto, split_once, starts_with,
};
use vstd::utf8::is_ascii_chars;

verus! {

broadcast use vstd::utf8::encode_utf8_decode_utf8, vstd::utf8::encode_utf8_valid_utf8;

/// Each character takes at least one byte.
pub proof fn lemma_utf8_len_at_least(s: Seq<char>)
    ensures
        vstd::utf8::encode_utf8(s).len() >= s.len(),
    decreases s.len(),
{
    if s.len() > 0 {
        lemma_utf8_len_at_least(s.drop_first());
    }
}

/// Splitting `a + [c] + b` at the first `c`, where `a` holds no `c`, gives `a` and `b`.
pub proof fn lemma_split_once_at(a: Seq<char>, c: char, b: Seq<char>)
    requires
        !has_char(a, c),
    ensures
        split_once(a + seq![c] + b, c) == Some((a, b)),
{
    let s = a + seq![c] + b;
    assert(is_first_index(s, c, a.len() as int)) by {
        assert forall|j: int| 0 <= j < a.len() implies s[j] != c by {
            assert(s[j] == a[j]);
        }
    }
    lemma_first_index(s, c, a.len() as int);
    assert(s.take(a.len() as int) =~= a);
    assert(s.skip(a.len() as int + 1) =~= b);
}

/// A one-digit text is its own digits and denotes its digit.
pub proof fn lemma_one_digit(a: char)
    requires
        is_ascii_digit(a),
    ensures
        digits_of(seq![a]) == seq![a],
        decimal_value(seq![a]) == (a as u32 - 48) as nat,
{
    reveal_with_fuel(digits_of, 2);
    reveal_with_fuel(decimal_value, 2);
    assert(seq![a].drop_last() =~= Seq::<char>::empty());
    assert(seq![a].last() == a);
    assert(digits_of(Seq::<char>::empty()) =~= Seq::<char>::empty());
    assert(digits_of(seq![a]) =~= seq![a]);
}

/// A two-digit text is its own digits and denotes its two digits.
pub proof fn lemma_two_digits(a: char, b: char)
    requires
        is_ascii_digit(a),
        is_ascii_digit(b),
    ensures
        digits_of(seq![a, b]) == seq![a, b],
        decimal_value(seq![a, b]) == (a as u32 - 48) as nat * 10 + (b as u32 - 48) as nat,
{
    lemma_one_digit(a);
    assert(seq![a, b].drop_last() =~= seq![a]);
    assert(seq![a, b].last() == b);
    assert(digits_of(seq![a, b]) =~= seq![a, b]);
}

/// The number text of a packet type reads back as its number.
pub proof fn lemma_code_text_parses(t: PacketType)
    ensures
        packet_type_code_text(t).len() <= 2,
        1 <= packet_type_code_text(t).len(),
        digits_of(packet_type_code_text(t)) == packet_type_code_text(t),
        parse_u8_digits(packet_type_code_text(t)) == Some(packet_type_code(t)),
        !has_char(packet_type_code_text(t), ','),
        !has_char(packet_type_code_text(t), '/'),
        is_ascii_chars(packet_type_code_text(t)),
{
    let ct = packet_type_code_text(t);
    if ct.len() == 2 {
        lemma_two_digits(ct[0], ct[1]);
        assert(ct =~= seq![ct[0], ct[1]]);
    } else {
        lemma_one_digit(ct[0]);
        assert(ct =~= seq![ct[0]]);
    }
}

/// A packet of a bare type decodes from its own encoding.
pub proof fn law_bare_packet_round_trip(t: PacketType)
    ensures
        ({
            let bytes = vstd::utf8::encode_utf8(encode_text(bare_packet(t)));
            &&& !decode_bytes_slices_inside_char(bytes)
            &&& decode_bytes(bytes) == Ok::<PacketView, DecodeError>(bare_packet(t))
        }),
{
    let text = encode_text(bare_packet(t));
    lemma_code_text_parses(t);
    assert(text == packet_type_code_text(t));
    assert(is_ascii_chars(text));
    vstd::utf8::is_ascii_chars_encode_utf8(text);
    assert(packet_type_of_code(packet_type_code(t)) == t);
}

/// A sequence made of two parts holds `c` only where one of the parts does.
pub proof fn lemma_no_char_concat(a: Seq<char>, b: Seq<char>, c: char)
    requires
        !has_char(a, c),
        !has_char(b, c),
    ensures
        !has_char(a + b, c),
{
    assert forall|i: int| 0 <= i < (a + b).len() implies (a + b)[i] != c by {
        if i < a.len() {
            assert((a + b)[i] == a[i]);
        } else {
            assert((a + b)[i] == b[i - a.len()]);
        }
    }
}

/// The namespace part of an encoded packet.
pub open spec fn encoded_namespace(nsp: Option<Seq<char>>) -> Seq<char> {
    match nsp {
        Some(n) => seq!['/'] + n,
        None => seq![],
    }
}

/// A namespace that a frame carries back: none, or a non-empty one without `,`.
pub open spec fn namespace_survives(nsp: Option<Seq<char>>) -> bool {
    match nsp {
        Some(n) => n.len() > 0 && !has_char(n, ','),
        None => true,
    }
}

/// The head of an encoded packet, its number and namespace, reads back as both.
pub proof fn lemma_head_reads_back(t: PacketType, nsp: Option<Seq<char>>, rest: Seq<char>)
    requires
        namespace_survives(nsp),
    ensures
        ({
            let a = packet_type_code_text(t) + encoded_namespace(nsp);
            let s = a + seq![','] + rest;
            &&& frame_head(s) == a
            &&& frame_payload(s) == rest
            &&& head_code(s) == Some(packet_type_code(t))
            &&& nonempty(head_namespace(s)) == nsp
            &&& !has_char(a, ',')
        }),
{
    let code = packet_type_code_text(t);
    let a = code + encoded_namespace(nsp);
    let s = a + seq![','] + rest;
    lemma_code_text_parses(t);
    match nsp {
        Some(n) => {
            assert(!has_char(seq!['/'], ','));
            lemma_no_char_concat(seq!['/'], n, ',');
            lemma_no_char_concat(code, seq!['/'] + n, ',');
            assert(a =~= code + seq!['/'] + n);
            lemma_split_once_at(code, '/', n);
        },
        None => {
            assert(a =~= code);
        },
    }
    lemma_split_once_at(a, ',', rest);
    assert(frame_head(s) == a);
    assert(prefix_upto(head_ident(s), 3) == code);
}

/// A message or ping packet with a target, a namespace that survives and data in serde_json's
/// normal form decodes from its own encoding.
pub proof fn law_targeted_packet_round_trip(p: PacketView)
    requires
        p.packet_type == PacketType::Message || p.packet_type == PacketType::Ping,
        namespace_survives(p.nsp),
        p.target matches Some(tg) && !has_char(tg, ','),
        p.data matches Some(d) && json_normal_form(d) == Some(d),
    ensures
        ({
            let bytes = vstd::utf8::encode_utf8(encode_text(p));
            &&& !decode_bytes_slices_inside_char(bytes)
            &&& decode_bytes(bytes) == Ok::<PacketView, DecodeError>(p)
        }),
{
    let t = p.packet_type;
    let tg = p.target.unwrap();
    let d = p.data.unwrap();
    let code = packet_type_code_text(t);
    let quoted = seq!['"'] + tg + seq!['"'];
    let inner = quoted + seq![','] + d;
    let payload = seq!['['] + inner + seq![']'];
    let text = encode_text(p);
    let a = code + encoded_namespace(p.nsp);
    assert(text =~= a + seq![','] + payload);
    lemma_head_reads_back(t, p.nsp, payload);
    lemma_code_text_parses(t);
    lemma_utf8_len_at_least(text);
    assert(text[0] == code[0]);
    assert(!is_connect_frame(text)) by {
        if starts_with(text, seq!['0', '{']) {
            assert(text.take(2)[0] == '0');
        }
        if starts_with(text, seq!['0', '\\', '{']) {
            assert(text.take(3)[0] == '0');
        }
    }
    assert(strip_ends(payload) =~= inner);
    assert(!has_char(quoted, ',')) by {
        assert(!has_char(seq!['"'], ','));
        lemma_no_char_concat(seq!['"'], tg, ',');
        lemma_no_char_concat(seq!['"'] + tg, seq!['"'], ',');
    }
    lemma_split_once_at(quoted, ',', d);
    assert(payload_target_part(payload) == quoted);
    assert(payload_data_part(payload) == d);
    assert(strip_ends(quoted) =~= tg);
    assert(payload[0] == '[');
    assert(payload.last() == ']');
    assert(quoted[0] == '"');
    assert(quoted.last() == '"');
}

/// A connect packet whose data is an object of at least five characters in serde_json's normal
/// form, with no namespace or target, decodes from its own encoding.
pub proof fn law_connect_packet_round_trip(p: PacketView)
    requires
        p.packet_type == PacketType::Connect,
        p.nsp is None,
        p.target is None,
        p.data matches Some(d) && d.len() >= 5 && d[0] == '{' && json_normal_form(d) == Some(d),
    ensures
        ({
            let bytes = vstd::utf8::encode_utf8(encode_text(p));
            &&& !decode_bytes_slices_inside_char(bytes)
            &&& decode_bytes(bytes) == Ok::<PacketView, DecodeError>(p)
        }),
{
    let d = p.data.unwrap();
    let text = encode_text(p);
    assert(text =~= seq!['0'] + d);
    lemma_utf8_len_at_least(text);
    assert(text.take(2) =~= seq!['0', '{']);
    assert(is_connect_frame(text));
    assert(text.skip(1) =~= d);
}

/// A packet with only a type and a namespace that survives decodes from its own encoding.
pub proof fn law_namespace_packet_round_trip(p: PacketView)
    requires
        p.nsp is Some,
        namespace_survives(p.nsp),
        p.target is None,
        p.data is None,
    ensures
        ({
            let bytes = vstd::utf8::encode_utf8(encode_text(p));
            &&& !decode_bytes_slices_inside_char(bytes)
            &&& decode_bytes(bytes) == Ok::<PacketView, DecodeError>(p)
        }),
{
    let t = p.packet_type;
    let code = packet_type_code_text(t);
    let text = encode_text(p);
    let a = code + encoded_namespace(p.nsp);
    assert(text =~= a + seq![','] + Seq::<char>::empty());
    lemma_head_reads_back(t, p.nsp, Seq::<char>::empty());
    lemma_code_text_parses(t);
    lemma_utf8_len_at_least(text);
    assert(text[code.len() as int] == '/');
    assert(!is_connect_frame(text)) by {
        if starts_with(text, seq!['0', '{']) {
            assert(text.take(2)[1] == '{');
            assert(text[1] == '{');
        }
        if starts_with(text, seq!['0', '\\', '{']) {
            assert(text.take(3)[1] == '\\');
            assert(text[1] == '\\');
        }
    }
}

/// The packets whose encoding decodes back to them: a packet with only a type; one with only a
/// type and a namespace that survives; a message or ping packet with a namespace that survives,
/// a target without `,` and data without floats; and a connect packet with no namespace or
/// target whose data is an object with a member and without floats.
pub open spec fn encoding_reads_back(p: PacketView) -> bool {
    ||| (p.nsp is None && p.target is None && p.data is None)
    ||| (p.nsp is Some && namespace_survives(p.nsp) && p.target is None && p.data is None)
    ||| ((p.packet_type == PacketType::Message || p.packet_type == PacketType::Ping)
        && namespace_survives(p.nsp) && (p.target matches Some(tg) && !has_char(tg, ','))
        && (p.data matches Some(d) && json_float_free(d)))
    ||| (p.packet_type == PacketType::Connect && p.nsp is None && p.target is None && (
    p.data matches Some(d) && json_text_is_nonempty_object(d) && json_float_free(d)))
}

/// A packet of those kinds whose data is text that serde_json writes decodes from its own
/// encoding.
pub proof fn law_encoding_reads_back(p: PacketView)
    requires
        encoding_reads_back(p),
        p.data matches Some(d) ==> json_written(d),
    ensures
        ({
            let bytes = vstd::utf8::encode_utf8(encode_text(p));
            &&& !decode_bytes_slices_inside_char(bytes)
            &&& decode_bytes(bytes) == Ok::<PacketView, DecodeError>(p)
        }),
{
    if p.nsp is None && p.target is None && p.data is None {
        assert(p == bare_packet(p.packet_type));
        law_bare_packet_round_trip(p.packet_type);
    } else if p.nsp is Some && p.target is None && p.data is None {
        law_namespace_packet_round_trip(p);
    } else if p.packet_type == PacketType::Connect && p.target is None {
        law_connect_packet_round_trip(p);
    } else {
        law_targeted_packet_round_trip(p);
    }
}

/// A frame of at least five bytes whose head is a packet number, `/` and a non-empty namespace
/// without `,` decodes to a packet of that type and namespace, whatever follows the first `,`.
pub proof fn law_decode_keeps_namespace(t: PacketType, n: Seq<char>, rest: Seq<char>)
    requires
        n.len() > 0,
        !has_char(n, ','),
        vstd::utf8::encode_utf8(packet_type_code_text(t) + seq!['/'] + n + seq![','] + rest).len()
            >= 5,
    ensures
        ({
            let bytes = vstd::utf8::encode_utf8(
                packet_type_code_text(t) + seq!['/'] + n + seq![','] + rest,
            );
            decode_bytes(bytes) matches Ok(p) && p.packet_type == t && p.nsp == Some(n)
        }),
{
    let code = packet_type_code_text(t);
    let a = code + encoded_namespace(Some(n));
    let text = code + seq!['/'] + n + seq![','] + rest;
    assert(text =~= a + seq![','] + rest);
    lemma_head_reads_back(t, Some(n), rest);
    lemma_code_text_parses(t);
    assert(text[code.len() as int] == '/');
    assert(text[0] == code[0]);
    assert(!is_connect_frame(text)) by {
        if starts_with(text, seq!['0', '{']) {
            assert(text.take(2)[0] == '0');
            assert(text.take(2)[1] == '{');
            assert(text[1] == '{');
        }
        if starts_with(text, seq!['0', '\\', '{']) {
            assert(text.take(3)[0] == '0');
            assert(text.take(3)[1] == '\\');
            assert(text[1] == '\\');
        }
    }
    assert(packet_type_of_code(packet_type_code(t)) == t);
}

/// The encoding of a packet with a namespace starts with the packet's number, `/` and the
/// namespace, whatever its type, target and data; without a namespace it starts with the
/// number.
pub proof fn law_encode_starts_with_namespace(p: PacketView)
    ensures
        p.nsp matches Some(n) ==> starts_with(
            encode_text(p),
            packet_type_code_text(p.packet_type) + seq!['/'] + n,
        ),
        starts_with(encode_text(p), packet_type_code_text(p.packet_type)),
{
    let code = packet_type_code_text(p.packet_type);
    let text = encode_text(p);
    let ns = encoded_namespace(p.nsp);
    let rest: Seq<char> = if p.nsp is None && p.target is None && p.data is None {
        seq![]
    } else {
        match p.data {
            None => seq![','],
            Some(d) => match p.packet_type {
                PacketType::Connect => d,
                PacketType::Message | PacketType::Ping => match p.target {
                    Some(t) => seq![',', '[', '"'] + t + seq!['"', ','] + d + seq![']'],
                    None => seq![',', '['] + d + seq![']'],
                },
                _ => seq!['['] + d + seq![']'],
            },
        }
    };
    if p.nsp is None && p.target is None && p.data is None {
        assert(text =~= code);
    } else {
        assert(text =~= code + ns + rest);
    }
    let head = code + ns;
    assert(text =~= head + rest);
    assert(text.take(head.len() as int) =~= head);
    assert(text.take(code.len() as int) =~= code);
    if p.nsp is Some {
        assert(head =~= code + seq!['/'] + p.nsp.unwrap());
    }
}

/// What data suits each packet type, by its first character: an event takes an array with an
/// element, an ack any array, a connect error an object, a connect an object or `null`, a
/// disconnect only `null`, and the other types nothing; a packet without data never suits.
pub proof fn law_data_validity(p: PacketView)
    ensures
        p.data is None ==> !data_suits_type(p),
        p.data matches Some(d) ==> (p.packet_type == PacketType::Event ==> (data_suits_type(p) <==> (
        d.len() > 0 && d[0] == '[' && d != seq!['[', ']']))),
        p.data matches Some(d) ==> (p.packet_type == PacketType::Ack ==> (data_suits_type(p) <==> (
        d.len() > 0 && d[0] == '['))),
        p.data matches Some(d) ==> (p.packet_type == PacketType::ConnectError ==> (data_suits_type(p)
            <==> (d.len() > 0 && d[0] == '{'))),
        p.data matches Some(d) ==> (p.packet_type == PacketType::Connect ==> (data_suits_type(p) <==> (
        (d.len() > 0 && d[0] == '{') || d == seq!['n', 'u', 'l', 'l']))),
        p.data matches Some(d) ==> (p.packet_type == PacketType::Disconnect ==> (data_suits_type(p)
            <==> d == seq!['n', 'u', 'l', 'l'])),
        (p.packet_type == PacketType::BinaryEvent || p.packet_type == PacketType::BinaryAck
            || p.packet_type == PacketType::Ping || p.packet_type == PacketType::Message)
            ==> !data_suits_type(p),
{
    reveal_strlit("[]");
    reveal_strlit("null");
    assert("[]"@ =~= seq!['[', ']']);
    assert("null"@ =~= seq!['n', 'u', 'l', 'l']);
}

} // verus!
