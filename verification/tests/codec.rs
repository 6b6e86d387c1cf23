use socketio_rs::enums::packet::PacketType;
use socketio_rs::json::JsonValue;
use socketio_rs::parser::{DecodeError, Packet};

fn json(text: &str) -> JsonValue {
    JsonValue::parse(text).expect("valid JSON")
}

fn text_of(p: &Packet) -> Option<String> {
    p.data.as_ref().map(|d| d.as_str().to_string())
}

#[test]
fn decode_short_frame_reads_only_the_number() {
    let p = Packet::decode(b"42").unwrap();
    assert_eq!(p, Packet::new(PacketType::Message, None, None, None));
    let p = Packet::decode(b"3").unwrap();
    assert_eq!(p.packet_type, PacketType::Ack);
}

#[test]
fn decode_short_frame_without_digits_fails() {
    assert_eq!(Packet::decode(b"ab"), Err(DecodeError::InvalidPacketType));
}

#[test]
fn decode_short_frame_with_unknown_number_is_message() {
    let p = Packet::decode(b"99").unwrap();
    assert_eq!(p.packet_type, PacketType::Message);
}

#[test]
fn decode_invalid_utf8_fails() {
    assert_eq!(Packet::decode(&[0x34, 0x32, 0xff, 0xfe]), Err(DecodeError::InvalidUtf8));
}

#[test]
fn decode_message_with_target_and_data() {
    let p = Packet::decode(br#"42,["chat",{"a":1}]"#).unwrap();
    assert_eq!(p.packet_type, PacketType::Message);
    assert_eq!(p.nsp, None);
    assert_eq!(p.target.as_deref(), Some("chat"));
    assert_eq!(text_of(&p).as_deref(), Some(r#"{"a":1}"#));
}

#[test]
fn decode_message_with_namespace() {
    let p = Packet::decode(br#"42/admin,["chat",[1, 2]]"#).unwrap();
    assert_eq!(p.nsp.as_deref(), Some("admin"));
    assert_eq!(p.target.as_deref(), Some("chat"));
    assert_eq!(text_of(&p).as_deref(), Some("[1,2]"));
}

#[test]
fn decode_connect_object_frame() {
    let p = Packet::decode(br#"0{"sid":"abc"}"#).unwrap();
    assert_eq!(p.packet_type, PacketType::Connect);
    assert_eq!(text_of(&p).as_deref(), Some(r#"{"sid":"abc"}"#));
}

#[test]
fn decode_plain_payload_is_data() {
    let p = Packet::decode(b"2,\"hello\"").unwrap();
    assert_eq!(p.packet_type, PacketType::Event);
    assert_eq!(p.target, None);
    assert_eq!(text_of(&p).as_deref(), Some("\"hello\""));
}

#[test]
fn decode_list_without_comma_has_no_data() {
    let p = Packet::decode(b"42,[1]").unwrap();
    assert_eq!(p.target, None);
    assert_eq!(p.data, None);
}

#[test]
fn decode_invalid_json_gives_no_data() {
    let p = Packet::decode(b"2,{oops").unwrap();
    assert_eq!(p.data, None);
}

#[test]
fn decode_head_reads_three_characters() {
    let p = Packet::decode(b"4x2/a,").unwrap();
    assert_eq!(p.packet_type, PacketType::Message);
    assert_eq!(p.nsp.as_deref(), Some("a"));
}

#[test]
fn decode_slicing_inside_a_character_is_detected() {
    assert!(Packet::decode_slices_inside_char(b"222,["));
    assert!(Packet::decode_slices_inside_char("42,[\"a\",1é".as_bytes()));
    assert!(!Packet::decode_slices_inside_char(br#"42,["chat",1]"#));
    assert!(!Packet::decode_slices_inside_char(b"42"));
}

#[test]
fn decode_raw_keeps_payload() {
    let chunk: &[u8] = br#"42/room,["a",1]"#;
    let (p, payload) = Packet::decode_raw(chunk).unwrap();
    assert_eq!(p.packet_type, PacketType::Message);
    assert_eq!(p.nsp, None);
    assert_eq!(p.target.as_deref(), Some("room"));
    assert_eq!(payload, Some(r#"["a",1]"#));
}

#[test]
fn decode_raw_connect_frame() {
    let chunk: &[u8] = br#"0{"x":true}"#;
    let (p, payload) = Packet::decode_raw(chunk).unwrap();
    assert_eq!(p.packet_type, PacketType::Connect);
    assert_eq!(text_of(&p).as_deref(), Some(r#"{"x":true}"#));
    assert_eq!(payload, None);
}

#[test]
fn encode_bare_packet() {
    let p = Packet::new(PacketType::Ping, None, None, None);
    assert_eq!(Packet::encode(p), "40");
}

#[test]
fn encode_namespace_without_data() {
    let p = Packet::new(PacketType::Event, Some("chat".to_string()), None, None);
    assert_eq!(Packet::encode(p), "2/chat,");
}

#[test]
fn encode_message_with_target() {
    let p = Packet::new(PacketType::Message, None, Some("hi".to_string()), Some(json("[1,2]")));
    assert_eq!(Packet::encode(p), r#"42,["hi",[1,2]]"#);
}

#[test]
fn encode_message_without_target() {
    let p = Packet::new(PacketType::Message, Some("n".to_string()), None, Some(json("1")));
    assert_eq!(Packet::encode(p), "42/n,[1]");
}

#[test]
fn encode_connect_with_data() {
    let p = Packet::new(PacketType::Connect, None, None, Some(json(r#"{"a":1}"#)));
    assert_eq!(Packet::encode(p), r#"0{"a":1}"#);
}

#[test]
fn encode_event_with_data() {
    let p = Packet::new(PacketType::Event, None, None, Some(json("\"x\"")));
    assert_eq!(Packet::encode(p), "2[\"x\"]");
}

#[test]
fn targeted_packet_round_trip() {
    let p = Packet::new(
        PacketType::Message,
        Some("room".to_string()),
        Some("say".to_string()),
        Some(json(r#"{"text":"hi, you"}"#)),
    );
    let frame = Packet::encode(p.clone());
    assert!(!Packet::decode_slices_inside_char(frame.as_bytes()));
    assert_eq!(Packet::decode(frame.as_bytes()).unwrap(), p);
}

#[test]
fn bare_packet_round_trip() {
    for t in [PacketType::Connect, PacketType::BinaryAck, PacketType::Ping, PacketType::Message] {
        let p = Packet::new(t, None, None, None);
        let frame = Packet::encode(p.clone());
        assert_eq!(Packet::decode(frame.as_bytes()).unwrap(), p);
    }
}

#[test]
fn connect_packet_round_trip() {
    let p = Packet::new(PacketType::Connect, None, None, Some(json(r#"{"sid":"x1"}"#)));
    let frame = Packet::encode(p.clone());
    assert_eq!(Packet::decode(frame.as_bytes()).unwrap(), p);
}

#[test]
fn namespace_packet_round_trip() {
    let p = Packet::new(PacketType::Disconnect, Some("chat".to_string()), None, None);
    let frame = Packet::encode(p.clone());
    assert_eq!(Packet::decode(frame.as_bytes()).unwrap(), p);
}

#[test]
fn new_raw_keeps_json_or_null() {
    let p = Packet::new_raw(PacketType::Event, None, None, " [1, 2] ".to_string());
    assert_eq!(text_of(&p).as_deref(), Some("[1,2]"));
    let p = Packet::new_raw(PacketType::Event, None, None, "not json".to_string());
    assert_eq!(text_of(&p).as_deref(), Some("null"));
}

#[test]
fn data_is_valid_by_type() {
    let with = |t, d: Option<&str>| Packet::new(t, None, None, d.map(json)).data_is_valid();
    assert!(with(PacketType::Connect, Some("{}")));
    assert!(with(PacketType::Connect, Some("null")));
    assert!(!with(PacketType::Connect, Some("[]")));
    assert!(with(PacketType::Disconnect, Some("null")));
    assert!(!with(PacketType::Disconnect, Some("{}")));
    assert!(with(PacketType::Event, Some("[1]")));
    assert!(!with(PacketType::Event, Some("[]")));
    assert!(with(PacketType::Ack, Some("[]")));
    assert!(with(PacketType::ConnectError, Some(r#"{"m":1}"#)));
    assert!(!with(PacketType::Message, Some("[1]")));
    assert!(!with(PacketType::Event, None));
}

#[test]
fn json_value_reads_and_writes() {
    assert_eq!(json(" { \"a\" : [ true , null ] } ").as_str(), r#"{"a":[true,null]}"#);
    assert!(JsonValue::parse("{").is_none());
    assert_eq!(JsonValue::string("a\"b").as_str(), r#""a\"b""#);
    assert_eq!(JsonValue::null().as_str(), "null");
    assert!(json("[1]").is_nonempty_array());
    assert!(!json("[]").is_nonempty_array());
    assert!(json("{}").is_object());
    assert!(json("null").is_null());
}

#[test]
fn json_equality_follows_serde_json() {
    assert_eq!(json("-0.0"), json("0.0"));
    assert_ne!(json("-0.0").as_str(), json("0.0").as_str());
    assert_ne!(json("1"), json("1.0"));
    assert_eq!(json(r#"{"b":1,"a":2}"#), json(r#"{ "a" : 2, "b" : 1 }"#));
    let with = |d: &str| Packet::new(PacketType::Event, None, None, Some(json(d)));
    assert_eq!(with("[-0.0]"), with("[0.0]"));
    assert_ne!(with("[1]"), with("[2]"));
}

#[test]
fn json_string_escapes() {
    assert_eq!(
        JsonValue::string("a\u{1}\u{1f}\n\t\r\u{8}\u{c}\"\\/\u{7f}é").as_str(),
        "\"a\\u0001\\u001f\\n\\t\\r\\b\\f\\\"\\\\/\u{7f}é\""
    );
    assert_eq!(JsonValue::string("").as_str(), "\"\"");
}
