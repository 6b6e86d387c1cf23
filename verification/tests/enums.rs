use socketio_rs::enums::connection::ConnectionType;
use socketio_rs::enums::packet::PacketType;
use socketio_rs::enums::protocol::ProtocolVersion;

const ALL: [PacketType; 9] = [
    PacketType::Connect,
    PacketType::Disconnect,
    PacketType::Event,
    PacketType::Ack,
    PacketType::ConnectError,
    PacketType::BinaryEvent,
    PacketType::BinaryAck,
    PacketType::Ping,
    PacketType::Message,
];

#[test]
fn packet_type_numbers() {
    let numbers: Vec<u8> = ALL.iter().map(|t| u8::from(*t)).collect();
    assert_eq!(numbers, vec![0, 1, 2, 3, 4, 5, 6, 40, 42]);
    for t in ALL {
        assert_eq!(PacketType::from(u8::from(t)), t);
    }
    assert_eq!(PacketType::from(7u8), PacketType::Message);
    assert_eq!(PacketType::default(), PacketType::Message);
}

#[test]
fn packet_type_names() {
    for t in ALL {
        let name: &'static str = t.into();
        assert_eq!(PacketType::from(name), t);
    }
    let name: &'static str = PacketType::ConnectError.into();
    assert_eq!(name, "connect_error");
    assert_eq!(PacketType::from("nothing"), PacketType::Message);
}

#[test]
fn packet_type_number_text() {
    assert_eq!(String::from(PacketType::Ping), "40");
    assert_eq!(String::from(PacketType::Ack), "3");
}

#[test]
fn connection_type_text() {
    assert_eq!(ConnectionType::default().to_string(), "websocket");
    assert_eq!(String::from(ConnectionType::WebSocket), "websocket");
}

#[test]
fn protocol_version_conversions() {
    assert_eq!(ProtocolVersion::from(3u8), ProtocolVersion::V3);
    assert_eq!(ProtocolVersion::from(9u8), ProtocolVersion::V3);
    assert_eq!(ProtocolVersion::from(&4u8), ProtocolVersion::V3);
    assert_eq!(u8::from(ProtocolVersion::V3), 3);
    assert_eq!(ProtocolVersion::V3.to_string(), "3");
    assert_eq!(String::from(ProtocolVersion::default()), "3");
}
