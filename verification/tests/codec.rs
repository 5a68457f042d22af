use mqtt::packet::{
    ConnackPacket, ConnectPacket, PingreqPacket, PingrespPacket, PubackPacket, PublishPacket,
    QoSWithPacketIdentifier, SubackPacket, SubscribePacket, UnsubackPacket, VariablePacket,
};
use mqtt::control::variable_header::ConnectReturnCode;
use mqtt::{Decodable, Encodable, QualityOfService, TopicFilter, TopicName};
use std::io::Cursor;
use timer_app::packet::{
    assemble, decode, encode, kind, kind_of_byte, read_frame, read_length, CodecError, Packet,
    PacketKind, Parsed,
};

fn connect(client_id: &str) -> Packet {
    Packet::Connect {
        client_id: client_id.to_string(),
        keep_alive_seconds: 30,
        clean_session: true,
    }
}

fn publish(topic: &str, payload: &[u8]) -> Packet {
    Packet::Publish { topic: topic.to_string(), qos: 0, payload: payload.to_vec() }
}

fn subscribe(filter: &str) -> Packet {
    Packet::Subscribe { packet_id: 1, topic_filter: filter.to_string(), qos: 0 }
}

fn written<P: Encodable>(packet: &P) -> Vec<u8> {
    let mut out = Vec::new();
    packet.encode(&mut out).unwrap();
    out
}

#[test]
fn every_packet_that_is_written_is_read_back() {
    let packets = vec![
        connect("01ARZ3NDEKTSV4RRFFQ69G5FAV"),
        connect(""),
        Packet::Connect {
            client_id: "caf\u{e9}".to_string(),
            keep_alive_seconds: 65535,
            clean_session: false,
        },
        publish("/room/a", b"hello"),
        publish("t", b""),
        publish("r\u{e4}ume/7", &[0, 255, 128, 10]),
        subscribe("/room/a"),
        subscribe("sport/+/player1"),
        subscribe("#"),
        Packet::Subscribe { packet_id: 65535, topic_filter: "a/#".to_string(), qos: 0 },
        Packet::ConnAck,
        Packet::PubAck,
        Packet::PubRec,
        Packet::PubRel,
        Packet::PubComp,
        Packet::SubAck,
        Packet::Unsubscribe,
        Packet::UnsubAck,
        Packet::PingReq,
        Packet::PingResp,
        Packet::Disconnect,
    ];
    for p in packets {
        let bytes = encode(&p).unwrap();
        assert_eq!(decode(&bytes), Ok(p));
    }
}

#[test]
fn a_long_payload_is_read_back() {
    let payload: Vec<u8> = (0..70_000u32).map(|i| (i % 251) as u8).collect();
    let p = publish("/room/long", &payload);
    let bytes = encode(&p).unwrap();
    assert_eq!(bytes.len(), 1 + 3 + 2 + 10 + 70_000);
    assert_eq!(decode(&bytes), Ok(p));
}

#[test]
fn the_bytes_of_a_connect_are_those_of_the_protocol() {
    assert_eq!(
        encode(&connect("ab")),
        Some(vec![0x10, 14, 0, 4, b'M', b'Q', b'T', b'T', 4, 2, 0, 30, 0, 2, b'a', b'b'])
    );
    let mut theirs = ConnectPacket::new("ab");
    theirs.set_keep_alive(30);
    theirs.set_clean_session(true);
    assert_eq!(encode(&connect("ab")), Some(written(&theirs)));
}

#[test]
fn the_bytes_of_a_publish_are_those_of_the_protocol() {
    assert_eq!(
        encode(&publish("a/b", b"hi")),
        Some(vec![0x30, 7, 0, 3, b'a', b'/', b'b', b'h', b'i'])
    );
    let theirs = PublishPacket::new(
        TopicName::new("a/b").unwrap(),
        QoSWithPacketIdentifier::Level0,
        b"hi".to_vec(),
    );
    assert_eq!(encode(&publish("a/b", b"hi")), Some(written(&theirs)));
}

#[test]
fn the_bytes_of_a_subscribe_are_those_of_the_protocol() {
    assert_eq!(
        encode(&subscribe("a/b")),
        Some(vec![0x82, 8, 0, 1, 0, 3, b'a', b'/', b'b', 0])
    );
    let theirs = SubscribePacket::new(
        1,
        vec![(TopicFilter::new("a/b").unwrap(), QualityOfService::Level0)],
    );
    assert_eq!(encode(&subscribe("a/b")), Some(written(&theirs)));
}

#[test]
fn the_bytes_of_the_packets_without_fields_are_two() {
    assert_eq!(encode(&Packet::PingReq), Some(vec![0xC0, 0]));
    assert_eq!(encode(&Packet::PingResp), Some(vec![0xD0, 0]));
    assert_eq!(encode(&Packet::Disconnect), Some(vec![0xE0, 0]));
    assert_eq!(encode(&Packet::PingReq), Some(written(&PingreqPacket::new())));
    assert_eq!(encode(&Packet::PingResp), Some(written(&PingrespPacket::new())));
}

#[test]
fn what_cannot_be_written_is_refused() {
    assert_eq!(encode(&publish("", b"x")), None);
    assert_eq!(encode(&publish("a/#", b"x")), None);
    assert_eq!(encode(&publish("a/+/b", b"x")), None);
    assert_eq!(encode(&publish(&"t".repeat(65536), b"x")), None);
    assert!(encode(&publish(&"t".repeat(65535), b"x")).is_some());
    assert_eq!(
        encode(&Packet::Publish { topic: "a".to_string(), qos: 1, payload: vec![] }),
        None
    );
    assert_eq!(encode(&subscribe("")), None);
    assert_eq!(encode(&subscribe("a#")), None);
    assert_eq!(encode(&subscribe("#/a")), None);
    assert_eq!(encode(&subscribe("a+/b")), None);
    assert_eq!(encode(&subscribe("a/+b")), None);
    assert!(encode(&subscribe("+")).is_some());
    assert!(encode(&subscribe("+/+/#")).is_some());
    assert_eq!(
        encode(&Packet::Subscribe { packet_id: 1, topic_filter: "a".to_string(), qos: 2 }),
        None
    );
    assert_eq!(encode(&connect(&"c".repeat(65536))), None);
    assert!(encode(&connect(&"c".repeat(65535))).is_some());
}

#[test]
fn the_packets_of_the_broker_are_written_with_the_identifier_0() {
    assert_eq!(encode(&Packet::ConnAck), Some(vec![0x20, 2, 0, 0]));
    assert_eq!(encode(&Packet::PubAck), Some(vec![0x40, 2, 0, 0]));
    assert_eq!(encode(&Packet::PubRec), Some(vec![0x50, 2, 0, 0]));
    assert_eq!(encode(&Packet::PubRel), Some(vec![0x62, 2, 0, 0]));
    assert_eq!(encode(&Packet::PubComp), Some(vec![0x70, 2, 0, 0]));
    assert_eq!(encode(&Packet::SubAck), Some(vec![0x90, 2, 0, 0]));
    assert_eq!(encode(&Packet::Unsubscribe), Some(vec![0xA2, 2, 0, 0]));
    assert_eq!(encode(&Packet::UnsubAck), Some(vec![0xB0, 2, 0, 0]));
    assert_eq!(
        encode(&Packet::ConnAck),
        Some(written(&ConnackPacket::new(false, ConnectReturnCode::ConnectionAccepted)))
    );
    assert_eq!(encode(&Packet::PubAck), Some(written(&PubackPacket::new(0))));
    assert_eq!(encode(&Packet::SubAck), Some(written(&SubackPacket::new(0, vec![]))));
    assert_eq!(encode(&Packet::UnsubAck), Some(written(&UnsubackPacket::new(0))));
    assert_eq!(kind(&Packet::PubRel), PacketKind::PubRel);
    assert_eq!(kind(&Packet::Publish { topic: "t".to_string(), qos: 0, payload: vec![] }),
        PacketKind::Publish);
}

#[test]
fn packets_of_the_broker_are_told_by_their_type() {
    assert_eq!(
        decode(&written(&ConnackPacket::new(false, ConnectReturnCode::ConnectionAccepted))),
        Ok(Packet::ConnAck)
    );
    assert_eq!(decode(&written(&PubackPacket::new(7))), Ok(Packet::PubAck));
    assert_eq!(
        decode(&written(&SubackPacket::new(1, vec![]))),
        Ok(Packet::SubAck)
    );
    assert_eq!(decode(&written(&UnsubackPacket::new(9))), Ok(Packet::UnsubAck));
    assert_eq!(decode(&[0x50, 2, 0, 1]), Ok(Packet::PubRec));
    assert_eq!(decode(&[0x62, 2, 0, 1]), Ok(Packet::PubRel));
    assert_eq!(decode(&[0x70, 2, 0, 1]), Ok(Packet::PubComp));
    assert_eq!(decode(&[0xA2, 5, 0, 1, 0, 1, b'a']), Ok(Packet::Unsubscribe));
    assert_eq!(decode(&[0xC0, 0]), Ok(Packet::PingReq));
    assert_eq!(decode(&[0xD0, 0]), Ok(Packet::PingResp));
    assert_eq!(decode(&[0xE0, 0]), Ok(Packet::Disconnect));
}

#[test]
fn a_publication_of_a_higher_quality_keeps_its_payload() {
    let theirs = PublishPacket::new(
        TopicName::new("a").unwrap(),
        QoSWithPacketIdentifier::Level1(5),
        b"xy".to_vec(),
    );
    assert_eq!(
        decode(&written(&theirs)),
        Ok(Packet::Publish { topic: "a".to_string(), qos: 1, payload: b"xy".to_vec() })
    );
}

#[test]
fn bytes_after_the_frame_are_not_looked_at() {
    assert_eq!(decode(&[0xC0, 0, 1, 2, 3]), Ok(Packet::PingReq));
    let mut bytes = encode(&publish("a/b", b"hi")).unwrap();
    bytes.extend_from_slice(&[0xFF, 0xFF]);
    assert_eq!(decode(&bytes), Ok(publish("a/b", b"hi")));
}

#[test]
fn too_few_bytes_are_truncated() {
    assert_eq!(decode(&[]), Err(CodecError::Truncated));
    assert_eq!(decode(&[0xC0]), Err(CodecError::Truncated));
    assert_eq!(decode(&[0x30, 0x80]), Err(CodecError::Truncated));
    assert_eq!(decode(&[0x30, 0x80, 0x80]), Err(CodecError::Truncated));
    assert_eq!(decode(&[0x30, 0x80, 0x80, 0x80]), Err(CodecError::Truncated));
    assert_eq!(decode(&[0x30, 7, 0, 3, b'a', b'/', b'b', b'h']), Err(CodecError::Truncated));
    let bytes = encode(&connect("01ARZ3NDEKTSV4RRFFQ69G5FAV")).unwrap();
    for cut in 0..bytes.len() {
        assert_eq!(decode(&bytes[..cut]), Err(CodecError::Truncated));
    }
    // A frame that declares 268 million bytes and brings five.
    assert_eq!(decode(&[0x30, 0xFF, 0xFF, 0xFF, 0x7F, 0]), Err(CodecError::Truncated));
}

#[test]
fn a_first_byte_without_a_type_is_unknown() {
    assert_eq!(decode(&[0x00, 0]), Err(CodecError::UnknownType));
    assert_eq!(decode(&[0x0F, 0]), Err(CodecError::UnknownType));
    assert_eq!(decode(&[0xF0, 0]), Err(CodecError::UnknownType));
    assert_eq!(decode(&[0xFF]), Err(CodecError::UnknownType));
}

#[test]
fn a_frame_that_breaks_its_rules_is_malformed() {
    // A length of five bytes.
    assert_eq!(decode(&[0x30, 0x80, 0x80, 0x80, 0x80, 1]), Err(CodecError::Malformed));
    assert_eq!(decode(&[0x30, 0xFF, 0xFF, 0xFF, 0xFF]), Err(CodecError::Malformed));
    // A topic that is no UTF-8.
    assert_eq!(decode(&[0x30, 4, 0, 2, 0xC3, 0x28]), Err(CodecError::Malformed));
    // A topic filter that is no UTF-8.
    assert_eq!(decode(&[0x82, 7, 0, 1, 0, 2, 0xC3, 0x28, 0]), Err(CodecError::Malformed));
    // A quality of service of 3, in a subscription and in a publication.
    assert_eq!(decode(&[0x82, 6, 0, 1, 0, 1, b'a', 3]), Err(CodecError::Malformed));
    assert_eq!(decode(&[0x36, 5, 0, 1, b'a', 0, 1]), Err(CodecError::Malformed));
    // A topic with a wildcard, and one without a character.
    assert_eq!(decode(&[0x30, 3, 0, 1, b'#']), Err(CodecError::Malformed));
    assert_eq!(decode(&[0x30, 2, 0, 0]), Err(CodecError::Malformed));
    // Flags that the type does not allow.
    assert_eq!(decode(&[0xC1, 0]), Err(CodecError::Malformed));
    assert_eq!(decode(&[0x80, 6, 0, 1, 0, 1, b'a', 0]), Err(CodecError::Malformed));
    // A connect without its protocol name.
    assert_eq!(decode(&[0x10, 0]), Err(CodecError::Malformed));
    // A subscription with two filters, or with none.
    assert_eq!(
        decode(&[0x82, 10, 0, 1, 0, 1, b'a', 0, 0, 1, b'b', 0]),
        Err(CodecError::Malformed)
    );
    assert_eq!(decode(&[0x82, 2, 0, 1]), Err(CodecError::Malformed));
}

#[test]
fn the_crate_reads_what_the_frame_check_lets_through() {
    for bytes in [
        vec![0x30u8, 7, 0, 3, b'a', b'/', b'b', b'h', b'i'],
        vec![0x20, 2, 0, 0],
        vec![0xC0, 0],
        vec![0x82, 8, 0, 1, 0, 3, b'a', b'/', b'b', 0],
    ] {
        assert!(decode(&bytes).is_ok());
        assert!(VariablePacket::decode(&mut Cursor::new(&bytes[..])).is_ok());
    }
}

#[test]
fn the_length_field_takes_one_to_four_bytes() {
    assert_eq!(read_length(&[0x30, 0]), Ok((1, 0)));
    assert_eq!(read_length(&[0x30, 127]), Ok((1, 127)));
    assert_eq!(read_length(&[0x30, 0x80, 1]), Ok((2, 128)));
    assert_eq!(read_length(&[0x30, 0xC1, 0x02]), Ok((2, 321)));
    assert_eq!(read_length(&[0x30, 0xFF, 0x7F]), Ok((2, 16383)));
    assert_eq!(read_length(&[0x30, 0x80, 0x80, 1]), Ok((3, 16384)));
    assert_eq!(read_length(&[0x30, 0xFF, 0xFF, 0x7F]), Ok((3, 2097151)));
    assert_eq!(read_length(&[0x30, 0x80, 0x80, 0x80, 1]), Ok((4, 2097152)));
    assert_eq!(read_length(&[0x30, 0xFF, 0xFF, 0xFF, 0x7F]), Ok((4, 268435455)));
    assert_eq!(read_length(&[0x30]), Err(CodecError::Truncated));
    assert_eq!(read_length(&[0x30, 0x80, 0x80, 0x80, 0x80]), Err(CodecError::Malformed));
}

#[test]
fn the_frame_is_the_header_and_what_it_declares() {
    assert_eq!(read_frame(&[0xC0, 0, 9, 9]), Ok((PacketKind::PingReq, 2)));
    assert_eq!(read_frame(&[0x31, 3, 1, 2, 3]), Ok((PacketKind::Publish, 5)));
    assert_eq!(read_frame(&[0x31, 3, 1, 2]), Err(CodecError::Truncated));
    assert_eq!(read_frame(&[0x01, 3, 1, 2]), Err(CodecError::UnknownType));
    assert_eq!(kind_of_byte(0x10), Some(PacketKind::Connect));
    assert_eq!(kind_of_byte(0x2F), Some(PacketKind::ConnAck));
    assert_eq!(kind_of_byte(0x90), Some(PacketKind::SubAck));
    assert_eq!(kind_of_byte(0xE0), Some(PacketKind::Disconnect));
    assert_eq!(kind_of_byte(0x09), None);
    assert_eq!(kind_of_byte(0xF0), None);
}

#[test]
fn packets_are_made_of_what_was_read() {
    assert_eq!(assemble(PacketKind::Connect, None), Err(CodecError::Malformed));
    assert_eq!(assemble(PacketKind::PingReq, None), Err(CodecError::Malformed));
    assert_eq!(
        assemble(PacketKind::Connect, Some(Parsed::Connect("id".to_string(), 9, false))),
        Ok(Packet::Connect {
            client_id: "id".to_string(),
            keep_alive_seconds: 9,
            clean_session: false
        })
    );
    assert_eq!(
        assemble(PacketKind::Publish, Some(Parsed::Publish("t".to_string(), 2, vec![1, 2]))),
        Ok(Packet::Publish { topic: "t".to_string(), qos: 2, payload: vec![1, 2] })
    );
    assert_eq!(
        assemble(PacketKind::Subscribe, Some(Parsed::Subscribe(4, vec![]))),
        Err(CodecError::Malformed)
    );
    assert_eq!(
        assemble(PacketKind::Subscribe, Some(Parsed::Subscribe(4, vec![("a".to_string(), 1)]))),
        Ok(Packet::Subscribe { packet_id: 4, topic_filter: "a".to_string(), qos: 1 })
    );
    assert_eq!(
        assemble(
            PacketKind::Subscribe,
            Some(Parsed::Subscribe(4, vec![("a".to_string(), 1), ("b".to_string(), 0)]))
        ),
        Err(CodecError::Malformed)
    );
    assert_eq!(assemble(PacketKind::ConnAck, Some(Parsed::Other)), Ok(Packet::ConnAck));
    assert_eq!(assemble(PacketKind::Disconnect, Some(Parsed::Other)), Ok(Packet::Disconnect));
}

#[test]
fn what_was_read_has_to_be_of_the_type_of_the_frame() {
    assert_eq!(assemble(PacketKind::Publish, Some(Parsed::Other)), Err(CodecError::Malformed));
    assert_eq!(assemble(PacketKind::Connect, Some(Parsed::Other)), Err(CodecError::Malformed));
    assert_eq!(assemble(PacketKind::Subscribe, Some(Parsed::Other)), Err(CodecError::Malformed));
    assert_eq!(
        assemble(PacketKind::ConnAck, Some(Parsed::Publish("t".to_string(), 0, vec![]))),
        Err(CodecError::Malformed)
    );
    assert_eq!(
        assemble(PacketKind::Publish, Some(Parsed::Connect("id".to_string(), 9, false))),
        Err(CodecError::Malformed)
    );
    assert_eq!(
        assemble(PacketKind::Connect, Some(Parsed::Subscribe(4, vec![("a".to_string(), 1)]))),
        Err(CodecError::Malformed)
    );
}
