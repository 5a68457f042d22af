//! The control packets of the publish/subscribe protocol, and their wire
//! form.
//!
//! The frame around a packet (the type in the first byte, the length that
//! follows it, and the check that so many bytes are there) is read here.
//! The packets' bodies are written and read by the `mqtt` crate, whose
//! results the contracts call by name.
use mqtt::control::variable_header::ConnectReturnCode;
use mqtt::packet::{
    ConnackPacket, ConnectPacket, DisconnectPacket, PingreqPacket, PingrespPacket, PubackPacket,
    PubcompPacket, PublishPacket, PubrecPacket, PubrelPacket, QoSWithPacketIdentifier,
    SubackPacket, SubscribePacket, UnsubackPacket, UnsubscribePacket, VariablePacket,
};
use mqtt::{Decodable, Encodable, QualityOfService, TopicFilter, TopicName};
use std::io::Cursor;
use vstd::prelude::*;
use vstd::slice::slice_subrange;
use vstd::string::*;
use vstd::utf8::encode_utf8;

verus! {

/// A control packet.
#[derive(Clone, Debug, PartialEq, Eq)]
pub enum Packet {
    Connect { client_id: String, keep_alive_seconds: u16, clean_session: bool },
    ConnAck,
    Publish { topic: String, qos: u8, payload: Vec<u8> },
    PubAck,
    PubRec,
    PubRel,
    PubComp,
    Subscribe { packet_id: u16, topic_filter: String, qos: u8 },
    SubAck,
    Unsubscribe,
    UnsubAck,
    PingReq,
    PingResp,
    Disconnect,
}

/// What a [`Packet`] stands for: the same packet with its text as
/// characters and its payload as a sequence of bytes.
pub enum PacketView {
    Connect { client_id: Seq<char>, keep_alive_seconds: u16, clean_session: bool },
    ConnAck,
    Publish { topic: Seq<char>, qos: u8, payload: Seq<u8> },
    PubAck,
    PubRec,
    PubRel,
    PubComp,
    Subscribe { packet_id: u16, topic_filter: Seq<char>, qos: u8 },
    SubAck,
    Unsubscribe,
    UnsubAck,
    PingReq,
    PingResp,
    Disconnect,
}

impl View for Packet {
    type V = PacketView;

    open spec fn view(&self) -> PacketView {
        match *self {
            Packet::Connect { client_id, keep_alive_seconds, clean_session } => PacketView::Connect {
                client_id: client_id@,
                keep_alive_seconds,
                clean_session,
            },
            Packet::ConnAck => PacketView::ConnAck,
            Packet::Publish { topic, qos, payload } => PacketView::Publish {
                topic: topic@,
                qos,
                payload: payload@,
            },
            Packet::PubAck => PacketView::PubAck,
            Packet::PubRec => PacketView::PubRec,
            Packet::PubRel => PacketView::PubRel,
            Packet::PubComp => PacketView::PubComp,
            Packet::Subscribe { packet_id, topic_filter, qos } => PacketView::Subscribe {
                packet_id,
                topic_filter: topic_filter@,
                qos,
            },
            Packet::SubAck => PacketView::SubAck,
            Packet::Unsubscribe => PacketView::Unsubscribe,
            Packet::UnsubAck => PacketView::UnsubAck,
            Packet::PingReq => PacketView::PingReq,
            Packet::PingResp => PacketView::PingResp,
            Packet::Disconnect => PacketView::Disconnect,
        }
    }
}

/// Why a sequence of bytes is no packet.
#[derive(Clone, Copy, Debug, PartialEq, Eq, Structural)]
pub enum CodecError {
    /// Fewer bytes are there than the frame declares.
    Truncated,
    /// The first byte names no packet type.
    UnknownType,
    /// The frame is whole, but what it holds breaks the rules of its type.
    Malformed,
}

/// The type of a packet, as the upper half of a frame's first byte tells
/// it.
#[derive(Clone, Copy, Debug, PartialEq, Eq, Structural)]
pub enum PacketKind {
    Connect,
    ConnAck,
    Publish,
    PubAck,
    PubRec,
    PubRel,
    PubComp,
    Subscribe,
    SubAck,
    Unsubscribe,
    UnsubAck,
    PingReq,
    PingResp,
    Disconnect,
}

/// The longest text that fits the 16-bit length in front of it.
pub const MAX_TEXT_BYTES: usize = 65535;

/// The longest payload that this library publishes: with the longest topic
/// and the two bytes of its length the body still fits the largest frame.
pub const MAX_PAYLOAD_BYTES: usize = 268369918;

/// The type that a first byte names: its upper four bits, from 1 to 14.
pub open spec fn kind_of(first: u8) -> Option<PacketKind> {
    let code = first / 16;
    if code == 1 {
        Some(PacketKind::Connect)
    } else if code == 2 {
        Some(PacketKind::ConnAck)
    } else if code == 3 {
        Some(PacketKind::Publish)
    } else if code == 4 {
        Some(PacketKind::PubAck)
    } else if code == 5 {
        Some(PacketKind::PubRec)
    } else if code == 6 {
        Some(PacketKind::PubRel)
    } else if code == 7 {
        Some(PacketKind::PubComp)
    } else if code == 8 {
        Some(PacketKind::Subscribe)
    } else if code == 9 {
        Some(PacketKind::SubAck)
    } else if code == 10 {
        Some(PacketKind::Unsubscribe)
    } else if code == 11 {
        Some(PacketKind::UnsubAck)
    } else if code == 12 {
        Some(PacketKind::PingReq)
    } else if code == 13 {
        Some(PacketKind::PingResp)
    } else if code == 14 {
        Some(PacketKind::Disconnect)
    } else {
        None
    }
}

/// The length field of a frame: how many bytes it takes, and the number
/// of bytes that it says follow. Each byte carries seven bits, the lowest
/// first, and marks with its top bit that another follows; after four
/// bytes none may follow.
pub open spec fn length_field(b: Seq<u8>) -> Result<(int, int), CodecError> {
    if b.len() < 2 {
        Err(CodecError::Truncated)
    } else if b[1] < 128 {
        Ok((1, b[1] as int))
    } else if b.len() < 3 {
        Err(CodecError::Truncated)
    } else if b[2] < 128 {
        Ok((2, b[1] % 128 + b[2] * 128))
    } else if b.len() < 4 {
        Err(CodecError::Truncated)
    } else if b[3] < 128 {
        Ok((3, b[1] % 128 + (b[2] % 128) * 128 + b[3] * 16384))
    } else if b.len() < 5 {
        Err(CodecError::Truncated)
    } else if b[4] < 128 {
        Ok((4, b[1] % 128 + (b[2] % 128) * 128 + (b[3] % 128) * 16384 + b[4] * 2097152))
    } else {
        Err(CodecError::Malformed)
    }
}

/// The frame at the start of `b`: its type and its length in bytes, header
/// and body together.
pub open spec fn frame_of(b: Seq<u8>) -> Result<(PacketKind, int), CodecError> {
    if b.len() == 0 {
        Err(CodecError::Truncated)
    } else {
        match kind_of(b[0]) {
            None => Err(CodecError::UnknownType),
            Some(kind) => match length_field(b) {
                Err(e) => Err(e),
                Ok((width, remaining)) => if b.len() < 1 + width + remaining {
                    Err(CodecError::Truncated)
                } else {
                    Ok((kind, 1 + width + remaining))
                },
            },
        }
    }
}

/// The first byte of a frame of the given type: the type in the upper
/// half, and in the lower half the flags that the type asks for (for a
/// publication those of quality of service 0).
pub open spec fn first_byte(kind: PacketKind) -> u8 {
    match kind {
        PacketKind::Connect => 16,
        PacketKind::ConnAck => 32,
        PacketKind::Publish => 48,
        PacketKind::PubAck => 64,
        PacketKind::PubRec => 80,
        PacketKind::PubRel => 98,
        PacketKind::PubComp => 112,
        PacketKind::Subscribe => 130,
        PacketKind::SubAck => 144,
        PacketKind::Unsubscribe => 162,
        PacketKind::UnsubAck => 176,
        PacketKind::PingReq => 192,
        PacketKind::PingResp => 208,
        PacketKind::Disconnect => 224,
    }
}

/// Whether a packet of this type has no body.
pub open spec fn is_bare(kind: PacketKind) -> bool {
    kind == PacketKind::PingReq || kind == PacketKind::PingResp || kind == PacketKind::Disconnect
}

/// Whether this library writes a packet of this type with a packet
/// identifier and nothing else.
pub open spec fn carries_only_id(kind: PacketKind) -> bool {
    ||| kind == PacketKind::PubAck
    ||| kind == PacketKind::PubRec
    ||| kind == PacketKind::PubRel
    ||| kind == PacketKind::PubComp
    ||| kind == PacketKind::SubAck
    ||| kind == PacketKind::Unsubscribe
    ||| kind == PacketKind::UnsubAck
}

/// The bytes that this library writes for a packet without fields: a
/// packet without a body as it is, the broker's greeting as an acceptance
/// of a new session, and any other with the packet identifier 0 and an
/// empty list.
pub open spec fn plain_image(kind: PacketKind) -> Seq<u8> {
    if is_bare(kind) {
        seq![first_byte(kind), 0u8]
    } else {
        seq![first_byte(kind), 2u8, 0u8, 0u8]
    }
}

/// Whether `b` is one frame and nothing more.
pub open spec fn is_whole_frame(b: Seq<u8>) -> bool {
    frame_of(b) matches Ok(f) && f.1 == b.len()
}

/// The frame at the start of a sequence of bytes is a whole frame by
/// itself, of the same type.
pub proof fn lemma_frame_stands_alone(b: Seq<u8>)
    requires
        frame_of(b) is Ok,
    ensures
        frame_of(b.subrange(0, frame_of(b)->Ok_0.1)) == frame_of(b),
        is_whole_frame(b.subrange(0, frame_of(b)->Ok_0.1)),
{
    let len = frame_of(b)->Ok_0.1;
    let frame = b.subrange(0, len);
    assert(length_field(frame) == length_field(b));
}

/// Whether `s` can name a topic to publish on: it is not empty, takes at
/// most 65535 bytes, and holds neither `#` nor `+`.
pub open spec fn valid_topic_name(s: Seq<char>) -> bool {
    &&& s.len() > 0
    &&& encode_utf8(s).len() <= MAX_TEXT_BYTES
    &&& forall|i: int| 0 <= i < s.len() ==> s[i] != '#' && s[i] != '+'
}

/// Whether `s` can name the topics to subscribe to: it is not empty and
/// takes at most 65535 bytes; a `+` stands alone between two `/`, and a
/// `#` stands alone after the last `/`.
pub open spec fn valid_topic_filter(s: Seq<char>) -> bool {
    &&& s.len() > 0
    &&& encode_utf8(s).len() <= MAX_TEXT_BYTES
    &&& forall|i: int|
        0 <= i < s.len() && #[trigger] s[i] == '#' ==> i == s.len() - 1 && (i == 0 || s[i - 1]
            == '/')
    &&& forall|i: int|
        0 <= i < s.len() && #[trigger] s[i] == '+' ==> (i == 0 || s[i - 1] == '/') && (i
            == s.len() - 1 || s[i + 1] == '/')
}

/// The bytes that the `mqtt` crate writes for a CONNECT packet with this
/// client identifier, keep-alive and clean-session flag.
pub uninterp spec fn connect_frame(client_id: Seq<char>, keep_alive: u16, clean_session: bool) -> Seq<u8>;

/// The bytes that the `mqtt` crate writes for a PUBLISH packet on this
/// topic with this payload, at quality of service 0.
pub uninterp spec fn publish_frame(topic: Seq<char>, payload: Seq<u8>) -> Seq<u8>;

/// The bytes that the `mqtt` crate writes for a SUBSCRIBE packet with this
/// identifier and this one topic filter, at quality of service 0.
pub uninterp spec fn subscribe_frame(packet_id: u16, filter: Seq<char>) -> Seq<u8>;

/// What the `mqtt` crate read from a frame, as far as this library looks
/// at it: the fields of the three packets that carry text, and of every
/// other packet only that it was read.
#[derive(Clone, Debug, PartialEq, Eq)]
pub enum Parsed {
    /// Client identifier, keep-alive in seconds, clean-session flag.
    Connect(String, u16, bool),
    /// Topic, quality of service, payload.
    Publish(String, u8, Vec<u8>),
    /// Packet identifier, and each topic filter with its quality of
    /// service.
    Subscribe(u16, Vec<(String, u8)>),
    /// A packet of another type.
    Other,
}

/// What a [`Parsed`] stands for.
pub enum ParsedView {
    Connect(Seq<char>, u16, bool),
    Publish(Seq<char>, u8, Seq<u8>),
    Subscribe(u16, Seq<(Seq<char>, u8)>),
    Other,
}

/// The filters of a list with their text as characters.
pub open spec fn filters_view(list: Seq<(String, u8)>) -> Seq<(Seq<char>, u8)> {
    list.map_values(|f: (String, u8)| (f.0@, f.1))
}

impl View for Parsed {
    type V = ParsedView;

    open spec fn view(&self) -> ParsedView {
        match *self {
            Parsed::Connect(client_id, keep_alive, clean_session) => ParsedView::Connect(
                client_id@,
                keep_alive,
                clean_session,
            ),
            Parsed::Publish(topic, qos, payload) => ParsedView::Publish(topic@, qos, payload@),
            Parsed::Subscribe(packet_id, filters) => ParsedView::Subscribe(
                packet_id,
                filters_view(filters@),
            ),
            Parsed::Other => ParsedView::Other,
        }
    }
}

/// What the `mqtt` crate reads from these bytes, where it reads a packet.
pub uninterp spec fn wire_read(frame: Seq<u8>) -> Option<ParsedView>;

/// Writes a CONNECT packet: `mqtt::packet::ConnectPacket::new` with
/// `set_keep_alive` and `set_clean_session`, then `mqtt::Encodable::encode`
/// into an empty vector. The contract gives the bytes their name. The
/// identifier has to fit its 16-bit length, which `encode` asserts.
#[verifier::external_body]
fn connect_bytes(client_id: &str, keep_alive: u16, clean_session: bool) -> (out: Vec<u8>)
    requires
        encode_utf8(client_id@).len() <= MAX_TEXT_BYTES,
    ensures
        out@ == connect_frame(client_id@, keep_alive, clean_session),
{
    let mut packet = ConnectPacket::new(client_id);
    packet.set_keep_alive(keep_alive);
    packet.set_clean_session(clean_session);
    let mut out = Vec::new();
    packet.encode(&mut out).unwrap_or(());
    out
}

/// Writes a PUBLISH packet at quality of service 0: `mqtt::TopicName::new`,
/// `mqtt::packet::PublishPacket::new`, then `mqtt::Encodable::encode` into
/// an empty vector. `TopicName::new` refuses exactly the texts that are no
/// valid topic name; for the others the contract gives the bytes their
/// name. The payload is bounded so that the frame's length can be written.
#[verifier::external_body]
fn publish_bytes(topic: &str, payload: &[u8]) -> (out: Option<Vec<u8>>)
    requires
        payload@.len() <= MAX_PAYLOAD_BYTES,
    ensures
        out is Some <==> valid_topic_name(topic@),
        out matches Some(bytes) ==> bytes@ == publish_frame(topic@, payload@),
{
    let name = TopicName::new(topic).ok()?;
    let packet = PublishPacket::new(name, QoSWithPacketIdentifier::Level0, payload);
    let mut out = Vec::new();
    packet.encode(&mut out).ok()?;
    Some(out)
}

/// Writes a SUBSCRIBE packet for one filter at quality of service 0:
/// `mqtt::TopicFilter::new`, `mqtt::packet::SubscribePacket::new`, then
/// `mqtt::Encodable::encode` into an empty vector. `TopicFilter::new`
/// refuses exactly the texts that are no valid topic filter; for the
/// others the contract gives the bytes their name.
#[verifier::external_body]
fn subscribe_bytes(packet_id: u16, filter: &str) -> (out: Option<Vec<u8>>)
    ensures
        out is Some <==> valid_topic_filter(filter@),
        out matches Some(bytes) ==> bytes@ == subscribe_frame(packet_id, filter@),
{
    let filter = TopicFilter::new(filter).ok()?;
    let packet = SubscribePacket::new(packet_id, vec![(filter, QualityOfService::Level0)]);
    let mut out = Vec::new();
    packet.encode(&mut out).ok()?;
    Some(out)
}

/// Writes a CONNACK packet: `mqtt::packet::ConnackPacket::new` with
/// `ConnectReturnCode::from_u8`, then `mqtt::Encodable::encode` into an
/// empty vector. Its bytes are the type 2 in the upper half of the first
/// byte, a length of two, the session flag and the return code.
#[verifier::external_body]
fn connack_bytes(session_present: bool, return_code: u8) -> (out: Vec<u8>)
    ensures
        out@ == seq![
            32u8,
            2u8,
            if session_present {
                1u8
            } else {
                0u8
            },
            return_code,
        ],
{
    let packet = ConnackPacket::new(session_present, ConnectReturnCode::from_u8(return_code));
    let mut out = Vec::new();
    packet.encode(&mut out).unwrap_or(());
    out
}

/// Writes a packet that carries a packet identifier and nothing else that
/// this library sets: `new` of `PubackPacket`, `PubrecPacket`,
/// `PubrelPacket`, `PubcompPacket` or `UnsubackPacket`, or of
/// `SubackPacket` or `UnsubscribePacket` with an empty list, then
/// `mqtt::Encodable::encode` into an empty vector. Its bytes are the first
/// byte of its type, a length of two, and the identifier with its high
/// byte first.
#[verifier::external_body]
fn ack_bytes(kind: PacketKind, id: u16) -> (out: Vec<u8>)
    requires
        carries_only_id(kind),
    ensures
        out@ == seq![first_byte(kind), 2u8, (id / 256) as u8, (id % 256) as u8],
{
    let packet: VariablePacket = match kind {
        PacketKind::PubAck => PubackPacket::new(id).into(),
        PacketKind::PubRec => PubrecPacket::new(id).into(),
        PacketKind::PubRel => PubrelPacket::new(id).into(),
        PacketKind::PubComp => PubcompPacket::new(id).into(),
        PacketKind::SubAck => SubackPacket::new(id, Vec::new()).into(),
        PacketKind::Unsubscribe => UnsubscribePacket::new(id, Vec::new()).into(),
        _ => UnsubackPacket::new(id).into(),
    };
    let mut out = Vec::new();
    packet.encode(&mut out).unwrap_or(());
    out
}

/// Writes a packet without a body: `new` of `PingreqPacket`,
/// `PingrespPacket` or `DisconnectPacket`, then `mqtt::Encodable::encode`
/// into an empty vector. Its bytes are the first byte of its type and a
/// length of zero.
#[verifier::external_body]
fn bare_bytes(kind: PacketKind) -> (out: Vec<u8>)
    requires
        is_bare(kind),
    ensures
        out@ == seq![first_byte(kind), 0u8],
{
    let packet: VariablePacket = match kind {
        PacketKind::PingReq => PingreqPacket::new().into(),
        PacketKind::PingResp => PingrespPacket::new().into(),
        _ => DisconnectPacket::new().into(),
    };
    let mut out = Vec::new();
    packet.encode(&mut out).unwrap_or(());
    out
}

/// Reads a packet with `mqtt::packet::VariablePacket::decode` and hands
/// out what this library looks at: of a CONNECT its client identifier,
/// keep-alive and clean-session flag, of a PUBLISH its topic, quality of
/// service and payload, of a SUBSCRIBE its identifier and filters, and of
/// any other packet that it was read; nothing where the crate reads no
/// packet. The contract gives the result its name. The bytes have to be
/// one whole frame, so that the crate reserves no more room than they
/// take.
#[verifier::external_body]
fn read_packet(frame: &[u8]) -> (out: Option<Parsed>)
    requires
        is_whole_frame(frame@),
    ensures
        out is Some == wire_read(frame@) is Some,
        out matches Some(p) ==> wire_read(frame@) == Some(p@),
{
    Some(match VariablePacket::decode(&mut Cursor::new(frame)).ok()? {
        VariablePacket::ConnectPacket(p) => {
            Parsed::Connect(p.client_identifier().to_owned(), p.keep_alive(), p.clean_session())
        },
        VariablePacket::PublishPacket(p) => {
            Parsed::Publish(p.topic_name().to_owned(), p.qos().split().0 as u8, p.payload().to_vec())
        },
        VariablePacket::SubscribePacket(p) => Parsed::Subscribe(
            p.packet_identifier(),
            p.subscribes().iter().map(|s| (s.0.to_string(), s.1 as u8)).collect(),
        ),
        _ => Parsed::Other,
    })
}

/// What a decoding returned, with the packet as what it stands for.
pub open spec fn packet_outcome(r: Result<Packet, CodecError>) -> Result<PacketView, CodecError> {
    match r {
        Ok(p) => Ok(p@),
        Err(e) => Err(e),
    }
}

/// The packet of a type that carries nothing this library reads. The three
/// types with fields have none.
pub open spec fn plain_packet(kind: PacketKind) -> Option<PacketView> {
    match kind {
        PacketKind::ConnAck => Some(PacketView::ConnAck),
        PacketKind::PubAck => Some(PacketView::PubAck),
        PacketKind::PubRec => Some(PacketView::PubRec),
        PacketKind::PubRel => Some(PacketView::PubRel),
        PacketKind::PubComp => Some(PacketView::PubComp),
        PacketKind::SubAck => Some(PacketView::SubAck),
        PacketKind::Unsubscribe => Some(PacketView::Unsubscribe),
        PacketKind::UnsubAck => Some(PacketView::UnsubAck),
        PacketKind::PingReq => Some(PacketView::PingReq),
        PacketKind::PingResp => Some(PacketView::PingResp),
        PacketKind::Disconnect => Some(PacketView::Disconnect),
        _ => None,
    }
}

/// The packet that a whole frame of the given type holds, given what was
/// read from it. The frame is malformed where nothing was read, where what
/// was read is not of the frame's type, and where a SUBSCRIBE does not
/// hold exactly one topic filter.
pub open spec fn packet_of(kind: PacketKind, read: Option<ParsedView>) -> Result<
    PacketView,
    CodecError,
> {
    match read {
        Some(ParsedView::Connect(client_id, keep_alive_seconds, clean_session)) => if kind
            == PacketKind::Connect {
            Ok(PacketView::Connect { client_id, keep_alive_seconds, clean_session })
        } else {
            Err(CodecError::Malformed)
        },
        Some(ParsedView::Publish(topic, qos, payload)) => if kind == PacketKind::Publish {
            Ok(PacketView::Publish { topic, qos, payload })
        } else {
            Err(CodecError::Malformed)
        },
        Some(ParsedView::Subscribe(packet_id, filters)) => if kind == PacketKind::Subscribe
            && filters.len() == 1 {
            Ok(PacketView::Subscribe { packet_id, topic_filter: filters[0].0, qos: filters[0].1 })
        } else {
            Err(CodecError::Malformed)
        },
        Some(ParsedView::Other) => match plain_packet(kind) {
            Some(p) => Ok(p),
            None => Err(CodecError::Malformed),
        },
        None => Err(CodecError::Malformed),
    }
}

/// The packet at the start of `b`, or why there is none: no type that is
/// known, fewer bytes than the frame declares, or a frame that breaks the
/// rules of its type. Bytes after the frame are not looked at.
pub open spec fn decoded(b: Seq<u8>) -> Result<PacketView, CodecError> {
    match frame_of(b) {
        Err(e) => Err(e),
        Ok((kind, len)) => packet_of(kind, wire_read(b.subrange(0, len))),
    }
}

/// Whether this library writes the packet: every packet without fields,
/// a CONNECT whose identifier fits its length, and a PUBLISH or SUBSCRIBE
/// at quality of service 0 with a valid topic and a payload within bounds.
pub open spec fn encodable(p: PacketView) -> bool {
    match p {
        PacketView::Connect { client_id, .. } => encode_utf8(client_id).len() <= MAX_TEXT_BYTES,
        PacketView::Publish { topic, qos, payload } => qos == 0 && payload.len()
            <= MAX_PAYLOAD_BYTES && valid_topic_name(topic),
        PacketView::Subscribe { topic_filter, qos, .. } => qos == 0 && valid_topic_filter(
            topic_filter,
        ),
        _ => true,
    }
}

/// The bytes of a packet that this library writes.
pub open spec fn wire_image(p: PacketView) -> Seq<u8> {
    match p {
        PacketView::Connect { client_id, keep_alive_seconds, clean_session } => connect_frame(
            client_id,
            keep_alive_seconds,
            clean_session,
        ),
        PacketView::Publish { topic, payload, .. } => publish_frame(topic, payload),
        PacketView::Subscribe { packet_id, topic_filter, .. } => subscribe_frame(
            packet_id,
            topic_filter,
        ),
        _ => plain_image(kind_of_packet(p)),
    }
}

/// The packet type that a first byte names.
pub fn kind_of_byte(first: u8) -> (kind: Option<PacketKind>)
    ensures
        kind == kind_of(first),
{
    let code: u8 = first / 16;
    if code == 1 {
        Some(PacketKind::Connect)
    } else if code == 2 {
        Some(PacketKind::ConnAck)
    } else if code == 3 {
        Some(PacketKind::Publish)
    } else if code == 4 {
        Some(PacketKind::PubAck)
    } else if code == 5 {
        Some(PacketKind::PubRec)
    } else if code == 6 {
        Some(PacketKind::PubRel)
    } else if code == 7 {
        Some(PacketKind::PubComp)
    } else if code == 8 {
        Some(PacketKind::Subscribe)
    } else if code == 9 {
        Some(PacketKind::SubAck)
    } else if code == 10 {
        Some(PacketKind::Unsubscribe)
    } else if code == 11 {
        Some(PacketKind::UnsubAck)
    } else if code == 12 {
        Some(PacketKind::PingReq)
    } else if code == 13 {
        Some(PacketKind::PingResp)
    } else if code == 14 {
        Some(PacketKind::Disconnect)
    } else {
        None
    }
}

/// Reads the length field that follows the first byte: how many bytes it
/// takes, and the number of bytes that it says follow.
pub fn read_length(bytes: &[u8]) -> (out: Result<(usize, usize), CodecError>)
    ensures
        out is Ok == length_field(bytes@) is Ok,
        out matches Ok(f) ==> length_field(bytes@) == Ok::<(int, int), CodecError>(
            (f.0 as int, f.1 as int),
        ),
        out matches Err(e) ==> length_field(bytes@) == Err::<(int, int), CodecError>(e),
{
    if bytes.len() < 2 {
        return Err(CodecError::Truncated);
    }
    let b1: usize = bytes[1] as usize;
    if b1 < 128 {
        return Ok((1, b1));
    }
    if bytes.len() < 3 {
        return Err(CodecError::Truncated);
    }
    let b2: usize = bytes[2] as usize;
    if b2 < 128 {
        return Ok((2, b1 % 128 + b2 * 128));
    }
    if bytes.len() < 4 {
        return Err(CodecError::Truncated);
    }
    let b3: usize = bytes[3] as usize;
    if b3 < 128 {
        return Ok((3, b1 % 128 + (b2 % 128) * 128 + b3 * 16384));
    }
    if bytes.len() < 5 {
        return Err(CodecError::Truncated);
    }
    let b4: usize = bytes[4] as usize;
    if b4 < 128 {
        return Ok((4, b1 % 128 + (b2 % 128) * 128 + (b3 % 128) * 16384 + b4 * 2097152));
    }
    Err(CodecError::Malformed)
}

/// Reads the frame at the start of `bytes`: its type, and its length in
/// bytes with header and body together.
pub fn read_frame(bytes: &[u8]) -> (out: Result<(PacketKind, usize), CodecError>)
    ensures
        out is Ok == frame_of(bytes@) is Ok,
        out matches Ok(f) ==> f.1 <= bytes@.len() && frame_of(bytes@) == Ok::<
            (PacketKind, int),
            CodecError,
        >((f.0, f.1 as int)),
        out matches Err(e) ==> frame_of(bytes@) == Err::<(PacketKind, int), CodecError>(e),
{
    if bytes.len() == 0 {
        return Err(CodecError::Truncated);
    }
    let kind = match kind_of_byte(bytes[0]) {
        Some(kind) => kind,
        None => {
            return Err(CodecError::UnknownType);
        },
    };
    match read_length(bytes) {
        Err(e) => Err(e),
        Ok((width, remaining)) => {
            let len: usize = 1 + width + remaining;
            if bytes.len() < len {
                Err(CodecError::Truncated)
            } else {
                Ok((kind, len))
            }
        },
    }
}

/// Makes the packet of a type that carries nothing this library reads.
fn plain(kind: PacketKind) -> (out: Option<Packet>)
    ensures
        out is Some == plain_packet(kind) is Some,
        out matches Some(p) ==> plain_packet(kind) == Some(p@),
{
    match kind {
        PacketKind::ConnAck => Some(Packet::ConnAck),
        PacketKind::PubAck => Some(Packet::PubAck),
        PacketKind::PubRec => Some(Packet::PubRec),
        PacketKind::PubRel => Some(Packet::PubRel),
        PacketKind::PubComp => Some(Packet::PubComp),
        PacketKind::SubAck => Some(Packet::SubAck),
        PacketKind::Unsubscribe => Some(Packet::Unsubscribe),
        PacketKind::UnsubAck => Some(Packet::UnsubAck),
        PacketKind::PingReq => Some(Packet::PingReq),
        PacketKind::PingResp => Some(Packet::PingResp),
        PacketKind::Disconnect => Some(Packet::Disconnect),
        _ => None,
    }
}

/// Makes the packet that a whole frame of the given type holds, given what
/// was read from it.
pub fn assemble(kind: PacketKind, read: Option<Parsed>) -> (out: Result<Packet, CodecError>)
    ensures
        packet_outcome(out) == packet_of(
            kind,
            match read {
                Some(p) => Some(p@),
                None => None,
            },
        ),
{
    match read {
        Some(Parsed::Connect(client_id, keep_alive_seconds, clean_session)) => {
            if let PacketKind::Connect = kind {
                Ok(Packet::Connect { client_id, keep_alive_seconds, clean_session })
            } else {
                Err(CodecError::Malformed)
            }
        },
        Some(Parsed::Publish(topic, qos, payload)) => {
            if let PacketKind::Publish = kind {
                Ok(Packet::Publish { topic, qos, payload })
            } else {
                Err(CodecError::Malformed)
            }
        },
        Some(Parsed::Subscribe(packet_id, mut filters)) => {
            let ghost all = filters_view(filters@);
            if let PacketKind::Subscribe = kind {
                if filters.len() != 1 {
                    return Err(CodecError::Malformed);
                }
                match filters.pop() {
                    Some((topic_filter, qos)) => {
                        assert(all[0] == (topic_filter@, qos));
                        Ok(Packet::Subscribe { packet_id, topic_filter, qos })
                    },
                    None => Err(CodecError::Malformed),
                }
            } else {
                Err(CodecError::Malformed)
            }
        },
        Some(Parsed::Other) => match plain(kind) {
            Some(p) => Ok(p),
            None => Err(CodecError::Malformed),
        },
        None => Err(CodecError::Malformed),
    }
}

/// Reads the packet at the start of `bytes`.
pub fn decode(bytes: &[u8]) -> (out: Result<Packet, CodecError>)
    ensures
        packet_outcome(out) == decoded(bytes@),
{
    match read_frame(bytes) {
        Ok((kind, len)) => {
            proof {
                lemma_frame_stands_alone(bytes@);
            }
            assemble(kind, read_packet(slice_subrange(bytes, 0, len)))
        },
        Err(e) => Err(e),
    }
}

/// The type of a packet.
pub fn kind(p: &Packet) -> (kind: PacketKind)
    ensures
        kind == kind_of_packet(p@),
{
    match p {
        Packet::Connect { .. } => PacketKind::Connect,
        Packet::ConnAck => PacketKind::ConnAck,
        Packet::Publish { .. } => PacketKind::Publish,
        Packet::PubAck => PacketKind::PubAck,
        Packet::PubRec => PacketKind::PubRec,
        Packet::PubRel => PacketKind::PubRel,
        Packet::PubComp => PacketKind::PubComp,
        Packet::Subscribe { .. } => PacketKind::Subscribe,
        Packet::SubAck => PacketKind::SubAck,
        Packet::Unsubscribe => PacketKind::Unsubscribe,
        Packet::UnsubAck => PacketKind::UnsubAck,
        Packet::PingReq => PacketKind::PingReq,
        Packet::PingResp => PacketKind::PingResp,
        Packet::Disconnect => PacketKind::Disconnect,
    }
}

/// Writes the packet as bytes. Every packet is written but one whose text
/// is not valid, whose payload is out of bounds, or that asks for a
/// quality of service above 0.
pub fn encode(p: &Packet) -> (out: Option<Vec<u8>>)
    ensures
        out is Some <==> encodable(p@),
        out matches Some(bytes) ==> bytes@ == wire_image(p@),
{
    match p {
        Packet::Connect { client_id, keep_alive_seconds, clean_session } => {
            if client_id.as_str().as_bytes().len() <= MAX_TEXT_BYTES {
                Some(connect_bytes(client_id.as_str(), *keep_alive_seconds, *clean_session))
            } else {
                None
            }
        },
        Packet::Publish { topic, qos, payload } => {
            if *qos == 0 && payload.len() <= MAX_PAYLOAD_BYTES {
                publish_bytes(topic.as_str(), payload.as_slice())
            } else {
                None
            }
        },
        Packet::Subscribe { packet_id, topic_filter, qos } => {
            if *qos == 0 {
                subscribe_bytes(*packet_id, topic_filter.as_str())
            } else {
                None
            }
        },
        Packet::ConnAck => Some(connack_bytes(false, 0)),
        Packet::PingReq => Some(bare_bytes(PacketKind::PingReq)),
        Packet::PingResp => Some(bare_bytes(PacketKind::PingResp)),
        Packet::Disconnect => Some(bare_bytes(PacketKind::Disconnect)),
        _ => Some(ack_bytes(kind(p), 0)),
    }
}

/// The type of a packet.
pub open spec fn kind_of_packet(p: PacketView) -> PacketKind {
    match p {
        PacketView::Connect { .. } => PacketKind::Connect,
        PacketView::ConnAck => PacketKind::ConnAck,
        PacketView::Publish { .. } => PacketKind::Publish,
        PacketView::PubAck => PacketKind::PubAck,
        PacketView::PubRec => PacketKind::PubRec,
        PacketView::PubRel => PacketKind::PubRel,
        PacketView::PubComp => PacketKind::PubComp,
        PacketView::Subscribe { .. } => PacketKind::Subscribe,
        PacketView::SubAck => PacketKind::SubAck,
        PacketView::Unsubscribe => PacketKind::Unsubscribe,
        PacketView::UnsubAck => PacketKind::UnsubAck,
        PacketView::PingReq => PacketKind::PingReq,
        PacketView::PingResp => PacketKind::PingResp,
        PacketView::Disconnect => PacketKind::Disconnect,
    }
}

/// What is to be read from the frame of a packet, if the frame is read as
/// it was written.
pub open spec fn parts_of(p: PacketView) -> ParsedView {
    match p {
        PacketView::Connect { client_id, keep_alive_seconds, clean_session } => ParsedView::Connect(
            client_id,
            keep_alive_seconds,
            clean_session,
        ),
        PacketView::Publish { topic, qos, payload } => ParsedView::Publish(topic, qos, payload),
        PacketView::Subscribe { packet_id, topic_filter, qos } => ParsedView::Subscribe(
            packet_id,
            seq![(topic_filter, qos)],
        ),
        _ => ParsedView::Other,
    }
}

/// A packet is the packet of its own parts.
pub proof fn lemma_parts_make_the_packet(p: PacketView)
    ensures
        packet_of(kind_of_packet(p), Some(parts_of(p))) == Ok::<PacketView, CodecError>(p),
{
}

/// What this library adds to a packet's way through the wire leaves the
/// packet as it was: if the bytes written for a packet are a whole frame
/// of the packet's type, and the `mqtt` crate reads from them what it
/// wrote, then reading the bytes gives the packet back.
pub proof fn lemma_read_back_rests_on_the_crate(p: PacketView)
    requires
        encodable(p),
        frame_of(wire_image(p)) == Ok::<(PacketKind, int), CodecError>(
            (kind_of_packet(p), wire_image(p).len() as int),
        ),
        wire_read(wire_image(p)) == Some(parts_of(p)),
    ensures
        decoded(wire_image(p)) == Ok::<PacketView, CodecError>(p),
{
    let b = wire_image(p);
    assert(b.subrange(0, b.len() as int) =~= b);
    lemma_parts_make_the_packet(p);
}

/// The bytes of a packet without fields are a whole frame of the packet's
/// type, so that reading them rests on the `mqtt` crate alone.
pub proof fn lemma_plain_frames_are_whole(kind: PacketKind)
    requires
        plain_packet(kind) is Some,
    ensures
        frame_of(plain_image(kind)) == Ok::<(PacketKind, int), CodecError>(
            (kind, plain_image(kind).len() as int),
        ),
        decoded(plain_image(kind)) == packet_of(kind, wire_read(plain_image(kind))),
{
    let b = plain_image(kind);
    assert(kind_of(first_byte(kind)) == Some(kind));
    assert(b.subrange(0, b.len() as int) =~= b);
}

} // verus!
