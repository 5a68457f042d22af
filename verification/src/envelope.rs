//! Envelopes: every message that goes out to the peers is tagged with its
//! sender, and a peer drops what it sent itself when the broker hands it
//! back.
//!
//! An envelope travels as a JSON object with the two members `msg` and
//! `sender`. The JSON is written and read by `serde_json`, and the
//! sender's 26 characters by `ulid`; the contracts call their results by
//! name.
use ulid::Ulid;
use vstd::prelude::*;
use vstd::string::*;
use vstd::utf8::encode_utf8;

verus! {

/// The identity of a running instance: 128 bits, made once from the time
/// and from chance.
#[derive(Clone, Copy, Debug, PartialEq, Eq, Structural)]
pub struct PeerId {
    pub value: u128,
}

/// A message on its way between peers: the sender, and the message as
/// text.
#[derive(Clone, Debug, PartialEq, Eq)]
pub struct Envelope {
    pub sender: PeerId,
    pub payload: String,
}

/// What an [`Envelope`] stands for.
pub struct EnvelopeView {
    pub sender: u128,
    pub payload: Seq<char>,
}

impl View for Envelope {
    type V = EnvelopeView;

    open spec fn view(&self) -> EnvelopeView {
        EnvelopeView { sender: self.sender.value, payload: self.payload@ }
    }
}

/// The 26 characters that `ulid` writes for an identity.
pub uninterp spec fn ulid_text(value: u128) -> Seq<char>;

/// The identity that `ulid` reads from a text, where it reads one.
pub uninterp spec fn ulid_value(text: Seq<char>) -> Option<u128>;

/// The JSON string literal that `serde_json` writes for a text.
pub uninterp spec fn json_string_text(text: Seq<char>) -> Seq<char>;

/// The texts of the two named members that `serde_json` finds in a JSON
/// document, where the bytes are such a document and both members are
/// strings.
pub uninterp spec fn json_fields(bytes: Seq<u8>, first: Seq<char>, second: Seq<char>) -> Option<
    (Seq<char>, Seq<char>),
>;

/// Makes a new identity with `ulid::Ulid::generate`, which reads the clock
/// and draws random bits: nothing is promised of the value.
#[verifier::external_body]
fn generate_peer_id() -> (id: PeerId) {
    PeerId { value: Ulid::generate().0 }
}

/// Writes an identity as text with `ulid::Ulid::to_string`. The contract
/// gives the text its name and says what the crate's alphabet shows: it
/// has 26 characters of one byte each.
#[verifier::external_body]
fn peer_id_text(id: PeerId) -> (text: String)
    ensures
        text@ == ulid_text(id.value),
        text@.len() == 26,
        encode_utf8(text@).len() == 26,
{
    Ulid(id.value).to_string()
}

/// Reads an identity from text with `ulid::Ulid::from_string`. The
/// contract gives the result its name.
#[verifier::external_body]
fn parse_peer_id(text: &str) -> (id: Option<PeerId>)
    ensures
        id is Some == ulid_value(text@) is Some,
        id matches Some(p) ==> ulid_value(text@) == Some(p.value),
{
    Ulid::from_string(text).ok().map(|u| PeerId { value: u.0 })
}

/// Writes a text as a JSON string literal with `serde_json::to_string`,
/// which cannot fail on a string. The contract gives the literal its name.
#[verifier::external_body]
fn json_string(text: &str) -> (literal: String)
    ensures
        literal@ == json_string_text(text@),
{
    serde_json::to_string(text).unwrap_or_default()
}

/// Reads a JSON document with `serde_json::from_slice` and hands out the
/// texts of two of its members, found with `Value::get` and
/// `Value::as_str`; nothing where the bytes are no document or a member
/// is missing or no string. The contract gives the result its name.
#[verifier::external_body]
fn read_json_fields(bytes: &[u8], first: &str, second: &str) -> (out: Option<(String, String)>)
    ensures
        out is Some == json_fields(bytes@, first@, second@) is Some,
        out matches Some(f) ==> json_fields(bytes@, first@, second@) == Some((f.0@, f.1@)),
{
    let doc: serde_json::Value = serde_json::from_slice(bytes).ok()?;
    let a = doc.get(first)?.as_str()?.to_owned();
    let b = doc.get(second)?.as_str()?.to_owned();
    Some((a, b))
}

impl PeerId {
    /// A new identity for this instance.
    pub fn generate() -> (id: PeerId) {
        generate_peer_id()
    }

    /// The identity as the text that stands for it on the wire.
    pub fn to_text(&self) -> (text: String)
        ensures
            text@ == ulid_text(self.value),
            encode_utf8(text@).len() == 26,
    {
        peer_id_text(*self)
    }

    /// The identity that a text stands for, if it stands for one.
    pub fn from_text(text: &str) -> (id: Option<PeerId>)
        ensures
            id is Some == ulid_value(text@) is Some,
            id matches Some(p) ==> ulid_value(text@) == Some(p.value),
    {
        parse_peer_id(text)
    }
}

/// The envelope that `sender` puts around `message`.
pub open spec fn sealed(message: Seq<char>, sender: u128) -> EnvelopeView {
    EnvelopeView { sender, payload: message }
}

/// The text of an envelope on the wire: a JSON object with the message
/// under `msg` and the sender's text under `sender`, without any space.
pub open spec fn envelope_text(env: EnvelopeView) -> Seq<char> {
    "{\"msg\":"@ + json_string_text(env.payload) + ",\"sender\":"@ + json_string_text(
        ulid_text(env.sender),
    ) + "}"@
}

/// The bytes of an envelope on the wire.
pub open spec fn envelope_bytes(env: EnvelopeView) -> Seq<u8> {
    encode_utf8(envelope_text(env))
}

/// The envelope of the two members read from the wire: the first is the
/// message, the second has to be the text of an identity.
pub open spec fn envelope_of(fields: Option<(Seq<char>, Seq<char>)>) -> Option<EnvelopeView> {
    match fields {
        Some(f) => match ulid_value(f.1) {
            Some(sender) => Some(EnvelopeView { sender, payload: f.0 }),
            None => None,
        },
        None => None,
    }
}

/// The envelope that the bytes of a payload hold, if they hold one.
pub open spec fn envelope_in(bytes: Seq<u8>) -> Option<EnvelopeView> {
    envelope_of(json_fields(bytes, "msg"@, "sender"@))
}

/// What a peer with the identity `local` takes from an envelope: the
/// sender and the message, unless there is no envelope or the peer sent
/// it itself.
pub open spec fn delivered(env: Option<EnvelopeView>, local: u128) -> Option<(u128, Seq<char>)> {
    match env {
        Some(e) => if e.sender == local {
            None
        } else {
            Some((e.sender, e.payload))
        },
        None => None,
    }
}

/// Puts an envelope around a message.
pub fn seal(message: String, sender: PeerId) -> (env: Envelope)
    ensures
        env@ == sealed(message@, sender.value),
{
    Envelope { sender, payload: message }
}

/// Writes an envelope as the payload of a publication.
pub fn to_wire(env: &Envelope) -> (out: Vec<u8>)
    ensures
        out@ == envelope_bytes(env@),
{
    let mut text = String::from_str("{\"msg\":");
    let message = json_string(env.payload.as_str());
    text.append(message.as_str());
    text.append(",\"sender\":");
    let sender = json_string(env.sender.to_text().as_str());
    text.append(sender.as_str());
    text.append("}");
    assert(text@ =~= envelope_text(env@));
    text.as_str().as_bytes_vec()
}

/// Puts `message` into an envelope from `sender` and writes it as the
/// payload of a publication.
pub fn wrap(message: &str, sender: PeerId) -> (out: Vec<u8>)
    ensures
        out@ == envelope_bytes(sealed(message@, sender.value)),
{
    to_wire(&seal(message.to_owned(), sender))
}

/// Makes an envelope of the two members read from the wire.
pub fn envelope_from(fields: Option<(String, String)>) -> (env: Option<Envelope>)
    ensures
        env is Some == envelope_of(
            match fields {
                Some(f) => Some((f.0@, f.1@)),
                None => None,
            },
        ) is Some,
        env matches Some(e) ==> envelope_of(
            match fields {
                Some(f) => Some((f.0@, f.1@)),
                None => None,
            },
        ) == Some(e@),
{
    match fields {
        Some((payload, sender_text)) => match PeerId::from_text(sender_text.as_str()) {
            Some(sender) => Some(Envelope { sender, payload }),
            None => None,
        },
        None => None,
    }
}

/// Reads the envelope that the payload of a publication holds.
pub fn from_wire(bytes: &[u8]) -> (env: Option<Envelope>)
    ensures
        env is Some == envelope_in(bytes@) is Some,
        env matches Some(e) ==> envelope_in(bytes@) == Some(e@),
{
    envelope_from(read_json_fields(bytes, "msg", "sender"))
}

/// Decides what a peer with the identity `local` takes from an envelope:
/// nothing where there is none, nothing where the peer sent it itself,
/// and otherwise the sender with the message.
pub fn route(env: Option<Envelope>, local: PeerId) -> (out: Option<(PeerId, String)>)
    ensures
        out is Some == delivered(
            match env {
                Some(e) => Some(e@),
                None => None,
            },
            local.value,
        ) is Some,
        out matches Some(d) ==> env is Some && d.0 == env->0.sender && d.1@ == env->0.payload@
            && d.0 != local,
{
    match env {
        Some(e) => if e.sender.value == local.value {
            None
        } else {
            Some((e.sender, e.payload))
        },
        None => None,
    }
}

/// Reads the payload of a publication as a peer with the identity
/// `local`: the sender and the message, unless the payload holds no
/// envelope or this peer sent it.
pub fn unwrap(bytes: &[u8], local: PeerId) -> (out: Option<(PeerId, String)>)
    ensures
        out is Some == delivered(envelope_in(bytes@), local.value) is Some,
        out matches Some(d) ==> delivered(envelope_in(bytes@), local.value) == Some(
            (d.0.value, d.1@),
        ),
{
    route(from_wire(bytes), local)
}

/// A peer drops the envelope that it sealed itself.
pub proof fn lemma_own_echo_is_dropped(message: Seq<char>, id: u128)
    ensures
        delivered(Some(sealed(message, id)), id) is None,
{
}

/// A peer takes the envelope that another peer sealed, and finds the
/// sender and the message as they were put in.
pub proof fn lemma_foreign_message_is_delivered(message: Seq<char>, sender: u128, local: u128)
    requires
        sender != local,
    ensures
        delivered(Some(sealed(message, sender)), local) == Some((sender, message)),
{
}

/// What this library adds to a message's way through the wire leaves the
/// echo rule as it is: if `serde_json` reads from the bytes of an envelope
/// the two members that were written, and `ulid` reads an identity back
/// from its text, then a peer that reads the bytes drops its own envelope
/// and takes another peer's, with the sender and the message as they were
/// put in.
pub proof fn lemma_wire_trip_rests_on_the_crates(message: Seq<char>, sender: u128, local: u128)
    requires
        json_fields(envelope_bytes(sealed(message, sender)), "msg"@, "sender"@) == Some(
            (message, ulid_text(sender)),
        ),
        ulid_value(ulid_text(sender)) == Some(sender),
    ensures
        envelope_in(envelope_bytes(sealed(message, sender))) == Some(sealed(message, sender)),
        sender == local ==> delivered(
            envelope_in(envelope_bytes(sealed(message, sender))),
            local,
        ) is None,
        sender != local ==> delivered(
            envelope_in(envelope_bytes(sealed(message, sender))),
            local,
        ) == Some((sender, message)),
{
}

} // verus!
