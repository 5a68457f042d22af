//! The transport session: one connection to the broker, with its
//! handshake, its keepalive and its reconnection after a failure.
//!
//! The session owns no socket and no timer. It is told what happened (the
//! socket opened, bytes arrived, a timer fired) and answers with its new
//! state and with the commands that the caller has to carry out.
use crate::envelope::{
    delivered, envelope_bytes, envelope_in, sealed, ulid_text, unwrap, wrap, PeerId,
};
use crate::packet::{
    decode, decoded, encodable, encode, packet_outcome, valid_topic_name, wire_image, CodecError,
    Packet, PacketView, MAX_PAYLOAD_BYTES,
};
use vstd::prelude::*;
use vstd::slice::slice_to_vec;
use vstd::string::*;

verus! {

/// Where the connection to the broker stands.
#[derive(Clone, Copy, Debug, PartialEq, Eq, Structural)]
pub enum ConnectionState {
    /// No socket is open and none is asked for.
    Disconnected,
    /// A socket was asked for and has not opened yet.
    Connecting,
    /// The socket is open and the broker's answer to the greeting is
    /// awaited. This session does not tell the wait from readiness: it
    /// counts as ready from the moment the socket opens, and never enters
    /// this state.
    HandshakeWait,
    /// The socket is open and the broker was greeted.
    Ready,
    /// The connection failed; a new attempt is scheduled. The number
    /// counts the failures before this one since the socket last opened.
    Reconnecting(u32),
}

/// What a message from the socket holds.
#[derive(Clone, Copy, Debug, PartialEq, Eq, Structural)]
pub enum MessageKind {
    Text,
    Blob,
    Other,
}

/// What happened to the connection.
#[derive(Clone, Debug, PartialEq, Eq)]
pub enum Msg {
    /// The socket opened.
    WebSocketOpened,
    /// The socket closed; the flag says whether the close was clean.
    WebSocketClosed(bool),
    /// A message arrived on the socket.
    WebSocketMsgReceived(MessageKind),
    /// The bytes of a message were read.
    WebSocketBytesReceived(Vec<u8>),
    /// The socket reported an error.
    WebSocketFailed,
    /// It is time to open a socket: at the start, with a count of 0, and
    /// whenever the timer of a scheduled attempt fires.
    ReconnectWebSocket(usize),
    /// Subscribe to the topic.
    MqttSubscribe,
    /// The keepalive timer fired.
    KeepAlive,
}

/// A message of a peer, as the text that the peer put into its envelope.
#[derive(Clone, Debug, PartialEq, Eq)]
pub struct ReceivedMsg {
    pub msg: String,
}

/// What the caller has to do for the session.
#[derive(Clone, Debug, PartialEq, Eq)]
pub enum Command {
    /// Open a socket to the session's address, with [`SUBPROTOCOL`].
    OpenSocket,
    /// Write these bytes to the socket, if there is one.
    Send(Vec<u8>),
    /// Start a timer for a new attempt after the failure with this number
    /// (see [`backoff_delay_ms`]); when it fires, hand in
    /// [`Msg::ReconnectWebSocket`].
    ScheduleReconnect(u32),
    /// Stop the timer of the scheduled attempt.
    CancelReconnect,
    /// Start a timer that hands in [`Msg::KeepAlive`] every so many
    /// milliseconds.
    StartKeepAlive(u32),
    /// Stop the keepalive timer.
    StopKeepAlive,
    /// Read the bytes of the message that just arrived and hand them in
    /// as [`Msg::WebSocketBytesReceived`].
    ReadBlob,
    /// Hand this message of a peer to the application.
    Deliver(ReceivedMsg),
}

/// What a [`Command`] stands for.
pub enum CommandView {
    OpenSocket,
    Send(Seq<u8>),
    ScheduleReconnect(u32),
    CancelReconnect,
    StartKeepAlive(u32),
    StopKeepAlive,
    ReadBlob,
    Deliver(Seq<char>),
}

impl View for Command {
    type V = CommandView;

    open spec fn view(&self) -> CommandView {
        match *self {
            Command::OpenSocket => CommandView::OpenSocket,
            Command::Send(bytes) => CommandView::Send(bytes@),
            Command::ScheduleReconnect(n) => CommandView::ScheduleReconnect(n),
            Command::CancelReconnect => CommandView::CancelReconnect,
            Command::StartKeepAlive(ms) => CommandView::StartKeepAlive(ms),
            Command::StopKeepAlive => CommandView::StopKeepAlive,
            Command::ReadBlob => CommandView::ReadBlob,
            Command::Deliver(m) => CommandView::Deliver(m.msg@),
        }
    }
}

/// What a list of commands stands for.
pub open spec fn commands(list: Seq<Command>) -> Seq<CommandView> {
    list.map_values(|c: Command| c@)
}

/// The subprotocol that the socket is opened with.
pub const SUBPROTOCOL: &'static str = "mqttv3.1";

/// The seconds that the session lets the broker wait for a sign of life.
pub const KEEP_ALIVE_SECONDS: u16 = 30;

/// The milliseconds between two keepalive probes.
pub const KEEP_ALIVE_INTERVAL_MILLIS: u32 = 20000;

/// The identifier of the session's one subscription.
pub const SUBSCRIBE_PACKET_ID: u16 = 1;

/// The most that chance adds to a delay before a new attempt, in
/// milliseconds.
pub const MAX_JITTER_MILLIS: u32 = 1000;

/// The longest delay before a new attempt, in seconds, where the caller
/// names none.
pub const DEFAULT_MAX_BACKOFF_SECONDS: u32 = 32;

/// A transport session as a mathematical value.
pub struct Transport {
    pub id: u128,
    pub url: Seq<char>,
    pub topic: Seq<char>,
    pub password: Seq<char>,
    pub state: ConnectionState,
    /// The failures since the socket last opened.
    pub failures: u32,
    /// Whether the timer of a new attempt runs.
    pub reconnect_pending: bool,
    /// Whether the keepalive timer runs.
    pub keep_alive: bool,
}

/// `n + 1`, as far as 32 bits go.
pub open spec fn next_count(n: u32) -> u32 {
    if n == u32::MAX {
        n
    } else {
        (n + 1) as u32
    }
}

/// The command that sends a packet; none for a packet that cannot be
/// written.
pub open spec fn sending(p: PacketView) -> Seq<CommandView> {
    if encodable(p) {
        seq![CommandView::Send(wire_image(p))]
    } else {
        Seq::<CommandView>::empty()
    }
}

impl Transport {
    /// A session that has not connected yet.
    pub open spec fn fresh(
        id: u128,
        url: Seq<char>,
        topic: Seq<char>,
        password: Seq<char>,
    ) -> Transport {
        Transport {
            id,
            url,
            topic,
            password,
            state: ConnectionState::Disconnected,
            failures: 0,
            reconnect_pending: false,
            keep_alive: false,
        }
    }

    /// The packet that greets the broker.
    pub open spec fn greeting(self) -> PacketView {
        PacketView::Connect {
            client_id: ulid_text(self.id),
            keep_alive_seconds: KEEP_ALIVE_SECONDS,
            clean_session: true,
        }
    }

    /// The packet that subscribes to the session's topic.
    pub open spec fn subscription(self) -> PacketView {
        PacketView::Subscribe { packet_id: SUBSCRIBE_PACKET_ID, topic_filter: self.topic, qos: 0 }
    }

    /// The packet that publishes a message of the application.
    pub open spec fn publication(self, message: Seq<char>) -> PacketView {
        PacketView::Publish {
            topic: self.topic,
            qos: 0,
            payload: envelope_bytes(sealed(message, self.id)),
        }
    }

    /// The command that stops the keepalive timer, where it runs.
    pub open spec fn stopping_keep_alive(self) -> Seq<CommandView> {
        if self.keep_alive {
            seq![CommandView::StopKeepAlive]
        } else {
            Seq::<CommandView>::empty()
        }
    }

    /// The socket opened: the session is ready, forgets its failures and
    /// the attempt that was scheduled, greets the broker and starts the
    /// keepalive timer.
    pub open spec fn opened(self) -> (Transport, Seq<CommandView>) {
        (
            Transport {
                state: ConnectionState::Ready,
                failures: 0,
                reconnect_pending: false,
                keep_alive: true,
                ..self
            },
            (if self.reconnect_pending {
                seq![CommandView::CancelReconnect]
            } else {
                Seq::<CommandView>::empty()
            }) + sending(self.greeting()) + (if self.keep_alive {
                Seq::<CommandView>::empty()
            } else {
                seq![CommandView::StartKeepAlive(KEEP_ALIVE_INTERVAL_MILLIS)]
            }),
        )
    }

    /// The connection failed: the keepalive timer stops, and one new
    /// attempt is scheduled unless one is scheduled already.
    pub open spec fn failed(self) -> (Transport, Seq<CommandView>) {
        if self.reconnect_pending {
            (Transport { keep_alive: false, ..self }, self.stopping_keep_alive())
        } else {
            (
                Transport {
                    state: ConnectionState::Reconnecting(self.failures),
                    failures: next_count(self.failures),
                    reconnect_pending: true,
                    keep_alive: false,
                    ..self
                },
                self.stopping_keep_alive().push(CommandView::ScheduleReconnect(self.failures)),
            )
        }
    }

    /// The socket closed as asked: the keepalive timer stops and no new
    /// attempt is made.
    pub open spec fn closed_cleanly(self) -> (Transport, Seq<CommandView>) {
        (
            Transport { state: ConnectionState::Disconnected, keep_alive: false, ..self },
            self.stopping_keep_alive(),
        )
    }

    /// It is time to open a socket.
    pub open spec fn reconnecting(self) -> (Transport, Seq<CommandView>) {
        (
            Transport { state: ConnectionState::Connecting, reconnect_pending: false, ..self },
            seq![CommandView::OpenSocket],
        )
    }

    /// What a message of a peer leads to: its delivery.
    pub open spec fn on_delivery(delivery: Option<(u128, Seq<char>)>) -> Seq<CommandView> {
        match delivery {
            Some(d) => seq![CommandView::Deliver(d.1)],
            None => Seq::<CommandView>::empty(),
        }
    }

    /// What a frame from the broker leads to. The broker's greeting is
    /// answered with the subscription while the session is ready, its
    /// probe with a pong, and a publication is handed to the application
    /// unless this peer sent it. Anything else, and a frame that is no
    /// packet, is passed over.
    pub open spec fn on_packet(self, packet: Result<PacketView, CodecError>) -> Seq<CommandView> {
        match packet {
            Ok(PacketView::ConnAck) => if self.state == ConnectionState::Ready {
                sending(self.subscription())
            } else {
                Seq::<CommandView>::empty()
            },
            Ok(PacketView::Publish { payload, .. }) => Transport::on_delivery(
                delivered(envelope_in(payload), self.id),
            ),
            Ok(PacketView::PingReq) => sending(PacketView::PingResp),
            _ => Seq::<CommandView>::empty(),
        }
    }

    /// The session and the commands after `msg`.
    pub open spec fn step(self, msg: Msg) -> (Transport, Seq<CommandView>) {
        match msg {
            Msg::KeepAlive => (
                self,
                if self.state == ConnectionState::Ready {
                    sending(PacketView::PingReq)
                } else {
                    Seq::<CommandView>::empty()
                },
            ),
            Msg::WebSocketOpened => self.opened(),
            Msg::WebSocketClosed(was_clean) => if was_clean {
                self.closed_cleanly()
            } else {
                self.failed()
            },
            Msg::MqttSubscribe => (self, sending(self.subscription())),
            Msg::WebSocketMsgReceived(kind) => (
                self,
                if kind == MessageKind::Blob {
                    seq![CommandView::ReadBlob]
                } else {
                    Seq::<CommandView>::empty()
                },
            ),
            Msg::WebSocketBytesReceived(bytes) => (self, self.on_packet(decoded(bytes@))),
            Msg::WebSocketFailed => self.failed(),
            Msg::ReconnectWebSocket(_) => self.reconnecting(),
        }
    }
}

/// A transport session.
pub struct Model {
    id: PeerId,
    url: String,
    topic: String,
    password: String,
    state: ConnectionState,
    failures: u32,
    reconnect_pending: bool,
    keep_alive: bool,
}

impl View for Model {
    type V = Transport;

    closed spec fn view(&self) -> Transport {
        Transport {
            id: self.id.value,
            url: self.url@,
            topic: self.topic@,
            password: self.password@,
            state: self.state,
            failures: self.failures,
            reconnect_pending: self.reconnect_pending,
            keep_alive: self.keep_alive,
        }
    }
}

/// The one command that sends these bytes, or none.
fn sending_bytes(bytes: Option<Vec<u8>>) -> (out: Vec<Command>)
    ensures
        commands(out@) == match bytes {
            Some(b) => seq![CommandView::Send(b@)],
            None => Seq::<CommandView>::empty(),
        },
{
    let mut out: Vec<Command> = Vec::new();
    match bytes {
        Some(b) => {
            out.push(Command::Send(b));
            assert(commands(out@) =~= seq![CommandView::Send(b@)]);
        },
        None => {
            assert(commands(out@) =~= Seq::<CommandView>::empty());
        },
    }
    out
}

/// Appends the commands of `more` to `list`.
fn append_commands(list: &mut Vec<Command>, more: Vec<Command>)
    ensures
        commands(final(list)@) == commands(old(list)@) + commands(more@),
{
    let ghost added = commands(more@);
    let mut rest = more;
    list.append(&mut rest);
    assert(commands(list@) =~= commands(old(list)@) + added);
}

/// Appends one command to `list`.
fn push_command(list: &mut Vec<Command>, c: Command)
    ensures
        commands(final(list)@) == commands(old(list)@).push(c@),
{
    list.push(c);
    assert(commands(list@) =~= commands(old(list)@).push(c@));
}

/// An empty list of commands.
fn no_commands() -> (out: Vec<Command>)
    ensures
        commands(out@) == Seq::<CommandView>::empty(),
{
    let out: Vec<Command> = Vec::new();
    assert(commands(out@) =~= Seq::<CommandView>::empty());
    out
}

impl Model {
    /// A session with a new identity that has not connected yet.
    pub fn new(url: &str, topic: &str, password: &str) -> (m: Model)
        ensures
            m@ == Transport::fresh(m@.id, url@, topic@, password@),
    {
        Model::with_id(PeerId::generate(), url, topic, password)
    }

    /// A session with the given identity that has not connected yet.
    pub fn with_id(id: PeerId, url: &str, topic: &str, password: &str) -> (m: Model)
        ensures
            m@ == Transport::fresh(id.value, url@, topic@, password@),
    {
        Model {
            id,
            url: url.to_owned(),
            topic: topic.to_owned(),
            password: password.to_owned(),
            state: ConnectionState::Disconnected,
            failures: 0,
            reconnect_pending: false,
            keep_alive: false,
        }
    }

    /// The identity of this peer.
    pub fn id(&self) -> (id: PeerId)
        ensures
            id.value == self@.id,
    {
        self.id
    }

    /// The address of the broker.
    pub fn url(&self) -> (url: &str)
        ensures
            url@ == self@.url,
    {
        self.url.as_str()
    }

    /// The topic that the peers of the room share.
    pub fn topic(&self) -> (topic: &str)
        ensures
            topic@ == self@.topic,
    {
        self.topic.as_str()
    }

    /// Where the connection stands.
    pub fn state(&self) -> (state: ConnectionState)
        ensures
            state == self@.state,
    {
        self.state
    }

    /// Whether the timer of a new attempt runs.
    pub fn reconnect_pending(&self) -> (pending: bool)
        ensures
            pending == self@.reconnect_pending,
    {
        self.reconnect_pending
    }

    /// Hides the bytes from those who lack the room's password. Nothing is
    /// hidden yet: the bytes come back as they are.
    pub fn encrypt(&self, data: &[u8]) -> (out: Vec<u8>)
        ensures
            out@ == data@,
    {
        slice_to_vec(data)
    }

    /// Undoes [`Model::encrypt`].
    pub fn decrypt(&self, data: &[u8]) -> (out: Vec<u8>)
        ensures
            out@ == data@,
    {
        slice_to_vec(data)
    }

    /// The command that sends a packet; none for a packet that cannot be
    /// written.
    pub fn send_pkt(&self, pkt: &Packet) -> (out: Vec<Command>)
        ensures
            commands(out@) == sending(pkt@),
    {
        sending_bytes(encode(pkt))
    }

    /// The command that publishes a message of the application, given as
    /// text, to the peers; none where the topic is not valid or the
    /// message is too long.
    pub fn send_msg(&self, message: &str) -> (out: Vec<Command>)
        ensures
            commands(out@) == sending(self@.publication(message@)),
    {
        let envelope = wrap(message, self.id);
        let payload = self.encrypt(envelope.as_slice());
        let packet = Packet::Publish { topic: self.topic.clone(), qos: 0, payload };
        self.send_pkt(&packet)
    }

    /// What a message of a peer leads to, once the envelope rules have
    /// decided on it.
    pub fn on_delivery(delivery: Option<(PeerId, String)>) -> (out: Vec<Command>)
        ensures
            commands(out@) == Transport::on_delivery(
                match delivery {
                    Some(d) => Some((d.0.value, d.1@)),
                    None => None,
                },
            ),
    {
        let mut out: Vec<Command> = no_commands();
        match delivery {
            Some((_, msg)) => {
                push_command(&mut out, Command::Deliver(ReceivedMsg { msg }));
            },
            None => {},
        }
        out
    }

    /// What a frame from the broker leads to, once it has been read.
    pub fn on_packet(&self, packet: Result<Packet, CodecError>) -> (out: Vec<Command>)
        ensures
            commands(out@) == self@.on_packet(packet_outcome(packet)),
    {
        match packet {
            Ok(Packet::ConnAck) => {
                if self.state == ConnectionState::Ready {
                    self.subscribe()
                } else {
                    no_commands()
                }
            },
            Ok(Packet::Publish { topic: _, qos: _, payload }) => Model::on_delivery(
                unwrap(payload.as_slice(), self.id),
            ),
            Ok(Packet::PingReq) => self.send_pkt(&Packet::PingResp),
            _ => no_commands(),
        }
    }

    /// The command that subscribes to the session's topic.
    pub fn subscribe(&self) -> (out: Vec<Command>)
        ensures
            commands(out@) == sending(self@.subscription()),
    {
        let packet = Packet::Subscribe {
            packet_id: SUBSCRIBE_PACKET_ID,
            topic_filter: self.topic.clone(),
            qos: 0,
        };
        self.send_pkt(&packet)
    }

    /// The connection failed.
    fn fail(&mut self) -> (out: Vec<Command>)
        ensures
            (final(self)@, commands(out@)) == old(self)@.failed(),
    {
        let mut out: Vec<Command> = no_commands();
        if self.keep_alive {
            push_command(&mut out, Command::StopKeepAlive);
        }
        self.keep_alive = false;
        if !self.reconnect_pending {
            push_command(&mut out, Command::ScheduleReconnect(self.failures));
            self.state = ConnectionState::Reconnecting(self.failures);
            self.failures = if self.failures == u32::MAX {
                self.failures
            } else {
                self.failures + 1
            };
            self.reconnect_pending = true;
        }
        out
    }

    /// Takes in what happened to the connection, and returns what the
    /// caller has to do.
    pub fn update(msg: Msg, model: &mut Model) -> (out: Vec<Command>)
        ensures
            (final(model)@, commands(out@)) == old(model)@.step(msg),
    {
        match msg {
            Msg::KeepAlive => {
                if model.state == ConnectionState::Ready {
                    model.send_pkt(&Packet::PingReq)
                } else {
                    no_commands()
                }
            },
            Msg::WebSocketOpened => {
                let mut out: Vec<Command> = no_commands();
                if model.reconnect_pending {
                    push_command(&mut out, Command::CancelReconnect);
                }
                let client_id = model.id.to_text();
                let greeting = Packet::Connect {
                    client_id,
                    keep_alive_seconds: KEEP_ALIVE_SECONDS,
                    clean_session: true,
                };
                append_commands(&mut out, model.send_pkt(&greeting));
                if !model.keep_alive {
                    push_command(&mut out, Command::StartKeepAlive(KEEP_ALIVE_INTERVAL_MILLIS));
                }
                model.state = ConnectionState::Ready;
                model.failures = 0;
                model.reconnect_pending = false;
                model.keep_alive = true;
                assert(commands(out@) =~= old(model)@.opened().1);
                out
            },
            Msg::WebSocketClosed(was_clean) => {
                if was_clean {
                    let mut out: Vec<Command> = no_commands();
                    if model.keep_alive {
                        push_command(&mut out, Command::StopKeepAlive);
                    }
                    model.keep_alive = false;
                    model.state = ConnectionState::Disconnected;
                    out
                } else {
                    model.fail()
                }
            },
            Msg::MqttSubscribe => model.subscribe(),
            Msg::WebSocketMsgReceived(kind) => {
                let mut out: Vec<Command> = no_commands();
                if let MessageKind::Blob = kind {
                    push_command(&mut out, Command::ReadBlob);
                }
                out
            },
            Msg::WebSocketBytesReceived(bytes) => {
                let decrypted = model.decrypt(bytes.as_slice());
                model.on_packet(decode(decrypted.as_slice()))
            },
            Msg::WebSocketFailed => model.fail(),
            Msg::ReconnectWebSocket(_) => {
                model.state = ConnectionState::Connecting;
                model.reconnect_pending = false;
                let mut out: Vec<Command> = no_commands();
                push_command(&mut out, Command::OpenSocket);
                out
            },
        }
    }
}

/// The message that starts the session's first connection.
pub fn connect() -> (msg: Msg)
    ensures
        msg == Msg::ReconnectWebSocket(0),
{
    Msg::ReconnectWebSocket(0)
}

/// Two to the power of `n`.
pub open spec fn two_to(n: nat) -> nat
    decreases n,
{
    if n == 0 {
        1
    } else {
        2 * two_to((n - 1) as nat)
    }
}

/// `x`, or the largest 32-bit number where `x` is larger.
pub open spec fn saturated(x: int) -> int {
    if x > u32::MAX {
        u32::MAX as int
    } else {
        x
    }
}

/// The milliseconds to wait before the attempt that follows the failure
/// numbered `retries`: a second doubled with every failure, plus `jitter`,
/// each step as far as 32 bits go, and at most `max_seconds`.
pub open spec fn backoff_delay(retries: u32, jitter: u32, max_seconds: u32) -> int {
    let duration = saturated(saturated(saturated(two_to(retries as nat) as int) * 1000) + jitter);
    let longest = saturated(max_seconds * 1000);
    if duration < longest {
        duration
    } else {
        longest
    }
}

/// A higher power of two is larger.
pub proof fn lemma_two_to_grows(n: nat, m: nat)
    requires
        n < m,
    ensures
        1 <= two_to(n),
        2 * two_to(n) <= two_to(m),
    decreases m,
{
    if n > 0 {
        lemma_two_to_grows((n - 1) as nat, n);
    }
    if n + 1 < m {
        lemma_two_to_grows(n, (m - 1) as nat);
    }
}

/// The milliseconds to wait before the attempt that follows the failure
/// numbered `retries`. `jitter_ms` is the part that chance adds, drawn by
/// the caller from 0 to [`MAX_JITTER_MILLIS`]; without `max_seconds` the
/// delay stops growing at [`DEFAULT_MAX_BACKOFF_SECONDS`].
pub fn backoff_delay_ms(retries: u32, jitter_ms: u32, max_seconds: Option<u32>) -> (ms: u32)
    ensures
        ms == backoff_delay(
            retries,
            jitter_ms,
            match max_seconds {
                Some(m) => m,
                None => DEFAULT_MAX_BACKOFF_SECONDS,
            },
        ),
{
    let mut power: u32 = 1;
    let mut i: u32 = 0;
    while i < retries && power <= u32::MAX / 2
        invariant
            i <= retries,
            power == two_to(i as nat),
        decreases retries - i,
    {
        power = power * 2;
        i += 1;
    }
    if i < retries {
        proof {
            if i + 1 < retries {
                lemma_two_to_grows((i + 1) as nat, retries as nat);
            }
            assert(two_to((i + 1) as nat) == 2 * two_to(i as nat));
        }
        power = u32::MAX;
    }
    assert(power == saturated(two_to(retries as nat) as int));
    let scaled: u32 = if power > u32::MAX / 1000 {
        u32::MAX
    } else {
        power * 1000
    };
    let duration: u32 = if jitter_ms > u32::MAX - scaled {
        u32::MAX
    } else {
        scaled + jitter_ms
    };
    let cap: u32 = match max_seconds {
        Some(m) => m,
        None => DEFAULT_MAX_BACKOFF_SECONDS,
    };
    let longest: u32 = if cap > u32::MAX / 1000 {
        u32::MAX
    } else {
        cap * 1000
    };
    if duration < longest {
        duration
    } else {
        longest
    }
}

/// The delays never shrink from one failure to the next, whatever chance
/// adds to them.
pub proof fn lemma_backoff_never_shrinks(
    earlier: u32,
    later: u32,
    jitter_earlier: u32,
    jitter_later: u32,
    max_seconds: u32,
)
    requires
        earlier < later,
        jitter_earlier <= MAX_JITTER_MILLIS,
        jitter_later <= MAX_JITTER_MILLIS,
    ensures
        backoff_delay(earlier, jitter_earlier, max_seconds) <= backoff_delay(
            later,
            jitter_later,
            max_seconds,
        ),
{
    lemma_two_to_grows(earlier as nat, later as nat);
}

/// The session after `k` rounds of a failure and the attempt that follows
/// it.
pub open spec fn after_rounds(t: Transport, k: nat) -> Transport
    decreases k,
{
    if k == 0 {
        t
    } else {
        after_rounds(t, (k - 1) as nat).failed().0.reconnecting().0
    }
}

/// Every failure schedules one new attempt, and no second one while that
/// attempt is pending. Of failures that follow one another, each
/// schedules the attempt with the next number, so that by
/// [`lemma_backoff_never_shrinks`] the delays never shrink.
pub proof fn lemma_one_attempt_per_failure(t: Transport, k: nat)
    requires
        !t.reconnect_pending,
        t.failures + k <= u32::MAX,
    ensures
        !after_rounds(t, k).reconnect_pending,
        after_rounds(t, k).failures == t.failures + k,
        after_rounds(t, k).failed().1 == after_rounds(t, k).stopping_keep_alive().push(
            CommandView::ScheduleReconnect((t.failures + k) as u32),
        ),
        after_rounds(t, k).failed().0.reconnect_pending,
        after_rounds(t, k).failed().0.failed().1 == Seq::<CommandView>::empty(),
    decreases k,
{
    if k > 0 {
        lemma_one_attempt_per_failure(t, (k - 1) as nat);
    }
}

} // verus!
