//! A workout timer whose session state is shared between peers over a
//! publish/subscribe transport.
//!
//! The crate holds the verified core: the flattening of workout plans, the
//! session state machine that derives elapsed time from the wall clock, the
//! envelope rules that drop a peer's own echoes, and the decisions of the
//! transport session. Everything that touches a socket, a clock or a screen
//! is left to the caller, which hands plain values in and performs the
//! orders that come back.
pub mod envelope;
pub mod mqtt_websocket;
pub mod packet;
pub mod pages;
pub mod routine;
pub mod subs;
pub mod text;
pub mod workout;
pub mod workoutstep;

use crate::mqtt_websocket::{commands, sending, Command, CommandView, Transport};
use crate::pages::login::Login;
use crate::pages::workout::{quotient_toward_zero, Effect, PublishedModel, Session};
use crate::subs::Event;
use crate::workout::FlatStatus;
use vstd::prelude::*;
use vstd::string::*;

verus! {

/// The start of every room's topic.
pub const TOPIC_PREFIX: &'static str = "/xcvyunaizrsemkt/timer-app/test";

/// The address of the broker.
pub const BROKER_URL: &'static str = "wss://test.mosquitto.org:8081/mqtt";

/// How many answers of the time server the clock's offset is averaged
/// over.
pub const SERVER_DELTA_SAMPLES: usize = 5;

/// The page that is shown.
pub enum Page {
    Login,
    Workout(pages::workout::Model),
}

/// What a [`Page`] stands for.
pub enum PageView {
    Login,
    Workout(Session),
}

impl View for Page {
    type V = PageView;

    open spec fn view(&self) -> PageView {
        match *self {
            Page::Login => PageView::Login,
            Page::Workout(m) => PageView::Workout(m@),
        }
    }
}

/// A message of one of the pages.
#[derive(Clone, Debug)]
pub enum AppMsg {
    LoginMsg(pages::login::Msg),
    WorkoutMsg(pages::workout::Msg),
}

/// What happened to the application.
#[derive(Clone, Debug)]
pub enum Msg {
    /// The user did something on a page.
    InternalMsg(AppMsg),
    /// A peer published its state.
    ExternalMsg(PublishedModel),
    /// Something happened to the connection.
    MqttMsg(mqtt_websocket::Msg),
    /// The screen was drawn.
    Rendered,
    /// An event was announced.
    HandleEvent(Event),
    /// The time server answered: its clock is this many milliseconds
    /// ahead.
    SetServerDelta(i64),
}

/// What the caller has to do for the application.
#[derive(Clone, Debug, PartialEq, Eq)]
pub enum Order {
    /// Announce this event, which comes back as [`Msg::HandleEvent`].
    Notify(Event),
    /// Compile the text of the session's plan and hand the result to
    /// [`Model::set_routine`].
    Compile,
    /// Carry this out for the connection.
    Transport(Command),
    /// Drop the socket and the timers of the connection.
    DropConnection,
    /// Write the session's published state as text and hand it to
    /// [`Model::publish`].
    Publish,
    /// Ask the time server again.
    RequestTime,
    /// Sound a tone of `freq` hertz for `dur` milliseconds.
    Sound { freq: u32, dur: u32 },
    /// Hand in [`Msg::Rendered`] after the screen is drawn next.
    RenderAgain,
}

/// What an [`Order`] stands for.
pub enum OrderView {
    Notify(Event),
    Compile,
    Transport(CommandView),
    DropConnection,
    Publish,
    RequestTime,
    Sound { freq: u32, dur: u32 },
    RenderAgain,
}

impl View for Order {
    type V = OrderView;

    open spec fn view(&self) -> OrderView {
        match *self {
            Order::Notify(e) => OrderView::Notify(e),
            Order::Compile => OrderView::Compile,
            Order::Transport(c) => OrderView::Transport(c@),
            Order::DropConnection => OrderView::DropConnection,
            Order::Publish => OrderView::Publish,
            Order::RequestTime => OrderView::RequestTime,
            Order::Sound { freq, dur } => OrderView::Sound { freq, dur },
            Order::RenderAgain => OrderView::RenderAgain,
        }
    }
}

/// What a list of orders stands for.
pub open spec fn orders(list: Seq<Order>) -> Seq<OrderView> {
    list.map_values(|o: Order| o@)
}

/// The orders that announce these events.
pub open spec fn orders_of_events(events: Seq<Event>) -> Seq<OrderView> {
    events.map_values(|e: Event| OrderView::Notify(e))
}

/// The orders that carry out these effects of a page.
pub open spec fn orders_of_effects(effects: Seq<Effect>) -> Seq<OrderView> {
    effects.map_values(
        |e: Effect|
            match e {
                Effect::Notify(event) => OrderView::Notify(event),
                Effect::Compile => OrderView::Compile,
            },
    )
}

/// The orders that carry out these commands of the connection.
pub open spec fn orders_of_commands(list: Seq<CommandView>) -> Seq<OrderView> {
    list.map_values(|c: CommandView| OrderView::Transport(c))
}

/// The sum of the first `n` numbers of `s`.
pub open spec fn sum_of(s: Seq<i64>, n: nat) -> int
    decreases n,
{
    if n == 0 || n > s.len() {
        0
    } else {
        sum_of(s, (n - 1) as nat) + s[n - 1]
    }
}

/// The mean of the numbers of `s`, rounded toward zero.
pub open spec fn mean_of(s: Seq<i64>) -> int {
    quotient_toward_zero(sum_of(s, s.len()), s.len() as int)
}

/// The application as a mathematical value.
pub struct App {
    pub page: PageView,
    pub login: Login,
    pub connection: Option<Transport>,
    /// How far the time server's clock is ahead, in milliseconds: the mean
    /// of its answers so far.
    pub server_time_delta: i64,
    pub server_deltas: Seq<i64>,
    /// The text of the plan that a new session starts with.
    pub default_config: Seq<char>,
}

impl App {
    /// The topic of the room that the login page names.
    pub open spec fn topic(self) -> Seq<char> {
        TOPIC_PREFIX@ + self.login.room
    }

    /// The application after a message of a page. A message of a page
    /// that is not shown is passed over.
    pub open spec fn after_page_msg(self, msg: AppMsg, now: i64) -> (App, Seq<OrderView>) {
        match (self.page, msg) {
            (PageView::Login, AppMsg::LoginMsg(m)) => (
                App { login: pages::login::updated(self.login, m), ..self },
                orders_of_events(pages::login::announced(m)),
            ),
            (PageView::Workout(s), AppMsg::WorkoutMsg(m)) => (
                App { page: PageView::Workout(pages::workout::updated(s, m, now)), ..self },
                orders_of_effects(pages::workout::update_effects(s, m, now)),
            ),
            _ => (self, Seq::<OrderView>::empty()),
        }
    }

    /// The application after a tick of the screen: the session's clock
    /// ticks, and the next tick is asked for.
    pub open spec fn after_render(self, now: i64) -> (App, Seq<OrderView>) {
        match self.page {
            PageView::Workout(s) => (
                App { page: PageView::Workout(s.time_fn(now).0), ..self },
                orders_of_events(s.time_fn(now).1).push(OrderView::RenderAgain),
            ),
            PageView::Login => (self, seq![OrderView::RenderAgain]),
        }
    }

    /// The application after something happened to the connection.
    pub open spec fn after_transport_msg(self, msg: mqtt_websocket::Msg) -> (App, Seq<OrderView>) {
        match self.connection {
            Some(t) => (
                App { connection: Some(t.step(msg).0), ..self },
                orders_of_commands(t.step(msg).1),
            ),
            None => (self, Seq::<OrderView>::empty()),
        }
    }

    /// The application after the user joined a room, as the peer `id`: a
    /// connection to the room's topic is being opened, and a fresh session
    /// is shown whose plan is to be compiled.
    pub open spec fn joined(self, id: u128, now: i64) -> (App, Seq<OrderView>) {
        (
            App {
                connection: Some(
                    Transport::fresh(id, BROKER_URL@, self.topic(), self.login.password).step(
                        mqtt_websocket::Msg::ReconnectWebSocket(0),
                    ).0,
                ),
                page: PageView::Workout(
                    Session {
                        config: self.default_config,
                        state: pages::workout::RunningState::Config,
                        routine_ix: 0,
                        routine: Err(pages::workout::not_compiled_text()),
                        last_update: now,
                    },
                ),
                ..self
            },
            seq![
                OrderView::Transport(CommandView::OpenSocket),
                OrderView::Compile,
            ],
        )
    }

    /// The application after an event was announced. Joining a room is
    /// left out: it makes a new identity, see [`App::joined`].
    pub open spec fn after_event(self, event: Event) -> (App, Seq<OrderView>) {
        match event {
            Event::Disconnect => (
                App { connection: None, page: PageView::Login, ..self },
                seq![OrderView::DropConnection],
            ),
            Event::Beep { freq, dur } => (self, seq![OrderView::Sound { freq, dur }]),
            Event::PublishedStateUpdated => (
                self,
                if self.connection is Some && self.page is Workout {
                    seq![OrderView::Publish]
                } else {
                    Seq::<OrderView>::empty()
                },
            ),
            _ => (self, Seq::<OrderView>::empty()),
        }
    }

    /// The application after an answer of the time server: the offset is
    /// the mean of all answers, and the server is asked again until there
    /// are enough of them.
    pub open spec fn after_server_delta(self, delta: i64) -> (App, Seq<OrderView>) {
        let deltas = self.server_deltas.push(delta);
        (
            App { server_deltas: deltas, server_time_delta: mean_of(deltas) as i64, ..self },
            if deltas.len() < SERVER_DELTA_SAMPLES {
                seq![OrderView::RequestTime]
            } else {
                Seq::<OrderView>::empty()
            },
        )
    }

    /// The application and the orders after `msg` at wall-clock time
    /// `now`. Joining a room is left out: it makes a new identity, see
    /// [`App::joined`].
    pub open spec fn step(self, msg: Msg, now: i64) -> (App, Seq<OrderView>) {
        match msg {
            Msg::InternalMsg(m) => self.after_page_msg(m, now),
            Msg::ExternalMsg(p) => self.after_page_msg(
                AppMsg::WorkoutMsg(pages::workout::Msg::ExternalUpdate(p)),
                now,
            ),
            Msg::MqttMsg(m) => self.after_transport_msg(m),
            Msg::Rendered => self.after_render(now),
            Msg::HandleEvent(e) => self.after_event(e),
            Msg::SetServerDelta(d) => self.after_server_delta(d),
        }
    }

    /// The orders that publish the session's state, given as text: the
    /// publication, where there is a connection.
    pub open spec fn publishing(self, text: Seq<char>) -> Seq<OrderView> {
        match self.connection {
            Some(t) => orders_of_commands(sending(t.publication(text))),
            None => Seq::<OrderView>::empty(),
        }
    }
}

/// The sum of numbers lies between as many times the least and the
/// greatest of them, so their mean is a number of the same kind.
pub proof fn lemma_mean_in_range(s: Seq<i64>, n: nat)
    requires
        n <= s.len(),
    ensures
        n * i64::MIN <= sum_of(s, n) <= n * i64::MAX,
        n > 0 ==> i64::MIN <= quotient_toward_zero(sum_of(s, n), n as int) <= i64::MAX,
    decreases n,
{
    if n > 0 {
        lemma_mean_in_range(s, (n - 1) as nat);
        let total = sum_of(s, n);
        let count = n as int;
        let least = i64::MIN as int;
        let most = i64::MAX as int;
        assert((count - 1) * least + least == count * least) by (nonlinear_arith);
        assert((count - 1) * most + most == count * most) by (nonlinear_arith);
        if total >= 0 {
            assert(total / count <= most) by (nonlinear_arith)
                requires
                    0 <= total <= count * most,
                    count > 0,
            ;
            assert(0 <= total / count) by (nonlinear_arith)
                requires
                    0 <= total,
                    count > 0,
            ;
        } else {
            assert((-total) / count <= -least) by (nonlinear_arith)
                requires
                    0 <= -total <= count * (-least),
                    count > 0,
            ;
            assert(0 <= (-total) / count) by (nonlinear_arith)
                requires
                    0 <= -total,
                    count > 0,
            ;
        }
    }
}

/// The mean of the numbers of a list that is not empty, rounded toward
/// zero.
pub fn mean(list: &Vec<i64>) -> (m: i64)
    requires
        list@.len() > 0,
    ensures
        m == mean_of(list@),
{
    let mut total: i128 = 0;
    let mut i: usize = 0;
    while i < list.len()
        invariant
            i <= list@.len(),
            total == sum_of(list@, i as nat),
            i * i64::MIN <= total <= i * i64::MAX,
        decreases list@.len() - i,
    {
        proof {
            lemma_mean_in_range(list@, (i + 1) as nat);
        }
        total = total + list[i] as i128;
        i += 1;
    }
    proof {
        lemma_mean_in_range(list@, list@.len());
    }
    let count: i128 = list.len() as i128;
    (total / count) as i64
}

/// Turns events into the orders that announce them.
fn announce_events(events: Vec<Event>) -> (out: Vec<Order>)
    ensures
        orders(out@) == orders_of_events(events@),
{
    let mut out: Vec<Order> = Vec::new();
    let mut i: usize = 0;
    while i < events.len()
        invariant
            i <= events@.len(),
            orders(out@) == orders_of_events(events@.take(i as int)),
        decreases events@.len() - i,
    {
        let ghost before = orders(out@);
        out.push(Order::Notify(events[i]));
        assert(orders(out@) =~= before.push(OrderView::Notify(events@[i as int])));
        assert(events@.take(i + 1) =~= events@.take(i as int).push(events@[i as int]));
        assert(orders_of_events(events@.take(i + 1)) =~= orders_of_events(
            events@.take(i as int),
        ).push(OrderView::Notify(events@[i as int])));
        i += 1;
    }
    assert(events@.take(i as int) =~= events@);
    out
}

/// Turns the effects of a page into orders.
fn carry_out_effects(effects: Vec<Effect>) -> (out: Vec<Order>)
    ensures
        orders(out@) == orders_of_effects(effects@),
{
    let mut out: Vec<Order> = Vec::new();
    let mut i: usize = 0;
    while i < effects.len()
        invariant
            i <= effects@.len(),
            orders(out@) == orders_of_effects(effects@.take(i as int)),
        decreases effects@.len() - i,
    {
        let order = match effects[i] {
            Effect::Notify(event) => Order::Notify(event),
            Effect::Compile => Order::Compile,
        };
        let ghost before = orders(out@);
        out.push(order);
        assert(orders(out@) =~= before.push(order@));
        assert(effects@.take(i + 1) =~= effects@.take(i as int).push(effects@[i as int]));
        assert(orders_of_effects(effects@.take(i + 1)) =~= orders_of_effects(
            effects@.take(i as int),
        ).push(order@));
        i += 1;
    }
    assert(effects@.take(i as int) =~= effects@);
    out
}

/// Turns the commands of the connection into orders.
fn carry_out_commands(list: Vec<Command>) -> (out: Vec<Order>)
    ensures
        orders(out@) == orders_of_commands(commands(list@)),
{
    let ghost all = commands(list@);
    let mut rest = list;
    let mut out: Vec<Order> = Vec::new();
    assert(orders(out@) + orders_of_commands(commands(rest@)) =~= orders_of_commands(all));
    while rest.len() > 0
        invariant
            orders(out@) + orders_of_commands(commands(rest@)) == orders_of_commands(all),
        decreases rest@.len(),
    {
        let ghost before = orders(out@);
        let ghost waiting = commands(rest@);
        let c = rest.remove(0);
        assert(commands(rest@) =~= waiting.drop_first());
        assert(waiting[0] == c@);
        out.push(Order::Transport(c));
        assert(orders(out@) =~= before.push(OrderView::Transport(waiting[0])));
        assert(orders(out@) + orders_of_commands(commands(rest@)) =~= before + orders_of_commands(
            waiting,
        ));
    }
    assert(orders(out@) =~= orders_of_commands(all));
    out
}

/// An empty list of orders.
fn no_orders() -> (out: Vec<Order>)
    ensures
        orders(out@) == Seq::<OrderView>::empty(),
{
    let out: Vec<Order> = Vec::new();
    assert(orders(out@) =~= Seq::<OrderView>::empty());
    out
}

/// A list of one order.
fn one_order(order: Order) -> (out: Vec<Order>)
    ensures
        orders(out@) == seq![order@],
{
    let mut out: Vec<Order> = Vec::new();
    out.push(order);
    assert(orders(out@) =~= seq![order@]);
    out
}

/// The application.
pub struct Model {
    page: Page,
    login: pages::login::Model,
    mqtt_connection: Option<mqtt_websocket::Model>,
    server_time_delta: i64,
    server_deltas: Vec<i64>,
    default_config: String,
}

impl View for Model {
    type V = App;

    closed spec fn view(&self) -> App {
        App {
            page: self.page@,
            login: self.login@,
            connection: match self.mqtt_connection {
                Some(c) => Some(c@),
                None => None,
            },
            server_time_delta: self.server_time_delta,
            server_deltas: self.server_deltas@,
            default_config: self.default_config@,
        }
    }
}

impl Model {
    /// The application as it starts: the login page, no connection, and no
    /// answer of the time server. `default_config` is the text of the plan
    /// that a new session starts with.
    pub fn new(default_config: String) -> (m: Model)
        ensures
            m@.page is Login,
            m@.login == (Login { room: "ABCD"@, password: "1234"@ }),
            m@.connection is None,
            m@.server_time_delta == 0,
            m@.server_deltas == Seq::<i64>::empty(),
            m@.default_config == default_config@,
    {
        Model {
            page: Page::Login,
            login: pages::login::Model::init(),
            mqtt_connection: None,
            server_time_delta: 0,
            server_deltas: Vec::new(),
            default_config,
        }
    }

    /// The page that is shown.
    pub fn page(&self) -> (page: &Page)
        ensures
            page@ == self@.page,
    {
        &self.page
    }

    /// The login page.
    pub fn login(&self) -> (login: &pages::login::Model)
        ensures
            login@ == self@.login,
    {
        &self.login
    }

    /// The connection, where the user has joined a room.
    pub fn mqtt_connection(&self) -> (c: &Option<mqtt_websocket::Model>)
        ensures
            c is Some == self@.connection is Some,
            c matches Some(t) ==> self@.connection == Some(t@),
    {
        &self.mqtt_connection
    }

    /// How far the time server's clock is ahead, in milliseconds.
    pub fn server_time_delta(&self) -> (delta: i64)
        ensures
            delta == self@.server_time_delta,
    {
        self.server_time_delta
    }

    /// Takes the result of compiling the text of the session's plan;
    /// without a session there is nothing to take it.
    pub fn set_routine(&mut self, routine: Result<Vec<FlatStatus>, String>)
        ensures
            final(self)@ == (match old(self)@.page {
                PageView::Workout(s) => App {
                    page: PageView::Workout(
                        Session { routine: crate::routine::outcome(routine), ..s },
                    ),
                    ..old(self)@
                },
                PageView::Login => old(self)@,
            }),
    {
        match &mut self.page {
            Page::Workout(session) => {
                session.set_routine(routine);
            },
            Page::Login => {},
        }
    }

    /// The orders that publish the session's state, given as text, to the
    /// peers.
    pub fn publish(&self, text: &str) -> (out: Vec<Order>)
        ensures
            orders(out@) == self@.publishing(text@),
    {
        match &self.mqtt_connection {
            Some(connection) => carry_out_commands(connection.send_msg(text)),
            None => no_orders(),
        }
    }

    /// A message of a page.
    fn update_app(&mut self, msg: AppMsg, now: i64) -> (out: Vec<Order>)
        ensures
            (final(self)@, orders(out@)) == old(self)@.after_page_msg(msg, now),
    {
        match msg {
            AppMsg::LoginMsg(m) => match &self.page {
                Page::Login => announce_events(pages::login::update(m, &mut self.login)),
                Page::Workout(_) => no_orders(),
            },
            AppMsg::WorkoutMsg(m) => match &mut self.page {
                Page::Workout(session) => carry_out_effects(
                    pages::workout::update(m, session, now),
                ),
                Page::Login => no_orders(),
            },
        }
    }

    /// The user joined the room that the login page names.
    fn join(&mut self, now: i64) -> (out: Vec<Order>)
        ensures
            final(self)@.connection is Some,
            (final(self)@, orders(out@)) == old(self)@.joined(
                final(self)@.connection->0.id,
                now,
            ),
    {
        let topic = String::from_str(TOPIC_PREFIX).concat(self.login.room.as_str());
        let mut connection = mqtt_websocket::Model::new(
            BROKER_URL,
            topic.as_str(),
            self.login.password.as_str(),
        );
        let opening = mqtt_websocket::Model::update(mqtt_websocket::connect(), &mut connection);
        assert(commands(opening@) =~= seq![CommandView::OpenSocket]);
        let mut out = carry_out_commands(opening);
        assert(orders(out@) =~= seq![OrderView::Transport(CommandView::OpenSocket)]);
        let ghost before = orders(out@);
        out.push(Order::Compile);
        assert(orders(out@) =~= before.push(OrderView::Compile));
        self.mqtt_connection = Some(connection);
        self.page = Page::Workout(pages::workout::Model::init(self.default_config.clone(), now));
        assert(orders(out@) =~= old(self)@.joined(self@.connection->0.id, now).1);
        out
    }

    /// An answer of the time server.
    fn take_server_delta(&mut self, delta: i64) -> (out: Vec<Order>)
        ensures
            (final(self)@, orders(out@)) == old(self)@.after_server_delta(delta),
    {
        self.server_deltas.push(delta);
        self.server_time_delta = mean(&self.server_deltas);
        if self.server_deltas.len() < SERVER_DELTA_SAMPLES {
            one_order(Order::RequestTime)
        } else {
            no_orders()
        }
    }

    /// Applies `msg` at wall-clock time `now`, and returns what the caller
    /// has to do. Joining a room gives the connection a new identity, of
    /// which nothing is known beforehand; everything else is fixed by the
    /// message and the state.
    pub fn update(msg: Msg, model: &mut Model, now: i64) -> (out: Vec<Order>)
        ensures
            msg matches Msg::HandleEvent(Event::Connect) ==> final(model)@.connection is Some && (
            final(model)@, orders(out@)) == old(model)@.joined(
                final(model)@.connection->0.id,
                now,
            ),
            !(msg matches Msg::HandleEvent(Event::Connect)) ==> (final(model)@, orders(out@))
                == old(model)@.step(msg, now),
    {
        match msg {
            Msg::InternalMsg(m) => model.update_app(m, now),
            Msg::ExternalMsg(p) => model.update_app(
                AppMsg::WorkoutMsg(pages::workout::Msg::ExternalUpdate(p)),
                now,
            ),
            Msg::MqttMsg(m) => match &mut model.mqtt_connection {
                Some(connection) => carry_out_commands(mqtt_websocket::Model::update(m, connection)),
                None => no_orders(),
            },
            Msg::Rendered => {
                let mut out = match &mut model.page {
                    Page::Workout(session) => announce_events(session.time_fn(now)),
                    Page::Login => no_orders(),
                };
                let ghost before = orders(out@);
                out.push(Order::RenderAgain);
                assert(orders(out@) =~= before.push(OrderView::RenderAgain));
                assert(orders(out@) =~= old(model)@.after_render(now).1);
                out
            },
            Msg::HandleEvent(event) => match event {
                Event::Connect => model.join(now),
                Event::Disconnect => {
                    model.mqtt_connection = None;
                    model.page = Page::Login;
                    one_order(Order::DropConnection)
                },
                Event::Beep { freq, dur } => one_order(Order::Sound { freq, dur }),
                Event::PublishedStateUpdated => {
                    let connected = model.mqtt_connection.is_some();
                    let in_session = match &model.page {
                        Page::Workout(_) => true,
                        Page::Login => false,
                    };
                    if connected && in_session {
                        one_order(Order::Publish)
                    } else {
                        no_orders()
                    }
                },
                _ => no_orders(),
            },
            Msg::SetServerDelta(d) => model.take_server_delta(d),
        }
    }
}

} // verus!
