use timer_app::envelope::{wrap, PeerId};
use timer_app::mqtt_websocket::{self, Command, ConnectionState, ReceivedMsg};
use timer_app::packet::{decode, encode, Packet};
use timer_app::pages::{login, workout};
use timer_app::pages::workout::{PublishedModel, RunningState};
use timer_app::subs::Event;
use timer_app::workout::FlatStatus;
use timer_app::{mean, AppMsg, Model, Msg, Order, Page, BROKER_URL, TOPIC_PREFIX};

const T0: i64 = 1_600_000_000_000;

fn plan() -> Vec<FlatStatus> {
    vec![
        FlatStatus { name: "Work".to_string(), this_rep: 1, total_reps: 1, duration: Some(30) },
        FlatStatus { name: "Rest".to_string(), this_rep: 1, total_reps: 1, duration: Some(15) },
    ]
}

/// The application after the user joined the room "ABCD".
fn joined() -> Model {
    let mut m = Model::new("plan".to_string());
    Model::update(Msg::HandleEvent(Event::Connect), &mut m, T0);
    m.set_routine(Ok(plan()));
    Model::update(Msg::MqttMsg(mqtt_websocket::Msg::WebSocketOpened), &mut m, T0);
    m
}

fn session(m: &Model) -> &workout::Model {
    match m.page() {
        Page::Workout(s) => s,
        Page::Login => panic!("no session"),
    }
}

fn own_id(m: &Model) -> PeerId {
    m.mqtt_connection().as_ref().unwrap().id()
}

fn go(m: &mut Model, now: i64) -> Vec<Order> {
    Model::update(Msg::InternalMsg(AppMsg::WorkoutMsg(workout::Msg::Go)), m, now)
}

#[test]
fn the_application_starts_on_the_login_page() {
    let m = Model::new("plan".to_string());
    assert!(matches!(m.page(), Page::Login));
    assert_eq!(m.login(), &login::Model { room: "ABCD".to_string(), password: "1234".to_string() });
    assert!(m.mqtt_connection().is_none());
    assert_eq!(m.server_time_delta(), 0);
    assert_eq!(m.publish("x"), vec![]);
}

#[test]
fn the_login_page_takes_its_messages_while_it_is_shown() {
    let mut m = Model::new("plan".to_string());
    let typed = Msg::InternalMsg(AppMsg::LoginMsg(login::Msg::RoomChanged("gym".to_string())));
    assert_eq!(Model::update(typed.clone(), &mut m, T0), vec![]);
    assert_eq!(m.login().room, "gym");
    let secret = Msg::InternalMsg(AppMsg::LoginMsg(login::Msg::PasswordChanged("s".to_string())));
    assert_eq!(Model::update(secret, &mut m, T0), vec![]);
    assert_eq!(m.login().password, "s");
    let connect = Msg::InternalMsg(AppMsg::LoginMsg(login::Msg::Connect));
    assert_eq!(Model::update(connect, &mut m, T0), vec![Order::Notify(Event::Connect)]);
    assert_eq!(go(&mut m, T0), vec![]);
    Model::update(Msg::HandleEvent(Event::Connect), &mut m, T0);
    let late = Msg::InternalMsg(AppMsg::LoginMsg(login::Msg::RoomChanged("other".to_string())));
    assert_eq!(Model::update(late, &mut m, T0), vec![]);
    assert_eq!(m.login().room, "gym");
    assert_eq!(m.mqtt_connection().as_ref().unwrap().topic(), format!("{}gym", TOPIC_PREFIX));
}

#[test]
fn joining_a_room_opens_a_connection_and_a_session() {
    let mut m = Model::new("plan".to_string());
    assert_eq!(
        Model::update(Msg::HandleEvent(Event::Connect), &mut m, T0),
        vec![Order::Transport(Command::OpenSocket), Order::Compile]
    );
    let connection = m.mqtt_connection().as_ref().unwrap();
    assert_eq!(connection.state(), ConnectionState::Connecting);
    assert_eq!(connection.url(), BROKER_URL);
    assert_eq!(connection.topic(), "/xcvyunaizrsemkt/timer-app/testABCD");
    assert_eq!(
        session(&m).published(),
        &PublishedModel { config: "plan".to_string(), state: RunningState::Config, routine_ix: 0 }
    );
    assert_eq!(session(&m).routine(), &Err("Not compiled yet".to_string()));
    assert_eq!(session(&m).last_update(), T0);
    m.set_routine(Ok(plan()));
    assert_eq!(session(&m).routine(), &Ok(plan()));
}

#[test]
fn leaving_the_room_drops_the_connection() {
    let mut m = joined();
    assert_eq!(
        Model::update(Msg::HandleEvent(Event::Disconnect), &mut m, T0),
        vec![Order::DropConnection]
    );
    assert!(matches!(m.page(), Page::Login));
    assert!(m.mqtt_connection().is_none());
    assert_eq!(
        Model::update(Msg::MqttMsg(mqtt_websocket::Msg::KeepAlive), &mut m, T0),
        vec![]
    );
    m.set_routine(Ok(plan()));
    assert!(matches!(m.page(), Page::Login));
}

#[test]
fn the_screen_ticks_the_clock() {
    let mut m = Model::new("plan".to_string());
    assert_eq!(Model::update(Msg::Rendered, &mut m, T0), vec![Order::RenderAgain]);
    let mut m = joined();
    assert_eq!(
        go(&mut m, T0),
        vec![
            Order::Notify(Event::Beep { freq: 880, dur: 100 }),
            Order::Notify(Event::PublishedStateUpdated)
        ]
    );
    assert_eq!(Model::update(Msg::Rendered, &mut m, T0 + 1_000), vec![Order::RenderAgain]);
    assert_eq!(
        Model::update(Msg::Rendered, &mut m, T0 + 31_000),
        vec![
            Order::Notify(Event::StepAdvanced(1)),
            Order::Notify(Event::PublishedStateUpdated),
            Order::Notify(Event::Beep { freq: 440, dur: 200 }),
            Order::RenderAgain,
        ]
    );
    assert_eq!(session(&m).published().routine_ix, 1);
}

#[test]
fn events_become_orders() {
    let mut m = joined();
    assert_eq!(
        Model::update(Msg::HandleEvent(Event::Beep { freq: 440, dur: 200 }), &mut m, T0),
        vec![Order::Sound { freq: 440, dur: 200 }]
    );
    assert_eq!(
        Model::update(Msg::HandleEvent(Event::PublishedStateUpdated), &mut m, T0),
        vec![Order::Publish]
    );
    assert_eq!(Model::update(Msg::HandleEvent(Event::StepAdvanced(3)), &mut m, T0), vec![]);
    assert_eq!(Model::update(Msg::HandleEvent(Event::StartWorkout), &mut m, T0), vec![]);
    let mut alone = Model::new("plan".to_string());
    assert_eq!(
        Model::update(Msg::HandleEvent(Event::PublishedStateUpdated), &mut alone, T0),
        vec![]
    );
}

#[test]
fn a_published_state_goes_out_in_an_envelope() {
    let m = joined();
    let orders = m.publish("{\"routine_ix\":1}");
    assert_eq!(orders.len(), 1);
    let bytes = match &orders[0] {
        Order::Transport(Command::Send(bytes)) => bytes.clone(),
        _ => unreachable!(),
    };
    assert_eq!(
        decode(&bytes),
        Ok(Packet::Publish {
            topic: "/xcvyunaizrsemkt/timer-app/testABCD".to_string(),
            qos: 0,
            payload: wrap("{\"routine_ix\":1}", own_id(&m)),
        })
    );
}

#[test]
fn the_echo_of_a_published_state_does_nothing() {
    let mut m = joined();
    go(&mut m, T0);
    let before = session(&m).published().duplicate();
    let orders = m.publish("{\"config\":\"plan\",\"state\":\"Config\",\"routine_ix\":0}");
    let echo = match &orders[0] {
        Order::Transport(Command::Send(bytes)) => bytes.clone(),
        _ => unreachable!(),
    };
    let received = Msg::MqttMsg(mqtt_websocket::Msg::WebSocketBytesReceived(echo));
    assert_eq!(Model::update(received, &mut m, T0 + 5), vec![]);
    assert_eq!(session(&m).published(), &before);
}

#[test]
fn the_state_of_a_peer_replaces_the_own() {
    let mut m = joined();
    let other = PeerId { value: own_id(&m).value ^ 1 };
    let frame = encode(&Packet::Publish {
        topic: "/xcvyunaizrsemkt/timer-app/testABCD".to_string(),
        qos: 0,
        payload: wrap("state of a peer", other),
    })
    .unwrap();
    let received = Msg::MqttMsg(mqtt_websocket::Msg::WebSocketBytesReceived(frame));
    assert_eq!(
        Model::update(received, &mut m, T0),
        vec![Order::Transport(Command::Deliver(ReceivedMsg { msg: "state of a peer".to_string() }))]
    );
    let remote = PublishedModel {
        config: "plan".to_string(),
        state: RunningState::RunningSince(T0 - 4_000),
        routine_ix: 1,
    };
    assert_eq!(Model::update(Msg::ExternalMsg(remote.clone()), &mut m, T0), vec![]);
    assert_eq!(session(&m).published(), &remote);
    let changed = PublishedModel { config: "new".to_string(), ..remote };
    assert_eq!(Model::update(Msg::ExternalMsg(changed), &mut m, T0), vec![Order::Compile]);
    let mut alone = Model::new("plan".to_string());
    assert_eq!(
        Model::update(Msg::ExternalMsg(PublishedModel::init("x".to_string())), &mut alone, T0),
        vec![]
    );
}

#[test]
fn the_offset_is_the_mean_of_the_answers() {
    let mut m = Model::new("plan".to_string());
    let mut asked = Vec::new();
    let mut offsets = Vec::new();
    for delta in [10, 20, 31, -200, 4, 1000, 7] {
        let orders = Model::update(Msg::SetServerDelta(delta), &mut m, T0);
        asked.push(orders == vec![Order::RequestTime]);
        assert!(orders.len() <= 1);
        offsets.push(m.server_time_delta());
    }
    assert_eq!(asked, vec![true, true, true, true, false, false, false]);
    assert_eq!(offsets, vec![10, 15, 20, -34, -27, 144, 124]);
}

#[test]
fn the_mean_rounds_toward_zero_and_does_not_overflow() {
    assert_eq!(mean(&vec![7]), 7);
    assert_eq!(mean(&vec![-7, 0]), -3);
    assert_eq!(mean(&vec![7, 0]), 3);
    assert_eq!(mean(&vec![-1, -1, -2]), -1);
    assert_eq!(mean(&vec![i64::MAX, i64::MAX, i64::MAX]), i64::MAX);
    assert_eq!(mean(&vec![i64::MIN, i64::MIN]), i64::MIN);
    assert_eq!(mean(&vec![i64::MIN, i64::MAX]), 0);
}
