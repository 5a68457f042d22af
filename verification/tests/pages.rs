use timer_app::pages::workout::Effect;
use timer_app::pages::{config, login};
use timer_app::subs::Event;
use timer_app::workout::FlatStatus;

#[test]
fn the_login_page_starts_with_a_room_and_a_password() {
    let m = login::Model::init();
    assert_eq!(m, login::Model { room: "ABCD".to_string(), password: "1234".to_string() });
}

#[test]
fn the_login_page_keeps_what_is_typed() {
    let mut m = login::Model::init();
    assert_eq!(login::update(login::Msg::RoomChanged("gym".to_string()), &mut m), vec![]);
    assert_eq!(m, login::Model { room: "gym".to_string(), password: "1234".to_string() });
    assert_eq!(login::update(login::Msg::PasswordChanged("".to_string()), &mut m), vec![]);
    assert_eq!(m, login::Model { room: "gym".to_string(), password: "".to_string() });
    assert_eq!(login::update(login::Msg::Connect, &mut m), vec![Event::Connect]);
    assert_eq!(m, login::Model { room: "gym".to_string(), password: "".to_string() });
}

#[test]
fn the_configuration_page_waits_for_its_plan() {
    let mut m = config::Model::init("text".to_string());
    assert_eq!(
        m,
        config::Model { config: "text".to_string(), routine: Err("Not compiled yet".to_string()) }
    );
    let plan = vec![FlatStatus {
        name: "Work".to_string(),
        this_rep: 1,
        total_reps: 1,
        duration: Some(30),
    }];
    m.set_routine(Ok(plan.clone()));
    assert_eq!(m.routine, Ok(plan));
    assert_eq!(
        config::update(config::Msg::ConfigChanged("new".to_string()), &mut m),
        vec![Effect::Compile]
    );
    assert_eq!(
        m,
        config::Model { config: "new".to_string(), routine: Err("Not compiled yet".to_string()) }
    );
    assert_eq!(
        config::update(config::Msg::Start, &mut m),
        vec![Effect::Notify(Event::StartWorkout)]
    );
    assert_eq!(
        config::update(config::Msg::Disconnect, &mut m),
        vec![Effect::Notify(Event::Disconnect)]
    );
    assert_eq!(m.config, "new");
}
