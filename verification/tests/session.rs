use timer_app::pages::workout::{update, Effect, Model, Msg, PublishedModel, RunningState};
use timer_app::routine::{Definition, Routine, SetWithRests, SimpleWork, Work, WorkSet};
use timer_app::subs::Event;
use timer_app::workout::FlatStatus;

const T0: i64 = 1_600_000_000_000;

fn step(name: &str, duration: Option<u32>) -> FlatStatus {
    FlatStatus { name: name.to_string(), this_rep: 1, total_reps: 1, duration }
}

fn work_and_rest() -> Vec<FlatStatus> {
    vec![step("Work", Some(30)), step("Rest", Some(15))]
}

/// A session with the plan [Work 30 s, Rest 15 s], started at `T0`.
fn running() -> Model {
    let mut m = Model::init("plan".to_string(), T0);
    m.set_routine(Ok(work_and_rest()));
    m.toggle(T0);
    m
}

fn beep(freq: u32, dur: u32) -> Event {
    Event::Beep { freq, dur }
}

#[test]
fn a_fresh_session_edits_its_plan() {
    let m = Model::init("text".to_string(), T0);
    assert_eq!(
        m.published(),
        &PublishedModel { config: "text".to_string(), state: RunningState::Config, routine_ix: 0 }
    );
    assert_eq!(m.routine(), &Err("Not compiled yet".to_string()));
    assert_eq!(m.last_update(), T0);
    assert_eq!(m.current_routine_item(), None);
    assert_eq!(m.elapsed_millis(), 0);
    assert_eq!(PublishedModel::init("text".to_string()), m.published().duplicate());
}

#[test]
fn a_tick_past_the_end_of_a_step_goes_to_the_next() {
    let mut m = running();
    assert_eq!(m.published().state, RunningState::RunningSince(T0));
    let events = m.time_fn(T0 + 31_000);
    assert_eq!(m.published().routine_ix, 1);
    assert_eq!(m.published().state, RunningState::RunningSince(T0 + 31_000));
    assert_eq!(
        events,
        vec![Event::StepAdvanced(1), Event::PublishedStateUpdated, beep(440, 200)]
    );
    assert_eq!(m.current_routine_item(), Some(&step("Rest", Some(15))));
}

#[test]
fn a_step_is_left_once_however_often_the_clock_ticks() {
    let mut m = running();
    let first = m.time_fn(T0 + 30_000);
    assert_eq!(first[0], Event::StepAdvanced(1));
    for later in [T0 + 30_000, T0 + 30_001, T0 + 31_000, T0 + 40_000] {
        let events = m.time_fn(later);
        assert!(!events.iter().any(|e| matches!(e, Event::StepAdvanced(_))));
        assert_eq!(m.published().routine_ix, 1);
    }
}

#[test]
fn elapsed_time_follows_the_wall_clock_whatever_the_ticks() {
    let mut often = running();
    let mut seldom = running();
    let mut last = 0;
    let mut t = T0;
    while t <= T0 + 27_000 {
        often.time_fn(t);
        assert!(often.elapsed_millis() >= last);
        last = often.elapsed_millis();
        if (t - T0) % 3000 == 0 {
            seldom.time_fn(t);
            assert_eq!(seldom.elapsed_millis(), often.elapsed_millis());
            assert_eq!(seldom.published(), often.published());
        }
        t += 50;
    }
    assert_eq!(often.elapsed_millis(), 27_000);
    assert_eq!(often.clock_seconds(), 3);
}

#[test]
fn an_anchor_ahead_of_the_clock_counts_as_no_time() {
    let mut m = running();
    assert_eq!(m.time_fn(T0 - 5_000), vec![]);
    assert_eq!(m.elapsed_millis(), 0);
    assert_eq!(m.clock_seconds(), 30);
}

#[test]
fn each_of_the_last_seconds_is_announced_once() {
    let mut m = running();
    let mut beeps = Vec::new();
    let mut t = T0 + 26_000;
    while t < T0 + 30_000 {
        for e in m.time_fn(t) {
            assert_eq!(e, beep(440, 100));
            beeps.push(t - T0);
        }
        t += 100;
    }
    // Under three seconds are left from 27.1 s on; the whole seconds left
    // change when 27 s, 28 s and 29 s are passed.
    assert_eq!(beeps, vec![27_100, 28_100, 29_100]);
}

#[test]
fn a_late_tick_announces_the_second_it_lands_in() {
    let mut m = running();
    assert_eq!(m.time_fn(T0 + 20_000), vec![]);
    assert_eq!(m.time_fn(T0 + 28_500), vec![beep(440, 100)]);
    assert_eq!(m.time_fn(T0 + 28_900), vec![]);
    assert_eq!(m.time_fn(T0 + 29_999), vec![beep(440, 100)]);
}

#[test]
fn the_end_of_the_plan_is_never_left() {
    let mut m = running();
    m.goto_item(1, T0);
    assert_eq!(m.time_fn(T0 + 15_000)[0], Event::StepAdvanced(2));
    assert_eq!(m.current_routine_item(), Some(&step("END", None)));
    assert_eq!(m.get_routine_item(7), &step("END", None));
    assert_eq!(m.time_fn(T0 + 1_000_000), vec![]);
    assert_eq!(m.published().routine_ix, 2);
    assert_eq!(m.elapsed_millis(), 985_000);
    assert_eq!(m.clock_seconds(), 985);
}

#[test]
fn going_to_a_step_restarts_a_running_clock() {
    let mut m = running();
    m.time_fn(T0 + 10_000);
    let events = m.goto_item(1, T0 + 10_500);
    assert_eq!(events, vec![Event::PublishedStateUpdated, beep(440, 200)]);
    assert_eq!(m.published().state, RunningState::RunningSince(T0 + 10_500));
    let events = m.goto_item(0, T0 + 11_000);
    assert_eq!(events, vec![Event::PublishedStateUpdated, beep(880, 200)]);
    assert_eq!(m.published().routine_ix, 0);
}

#[test]
fn going_to_a_step_sets_a_paused_clock_back() {
    let mut m = running();
    m.toggle(T0 + 12_000);
    assert_eq!(m.published().state, RunningState::PausedAfter(12_000));
    assert_eq!(m.goto_item(1, T0 + 13_000), vec![Event::PublishedStateUpdated]);
    assert_eq!(m.published().state, RunningState::PausedAfter(0));
    assert_eq!(m.published().routine_ix, 1);
}

#[test]
fn going_to_a_step_while_editing_only_moves_the_index() {
    let mut m = Model::init("plan".to_string(), T0);
    assert_eq!(m.goto_item(4, T0 + 1), vec![Event::PublishedStateUpdated]);
    assert_eq!(m.published().state, RunningState::Config);
    assert_eq!(m.published().routine_ix, 4);
}

#[test]
fn a_pause_keeps_the_time_into_the_step() {
    let mut m = running();
    m.time_fn(T0 + 12_000);
    m.toggle(T0 + 12_000);
    assert_eq!(m.published().state, RunningState::PausedAfter(12_000));
    m.time_fn(T0 + 50_000);
    assert_eq!(m.elapsed_millis(), 12_000);
    m.toggle(T0 + 60_000);
    assert_eq!(m.published().state, RunningState::RunningSince(T0 + 48_000));
    m.time_fn(T0 + 60_000);
    assert_eq!(m.elapsed_millis(), 12_000);
    assert_eq!(m.published().routine_ix, 0);
}

#[test]
fn a_paused_step_whose_time_is_up_is_left_too() {
    let mut m = running();
    m.toggle(T0 + 31_000);
    assert_eq!(m.published().state, RunningState::PausedAfter(31_000));
    assert_eq!(m.time_fn(T0 + 32_000), vec![Event::StepAdvanced(1), Event::PublishedStateUpdated]);
    assert_eq!(m.published().state, RunningState::PausedAfter(0));
}

#[test]
fn the_clock_starts_only_with_a_compiled_plan() {
    let mut m = Model::init("plan".to_string(), T0);
    let effects = update(Msg::Go, &mut m, T0 + 5);
    assert_eq!(
        effects,
        vec![Effect::Notify(beep(880, 100)), Effect::Notify(Event::PublishedStateUpdated)]
    );
    assert_eq!(m.published().state, RunningState::Config);
    m.goto_item(1, T0);
    m.set_routine(Ok(work_and_rest()));
    update(Msg::Go, &mut m, T0 + 9);
    assert_eq!(m.published().state, RunningState::RunningSince(T0 + 9));
    assert_eq!(m.published().routine_ix, 0);
}

#[test]
fn toggling_saturates_at_the_ends_of_the_clock() {
    let mut m = running();
    m.apply_external(PublishedModel {
        config: "plan".to_string(),
        state: RunningState::RunningSince(i64::MIN),
        routine_ix: 0,
    });
    m.toggle(5);
    assert_eq!(m.published().state, RunningState::PausedAfter(i64::MAX));
    m.toggle(-5);
    assert_eq!(m.published().state, RunningState::RunningSince(i64::MIN));
    m.apply_external(PublishedModel {
        config: "plan".to_string(),
        state: RunningState::RunningSince(i64::MIN),
        routine_ix: 9,
    });
    assert_eq!(m.time_fn(i64::MAX), vec![]);
    assert_eq!(m.elapsed_millis(), (i64::MAX as i128) - (i64::MIN as i128));
}

#[test]
fn update_follows_each_message() {
    let mut m = running();
    assert_eq!(
        update(Msg::ChangeItem(1), &mut m, T0 + 1),
        vec![Effect::Notify(Event::PublishedStateUpdated), Effect::Notify(beep(440, 200))]
    );
    assert_eq!(
        update(Msg::ToConfig, &mut m, T0 + 2),
        vec![Effect::Notify(Event::PublishedStateUpdated)]
    );
    assert_eq!(m.published().state, RunningState::Config);
    assert_eq!(m.current_routine_item(), None);
    assert_eq!(update(Msg::Disconnect, &mut m, T0 + 3), vec![Effect::Notify(Event::Disconnect)]);
    assert_eq!(
        update(Msg::ConfigChanged("other".to_string()), &mut m, T0 + 4),
        vec![Effect::Compile, Effect::Notify(Event::PublishedStateUpdated)]
    );
    assert_eq!(m.published().config, "other");
    assert_eq!(m.routine(), &Err("Not compiled yet".to_string()));
}

#[test]
fn a_peer_with_the_same_plan_asks_for_no_compilation() {
    let mut m = running();
    let remote = PublishedModel {
        config: "plan".to_string(),
        state: RunningState::PausedAfter(7_000),
        routine_ix: 1,
    };
    assert_eq!(update(Msg::ExternalUpdate(remote.clone()), &mut m, T0), vec![]);
    assert_eq!(m.published(), &remote);
    assert_eq!(m.routine(), &Ok(work_and_rest()));
    assert_eq!(m.elapsed_millis(), 7_000);
}

#[test]
fn a_peer_with_another_plan_asks_for_compilation() {
    let mut m = running();
    let remote = PublishedModel {
        config: "another plan".to_string(),
        state: RunningState::RunningSince(T0 - 1_000),
        routine_ix: 0,
    };
    assert_eq!(m.apply_external(remote.clone()), vec![Effect::Compile]);
    assert_eq!(m.published(), &remote);
    assert_eq!(m.routine(), &Err("Not compiled yet".to_string()));
    assert_eq!(m.current_routine_item(), Some(&step("END", None)));
    assert_eq!(m.time_fn(T0 + 100_000), vec![]);
    m.set_routine(Ok(vec![step("Run", Some(60))]));
    assert_eq!(m.current_routine_item(), Some(&step("Run", Some(60))));
}

#[test]
fn compile_config_flattens_a_parsed_plan() {
    let parsed = Routine {
        definitions: vec![Definition {
            name: "all".to_string(),
            body: SetWithRests {
                rest: 15,
                work: WorkSet::List(vec![
                    Work::Simple(SimpleWork { duration: 30, name: "Work".to_string() }),
                    Work::Simple(SimpleWork { duration: 20, name: "Jump".to_string() }),
                ]),
            },
        }],
        top: "all".to_string(),
    };
    assert_eq!(
        Model::compile_config(Ok(parsed)),
        Ok(vec![
            FlatStatus { name: "Work".to_string(), this_rep: 1, total_reps: 2, duration: Some(30) },
            FlatStatus { name: "rest".to_string(), this_rep: 1, total_reps: 1, duration: Some(15) },
            FlatStatus { name: "Jump".to_string(), this_rep: 2, total_reps: 2, duration: Some(20) },
        ])
    );
    assert_eq!(
        Model::compile_config(Err("no parse".to_string())),
        Err("no parse".to_string())
    );
}

#[test]
fn the_clock_rounds_the_seconds_left_up() {
    let mut m = running();
    m.time_fn(T0 + 1);
    assert_eq!(m.clock_seconds(), 30);
    m.time_fn(T0 + 1_000);
    assert_eq!(m.clock_seconds(), 29);
    m.time_fn(T0 + 29_001);
    assert_eq!(m.clock_seconds(), 1);
    let mut idle = Model::init("plan".to_string(), T0);
    assert_eq!(idle.clock_seconds(), 0);
    idle.leave_for_config();
    assert_eq!(idle.published().state, RunningState::Config);
}
