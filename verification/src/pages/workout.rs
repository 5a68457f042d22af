//! The workout session: which step is current, whether the clock runs, and
//! what happens when time passes, the user acts or a peer's state arrives.
//!
//! Elapsed time is never counted up. It is the distance between the wall
//! clock and an anchor kept in the state, so a late or irregular tick shows
//! the same time as a punctual one.
use crate::routine::{outcome, Routine};
use crate::subs::{Event, REST_PITCH, SHORT_TONE_MILLIS, STEP_TONE_MILLIS, WORK_PITCH};
use crate::workout::{is_rest_name, FlatStatus, Step};
use vstd::prelude::*;
use vstd::string::*;

verus! {

/// Whether the clock of the session runs.
#[derive(Clone, Copy, Debug, PartialEq, Eq, Structural)]
pub enum RunningState {
    /// The current step began at this wall-clock time, in milliseconds.
    RunningSince(i64),
    /// The clock stands, this many milliseconds into the current step.
    PausedAfter(i64),
    /// The plan is being edited; no step is current.
    Config,
}

/// The part of a session that peers share. It goes out whole after every
/// local change and replaces the local copy whole when a peer's arrives.
#[derive(Clone, Debug, PartialEq, Eq)]
pub struct PublishedModel {
    pub config: String,
    pub state: RunningState,
    pub routine_ix: usize,
}

/// What a [`PublishedModel`] stands for.
pub struct Published {
    pub config: Seq<char>,
    pub state: RunningState,
    pub routine_ix: usize,
}

impl View for PublishedModel {
    type V = Published;

    open spec fn view(&self) -> Published {
        Published { config: self.config@, state: self.state, routine_ix: self.routine_ix }
    }
}

/// What the user, or a peer, asks of the session.
#[derive(Clone, Debug)]
pub enum Msg {
    /// Go to the step at this index.
    ChangeItem(usize),
    /// Start, pause or resume the clock.
    Go,
    /// Go back to editing the plan.
    ToConfig,
    /// The text of the plan was edited.
    ConfigChanged(String),
    /// Leave the room.
    Disconnect,
    /// A peer published this state.
    ExternalUpdate(PublishedModel),
}

/// What the caller has to do after an update.
#[derive(Clone, Copy, Debug, PartialEq, Eq)]
pub enum Effect {
    /// Announce this event.
    Notify(Event),
    /// Compile the text of the plan anew and hand the result to
    /// [`Model::set_routine`].
    Compile,
}

/// The time left on a step below which every new second is announced.
pub const PRE_ALERT_MILLIS: i64 = 3000;

/// The step that stands for every position past the end of the plan, and
/// for every position while there is no plan. It is not timed, so the
/// session never leaves it by itself.
pub open spec fn end_step() -> Step {
    Step { name: "END"@, this_rep: 1, total_reps: 1, duration: None }
}

/// The message that stands in for the plan until the text is compiled.
pub open spec fn not_compiled_text() -> Seq<char> {
    "Not compiled yet"@
}

/// The quotient of `a` by a positive `b`, rounded toward zero.
pub open spec fn quotient_toward_zero(a: int, b: int) -> int {
    if a >= 0 {
        a / b
    } else {
        -((-a) / b)
    }
}

/// The nearest value to `x` that a signed 64-bit number can hold.
pub open spec fn clamp_i64(x: int) -> i64 {
    if x < i64::MIN {
        i64::MIN
    } else if x > i64::MAX {
        i64::MAX
    } else {
        x as i64
    }
}

/// A session as a mathematical value.
pub struct Session {
    pub config: Seq<char>,
    pub state: RunningState,
    pub routine_ix: usize,
    /// The compiled plan, or the message of the failed compilation.
    pub routine: Result<Seq<Step>, Seq<char>>,
    /// The wall-clock time of the latest tick, in milliseconds.
    pub last_update: i64,
}

impl Session {
    /// The part of the session that peers share.
    pub open spec fn published(self) -> Published {
        Published { config: self.config, state: self.state, routine_ix: self.routine_ix }
    }

    /// The session with the peers' part replaced.
    pub open spec fn with_published(self, p: Published) -> Session {
        Session { config: p.config, state: p.state, routine_ix: p.routine_ix, ..self }
    }

    /// Milliseconds into the current step: the distance from the anchor to
    /// the latest tick while running (none if the anchor lies ahead), the
    /// kept amount while paused.
    pub open spec fn elapsed_millis(self) -> int {
        match self.state {
            RunningState::RunningSince(start) => if self.last_update > start {
                self.last_update - start
            } else {
                0
            },
            RunningState::PausedAfter(p) => p as int,
            RunningState::Config => 0,
        }
    }

    /// The step at position `ix` of the plan; the end step past the plan's
    /// end and where there is no plan.
    pub open spec fn item_at(self, ix: int) -> Step {
        match self.routine {
            Ok(plan) => if 0 <= ix < plan.len() {
                plan[ix]
            } else {
                end_step()
            },
            Err(_) => end_step(),
        }
    }

    /// The current step; none while the plan is being edited.
    pub open spec fn current_item(self) -> Option<Step> {
        match self.state {
            RunningState::Config => None,
            _ => Some(self.item_at(self.routine_ix as int)),
        }
    }

    /// The tone that opens the step at position `ix`.
    pub open spec fn step_tone(self, ix: int) -> Event {
        Event::Beep {
            freq: if is_rest_name(self.item_at(ix).name) {
                REST_PITCH
            } else {
                WORK_PITCH
            },
            dur: STEP_TONE_MILLIS,
        }
    }

    /// Going to the step at `new_ix` at wall-clock time `now`. A running
    /// clock starts the step anew and sounds its tone, a paused one is set
    /// back to zero; the change is always to be published.
    pub open spec fn goto_item(self, new_ix: usize, now: i64) -> (Session, Seq<Event>) {
        let moved = Session { routine_ix: new_ix, ..self };
        match self.state {
            RunningState::RunningSince(_) => (
                Session { state: RunningState::RunningSince(now), ..moved },
                seq![Event::PublishedStateUpdated, moved.step_tone(new_ix as int)],
            ),
            RunningState::PausedAfter(_) => (
                Session { state: RunningState::PausedAfter(0), ..moved },
                seq![Event::PublishedStateUpdated],
            ),
            RunningState::Config => (moved, seq![Event::PublishedStateUpdated]),
        }
    }

    /// Milliseconds left on the current step when `elapsed` have passed;
    /// none where no timed step is current.
    pub open spec fn remaining_after(self, elapsed: int) -> Option<int> {
        match self.current_item() {
            Some(item) => match item.duration {
                Some(d) => Some(d * 1000 - elapsed),
                None => None,
            },
            None => None,
        }
    }

    /// Milliseconds left on the current step; none where no timed step is
    /// current.
    pub open spec fn remaining_millis(self) -> Option<int> {
        self.remaining_after(self.elapsed_millis())
    }

    /// The session after a tick at wall-clock time `now`, before any step
    /// is left.
    pub open spec fn ticked(self, now: i64) -> Session {
        Session { last_update: now, ..self }
    }

    /// Whether a tick at `now` leaves the current step: it is timed and no
    /// time is left on it.
    pub open spec fn tick_advances(self, now: i64) -> bool {
        self.ticked(now).remaining_millis() matches Some(left) && left <= 0
    }

    /// Whether a tick at `now` announces a new second of the countdown:
    /// under three seconds are left, and the whole seconds left differ
    /// from those at the tick before.
    pub open spec fn tick_alerts(self, now: i64) -> bool {
        &&& self.ticked(now).remaining_millis() matches Some(left)
        &&& 0 < left < PRE_ALERT_MILLIS
        &&& self.ticked(now).remaining_after(self.elapsed_millis()) matches Some(before)
        &&& quotient_toward_zero(before, 1000) != left / 1000
    }

    /// A tick at wall-clock time `now`.
    pub open spec fn time_fn(self, now: i64) -> (Session, Seq<Event>) {
        let s = self.ticked(now);
        if self.tick_advances(now) {
            let next = (s.routine_ix + 1) as usize;
            let (t, events) = s.goto_item(next, now);
            (t, seq![Event::StepAdvanced(next)] + events)
        } else if self.tick_alerts(now) {
            (s, seq![Event::Beep { freq: REST_PITCH, dur: SHORT_TONE_MILLIS }])
        } else {
            (s, Seq::<Event>::empty())
        }
    }

    /// Starting, pausing or resuming at wall-clock time `now`. Pausing
    /// keeps the distance from the anchor to `now`; resuming puts the
    /// anchor that far behind `now`; starting needs a compiled plan and
    /// begins at its first step.
    pub open spec fn toggled(self, now: i64) -> Session {
        match self.state {
            RunningState::RunningSince(start) => Session {
                state: RunningState::PausedAfter(clamp_i64(now - start)),
                ..self
            },
            RunningState::PausedAfter(done) => Session {
                state: RunningState::RunningSince(clamp_i64(now - done)),
                ..self
            },
            RunningState::Config => if self.routine is Ok {
                Session { routine_ix: 0, state: RunningState::RunningSince(now), ..self }
            } else {
                self
            },
        }
    }

    /// The session with a peer's state in place of its own. The plan is
    /// kept where the text is the same and waits for compilation where it
    /// is not.
    pub open spec fn with_external(self, p: Published) -> Session {
        if self.config == p.config {
            self.with_published(p)
        } else {
            Session { routine: Err(not_compiled_text()), ..self.with_published(p) }
        }
    }

    /// The session with a new text of the plan, which waits for
    /// compilation.
    pub open spec fn with_config(self, text: Seq<char>) -> Session {
        Session { config: text, routine: Err(not_compiled_text()), ..self }
    }

    /// What the caller has to do after a peer's state replaced the local
    /// one: compile, if and only if the text of the plan differs.
    pub open spec fn external_effects(self, p: Published) -> Seq<Effect> {
        if self.config == p.config {
            Seq::<Effect>::empty()
        } else {
            seq![Effect::Compile]
        }
    }

    /// The seconds to show on the clock: those left on a timed step,
    /// rounded up, and those passed on a step that is not timed.
    pub open spec fn clock_seconds(self) -> int {
        match self.remaining_millis() {
            Some(left) => quotient_toward_zero(left + 999, 1000),
            None => quotient_toward_zero(self.elapsed_millis(), 1000),
        }
    }
}

/// Each event as something to announce.
pub open spec fn notify_all(events: Seq<Event>) -> Seq<Effect> {
    events.map_values(|e: Event| Effect::Notify(e))
}

/// The session after `msg` at wall-clock time `now`.
pub open spec fn updated(s: Session, msg: Msg, now: i64) -> Session {
    match msg {
        Msg::Go => s.toggled(now),
        Msg::ChangeItem(ix) => s.goto_item(ix, now).0,
        Msg::ToConfig => Session { state: RunningState::Config, ..s },
        Msg::ConfigChanged(text) => s.with_config(text@),
        Msg::Disconnect => s,
        Msg::ExternalUpdate(p) => s.with_external(p@),
    }
}

/// What the caller has to do after `msg` at wall-clock time `now`.
pub open spec fn update_effects(s: Session, msg: Msg, now: i64) -> Seq<Effect> {
    match msg {
        Msg::Go => seq![
            Effect::Notify(Event::Beep { freq: WORK_PITCH, dur: SHORT_TONE_MILLIS }),
            Effect::Notify(Event::PublishedStateUpdated),
        ],
        Msg::ChangeItem(ix) => notify_all(s.goto_item(ix, now).1),
        Msg::ToConfig => seq![Effect::Notify(Event::PublishedStateUpdated)],
        Msg::ConfigChanged(_) => seq![
            Effect::Compile,
            Effect::Notify(Event::PublishedStateUpdated),
        ],
        Msg::Disconnect => seq![Effect::Notify(Event::Disconnect)],
        Msg::ExternalUpdate(p) => s.external_effects(p@),
    }
}

impl PublishedModel {
    /// The state of a fresh session: the given text of the plan, which is
    /// being edited, and the first step.
    pub fn init(config: String) -> (p: PublishedModel)
        ensures
            p@ == (Published { config: config@, state: RunningState::Config, routine_ix: 0 }),
    {
        PublishedModel { config, state: RunningState::Config, routine_ix: 0 }
    }

    /// A copy of this state.
    pub fn duplicate(&self) -> (p: PublishedModel)
        ensures
            p@ == self@,
    {
        PublishedModel {
            config: self.config.clone(),
            state: self.state,
            routine_ix: self.routine_ix,
        }
    }
}

/// A workout session.
pub struct Model {
    published: PublishedModel,
    routine: Result<Vec<FlatStatus>, String>,
    last_update: i64,
    end: FlatStatus,
}

impl View for Model {
    type V = Session;

    closed spec fn view(&self) -> Session {
        Session {
            config: self.published.config@,
            state: self.published.state,
            routine_ix: self.published.routine_ix,
            routine: outcome(self.routine),
            last_update: self.last_update,
        }
    }
}

impl Model {
    #[verifier::type_invariant]
    spec fn holds_end_step(self) -> bool {
        self.end@ == end_step()
    }

    /// A fresh session at wall-clock time `now`: the given text of the
    /// plan, which is being edited and not compiled yet.
    pub fn init(config: String, now: i64) -> (m: Model)
        ensures
            m@ == (Session {
                config: config@,
                state: RunningState::Config,
                routine_ix: 0,
                routine: Err(not_compiled_text()),
                last_update: now,
            }),
    {
        Model {
            published: PublishedModel::init(config),
            routine: Err(String::from_str("Not compiled yet")),
            last_update: now,
            end: FlatStatus {
                name: String::from_str("END"),
                this_rep: 1,
                total_reps: 1,
                duration: None,
            },
        }
    }

    /// Turns a parsed plan into the list of its steps; a plan that did not
    /// parse keeps its message.
    pub fn compile_config(parsed: Result<Routine, String>) -> (out: Result<
        Vec<FlatStatus>,
        String,
    >)
        ensures
            outcome(out) == match parsed {
                Ok(r) => crate::routine::flatten(r.definitions@, r.top@, r.definitions@.len()),
                Err(e) => Err(e@),
            },
    {
        match parsed {
            Ok(r) => r.to_full_workout(),
            Err(e) => Err(e),
        }
    }

    /// Takes the result of compiling the text of the plan.
    pub fn set_routine(&mut self, routine: Result<Vec<FlatStatus>, String>)
        ensures
            final(self)@ == (Session { routine: outcome(routine), ..old(self)@ }),
    {
        proof {
            use_type_invariant(&*self);
        }
        self.routine = routine;
    }

    /// The part of the session that peers share.
    pub fn published(&self) -> (p: &PublishedModel)
        ensures
            p@ == self@.published(),
    {
        &self.published
    }

    /// The compiled plan, or the message of the failed compilation.
    pub fn routine(&self) -> (r: &Result<Vec<FlatStatus>, String>)
        ensures
            outcome(*r) == self@.routine,
    {
        &self.routine
    }

    /// The wall-clock time of the latest tick.
    pub fn last_update(&self) -> (t: i64)
        ensures
            t == self@.last_update,
    {
        self.last_update
    }

    /// Milliseconds into the current step.
    pub fn elapsed_millis(&self) -> (elapsed: i128)
        ensures
            elapsed == self@.elapsed_millis(),
    {
        match self.published.state {
            RunningState::RunningSince(start) => if self.last_update > start {
                self.last_update as i128 - start as i128
            } else {
                0
            },
            RunningState::PausedAfter(p) => p as i128,
            RunningState::Config => 0,
        }
    }

    /// The step at position `ix` of the plan; the end step past the plan's
    /// end and where there is no plan.
    pub fn get_routine_item(&self, ix: usize) -> (item: &FlatStatus)
        ensures
            item@ == self@.item_at(ix as int),
    {
        proof {
            use_type_invariant(self);
        }
        match &self.routine {
            Ok(plan) => if ix < plan.len() {
                &plan[ix]
            } else {
                &self.end
            },
            Err(_) => &self.end,
        }
    }

    /// The current step; none while the plan is being edited.
    pub fn current_routine_item(&self) -> (item: Option<&FlatStatus>)
        ensures
            item is Some == self@.current_item() is Some,
            item matches Some(i) ==> self@.current_item() == Some(i@),
    {
        match self.published.state {
            RunningState::Config => None,
            _ => Some(self.get_routine_item(self.published.routine_ix)),
        }
    }

    /// Goes to the step at `new_ix` at wall-clock time `now`, and returns
    /// what is to be announced.
    pub fn goto_item(&mut self, new_ix: usize, now: i64) -> (events: Vec<Event>)
        ensures
            (final(self)@, events@) == old(self)@.goto_item(new_ix, now),
    {
        proof {
            use_type_invariant(&*self);
        }
        self.published.routine_ix = new_ix;
        let mut events: Vec<Event> = Vec::new();
        events.push(Event::PublishedStateUpdated);
        match self.published.state {
            RunningState::RunningSince(_) => {
                self.published.state = RunningState::RunningSince(now);
                let freq: u32 = if self.get_routine_item(new_ix).is_rest() {
                    REST_PITCH
                } else {
                    WORK_PITCH
                };
                events.push(Event::Beep { freq, dur: STEP_TONE_MILLIS });
            },
            RunningState::PausedAfter(_) => {
                self.published.state = RunningState::PausedAfter(0);
            },
            RunningState::Config => {},
        }
        assert(events@ =~= old(self)@.goto_item(new_ix, now).1);
        events
    }

    /// A tick at wall-clock time `now`: leaves a timed step on which no
    /// time is left, or announces a new second of the last three, and
    /// returns what is to be announced.
    pub fn time_fn(&mut self, now: i64) -> (events: Vec<Event>)
        ensures
            (final(self)@, events@) == old(self)@.time_fn(now),
    {
        proof {
            use_type_invariant(&*self);
        }
        let old_elapsed: i128 = self.elapsed_millis();
        self.last_update = now;
        let duration = match self.current_routine_item() {
            Some(item) => item.duration,
            None => None,
        };
        if let Some(d) = duration {
            let total: i128 = d as i128 * 1000;
            let remaining: i128 = total - self.elapsed_millis();
            if remaining <= 0 {
                let steps_in_plan: usize = match &self.routine {
                    Ok(plan) => plan.len(),
                    Err(_) => 0,
                };
                assert(self.published.routine_ix < steps_in_plan);
                let next: usize = self.published.routine_ix + 1;
                let mut events: Vec<Event> = Vec::new();
                events.push(Event::StepAdvanced(next));
                let mut more = self.goto_item(next, now);
                events.append(&mut more);
                assert(events@ =~= old(self)@.time_fn(now).1);
                return events;
            } else if remaining < PRE_ALERT_MILLIS as i128 {
                let whole_now: i128 = remaining / 1000;
                let whole_before: i128 = (total - old_elapsed) / 1000;
                if whole_before != whole_now {
                    let mut events: Vec<Event> = Vec::new();
                    events.push(Event::Beep { freq: REST_PITCH, dur: SHORT_TONE_MILLIS });
                    assert(events@ =~= old(self)@.time_fn(now).1);
                    return events;
                }
            }
        }
        let events: Vec<Event> = Vec::new();
        assert(events@ =~= old(self)@.time_fn(now).1);
        events
    }

    /// The seconds to show on the clock.
    pub fn clock_seconds(&self) -> (secs: i128)
        ensures
            secs == self@.clock_seconds(),
    {
        let duration = match self.current_routine_item() {
            Some(item) => item.duration,
            None => None,
        };
        match duration {
            Some(d) => (d as i128 * 1000 - self.elapsed_millis() + 999) / 1000,
            None => self.elapsed_millis() / 1000,
        }
    }
}

/// The nearest value to `x` that a signed 64-bit number can hold.
fn clamp(x: i128) -> (y: i64)
    ensures
        y == clamp_i64(x as int),
{
    if x < i64::MIN as i128 {
        i64::MIN
    } else if x > i64::MAX as i128 {
        i64::MAX
    } else {
        x as i64
    }
}

impl Model {
    /// Starts, pauses or resumes the clock at wall-clock time `now`.
    pub fn toggle(&mut self, now: i64)
        ensures
            final(self)@ == old(self)@.toggled(now),
    {
        proof {
            use_type_invariant(&*self);
        }
        match self.published.state {
            RunningState::RunningSince(start) => {
                self.published.state = RunningState::PausedAfter(
                    clamp(now as i128 - start as i128),
                );
            },
            RunningState::PausedAfter(done) => {
                self.published.state = RunningState::RunningSince(
                    clamp(now as i128 - done as i128),
                );
            },
            RunningState::Config => {
                if self.routine.is_ok() {
                    self.published.routine_ix = 0;
                    self.published.state = RunningState::RunningSince(now);
                }
            },
        }
    }

    /// Replaces the shared part of the session with a peer's, and returns
    /// what the caller has to do: compile, if and only if the text of the
    /// plan differs from the one held so far.
    pub fn apply_external(&mut self, remote: PublishedModel) -> (effects: Vec<Effect>)
        ensures
            final(self)@ == old(self)@.with_external(remote@),
            effects@ == old(self)@.external_effects(remote@),
    {
        proof {
            use_type_invariant(&*self);
        }
        let mut effects: Vec<Effect> = Vec::new();
        if self.published.config == remote.config {
            self.published = remote;
        } else {
            self.published = remote;
            self.routine = Err(String::from_str("Not compiled yet"));
            effects.push(Effect::Compile);
        }
        assert(effects@ =~= old(self)@.external_effects(remote@));
        effects
    }

    /// Takes a new text of the plan. The caller has to compile it and to
    /// publish the change, whether or not the text compiles.
    pub fn apply_local_config_change(&mut self, text: String) -> (effects: Vec<Effect>)
        ensures
            final(self)@ == old(self)@.with_config(text@),
            effects@ == seq![Effect::Compile, Effect::Notify(Event::PublishedStateUpdated)],
    {
        proof {
            use_type_invariant(&*self);
        }
        self.published.config = text;
        self.routine = Err(String::from_str("Not compiled yet"));
        let mut effects: Vec<Effect> = Vec::new();
        effects.push(Effect::Compile);
        effects.push(Effect::Notify(Event::PublishedStateUpdated));
        assert(effects@ =~= seq![Effect::Compile, Effect::Notify(Event::PublishedStateUpdated)]);
        effects
    }
}

/// Wraps each event as something to announce.
fn announce(events: Vec<Event>) -> (effects: Vec<Effect>)
    ensures
        effects@ == notify_all(events@),
{
    let mut effects: Vec<Effect> = Vec::new();
    let mut i: usize = 0;
    while i < events.len()
        invariant
            i <= events@.len(),
            effects@ == notify_all(events@.take(i as int)),
        decreases events@.len() - i,
    {
        effects.push(Effect::Notify(events[i]));
        assert(events@.take(i + 1) =~= events@.take(i as int).push(events@[i as int]));
        assert(effects@ =~= notify_all(events@.take(i + 1)));
        i += 1;
    }
    assert(events@.take(i as int) =~= events@);
    effects
}

/// Applies `msg` to the session at wall-clock time `now`, and returns what
/// the caller has to do.
pub fn update(msg: Msg, model: &mut Model, now: i64) -> (effects: Vec<Effect>)
    ensures
        final(model)@ == updated(old(model)@, msg, now),
        effects@ == update_effects(old(model)@, msg, now),
{
    match msg {
        Msg::Go => {
            model.toggle(now);
            let mut effects: Vec<Effect> = Vec::new();
            effects.push(Effect::Notify(Event::Beep { freq: WORK_PITCH, dur: SHORT_TONE_MILLIS }));
            effects.push(Effect::Notify(Event::PublishedStateUpdated));
            assert(effects@ =~= update_effects(old(model)@, msg, now));
            effects
        },
        Msg::ChangeItem(new_ix) => announce(model.goto_item(new_ix, now)),
        Msg::ToConfig => {
            model.leave_for_config();
            let mut effects: Vec<Effect> = Vec::new();
            effects.push(Effect::Notify(Event::PublishedStateUpdated));
            assert(effects@ =~= update_effects(old(model)@, msg, now));
            effects
        },
        Msg::ConfigChanged(text) => model.apply_local_config_change(text),
        Msg::Disconnect => {
            let mut effects: Vec<Effect> = Vec::new();
            effects.push(Effect::Notify(Event::Disconnect));
            assert(effects@ =~= update_effects(old(model)@, msg, now));
            effects
        },
        Msg::ExternalUpdate(remote) => model.apply_external(remote),
    }
}

impl Model {
    /// Stops the session and goes back to editing the plan.
    pub fn leave_for_config(&mut self)
        ensures
            final(self)@ == (Session { state: RunningState::Config, ..old(self)@ }),
    {
        proof {
            use_type_invariant(&*self);
        }
        self.published.state = RunningState::Config;
    }
}

impl Session {
    /// A session is well formed when its plan is short enough to be held
    /// in memory, as every plan of a [`Model`] is.
    pub open spec fn well_formed(self) -> bool {
        self.routine matches Ok(plan) ==> plan.len() <= usize::MAX
    }

    /// No event of `events` says that a step was left.
    pub open spec fn none_advances(events: Seq<Event>) -> bool {
        forall|i: int| 0 <= i < events.len() ==> !(#[trigger] events[i] is StepAdvanced)
    }
}

impl Model {
    /// The session that a model stands for is well formed.
    pub proof fn lemma_view_well_formed(&self)
        ensures
            self@.well_formed(),
    {
        match self.routine {
            Ok(plan) => {
                assert(plan@.len() == plan.len());
            },
            Err(_) => {},
        }
    }
}

/// While the clock runs on one step, the time that a tick shows is the
/// distance from the anchor to that tick and nothing else: the ticks that
/// came before leave no trace, and a later tick never shows less.
pub proof fn lemma_elapsed_follows_clock(s: Session, anchor: i64, t1: i64, t2: i64)
    requires
        s.state == RunningState::RunningSince(anchor),
        t1 <= t2,
        !s.tick_advances(t1),
        !s.tick_advances(t2),
    ensures
        s.time_fn(t2).0.elapsed_millis() == if t2 > anchor {
            t2 - anchor
        } else {
            0
        },
        s.time_fn(t1).0.time_fn(t2).0 == s.time_fn(t2).0,
        s.time_fn(t1).0.elapsed_millis() <= s.time_fn(t1).0.time_fn(t2).0.elapsed_millis(),
{
    let s1 = s.time_fn(t1).0;
    assert(s1 == s.ticked(t1));
    assert(s1.ticked(t2) == s.ticked(t2));
    assert(s1.tick_advances(t2) == s.tick_advances(t2));
}

/// A tick that finds no time left on a running step leaves it once: it
/// announces the next step a single time and restarts the clock at the
/// tick, so that no later tick leaves the new step before its own time is
/// up.
pub proof fn lemma_advance_fires_once(s: Session, t1: i64, t2: i64)
    requires
        s.well_formed(),
        s.state is RunningSince,
        s.tick_advances(t1),
        t1 <= t2,
        s.item_at(s.routine_ix + 1).duration matches Some(d) ==> t2 - t1 < d * 1000,
    ensures
        s.time_fn(t1).0.routine_ix == s.routine_ix + 1,
        s.time_fn(t1).0.state == RunningState::RunningSince(t1),
        s.time_fn(t1).1 == seq![
            Event::StepAdvanced((s.routine_ix + 1) as usize),
            Event::PublishedStateUpdated,
            s.step_tone(s.routine_ix + 1),
        ],
        !s.time_fn(t1).0.tick_advances(t2),
        s.time_fn(t1).0.time_fn(t2).0.routine_ix == s.routine_ix + 1,
        Session::none_advances(s.time_fn(t1).0.time_fn(t2).1),
{
    let next = (s.routine_ix + 1) as usize;
    let moved = Session { routine_ix: next, ..s.ticked(t1) };
    assert(moved.step_tone(next as int) == s.step_tone(s.routine_ix + 1));
    assert(s.time_fn(t1).1 =~= seq![
        Event::StepAdvanced(next),
        Event::PublishedStateUpdated,
        s.step_tone(s.routine_ix + 1),
    ]);
    let s1 = s.time_fn(t1).0;
    assert(s1.item_at(s1.routine_ix as int) == s.item_at(s.routine_ix + 1));
}

/// The countdown announces a second once. Of two ticks on the same
/// running step with under three seconds left at the second, the second
/// announces a tone if and only if the whole seconds left have changed
/// since the first.
pub proof fn lemma_alert_once_per_second(s: Session, t1: i64, t2: i64)
    requires
        s.state is RunningSince,
        !s.tick_advances(t1),
        !s.tick_advances(t2),
        s.ticked(t2).remaining_millis() matches Some(left) && left < PRE_ALERT_MILLIS,
    ensures
        s.time_fn(t1).0.time_fn(t2).1 == if quotient_toward_zero(
            s.ticked(t1).remaining_millis()->0,
            1000,
        ) != s.ticked(t2).remaining_millis()->0 / 1000 {
            seq![Event::Beep { freq: REST_PITCH, dur: SHORT_TONE_MILLIS }]
        } else {
            Seq::<Event>::empty()
        },
{
    let s1 = s.time_fn(t1).0;
    assert(s1 == s.ticked(t1));
    assert(s1.ticked(t2) == s.ticked(t2));
    assert(s1.tick_advances(t2) == s.tick_advances(t2));
}

/// Pausing and resuming keeps the time into the step: after a pause at
/// `t1` and a resume at `t2`, a tick at `t2` shows what a tick at `t1`
/// would have shown before the pause.
pub proof fn lemma_pause_keeps_elapsed(s: Session, anchor: i64, t1: i64, t2: i64)
    requires
        s.state == RunningState::RunningSince(anchor),
        anchor <= t1 <= t2,
        t1 - anchor <= i64::MAX,
    ensures
        s.toggled(t1).state == RunningState::PausedAfter((t1 - anchor) as i64),
        s.toggled(t1).toggled(t2).ticked(t2).elapsed_millis() == s.ticked(t1).elapsed_millis(),
{
}

/// A peer's state with the same text of the plan keeps the compiled plan
/// and asks for no compilation; one with another text always asks for it.
pub proof fn lemma_external_compiles_iff_text_differs(s: Session, p: Published)
    ensures
        s.config == p.config ==> s.external_effects(p).len() == 0 && s.with_external(p).routine
            == s.routine,
        s.config != p.config ==> s.external_effects(p) == seq![Effect::Compile],
        s.with_external(p).published() == p,
{
}

/// The clock starts only on a compiled plan: no tick and no message of
/// the user takes a session out of the editing of its plan unless the
/// plan is compiled. (A peer's state is taken as it comes.)
pub proof fn lemma_clock_starts_on_a_plan(s: Session, msg: Msg, now: i64)
    requires
        s.state is Config,
        !(msg is ExternalUpdate),
    ensures
        s.time_fn(now).0.state is Config,
        !(updated(s, msg, now).state is Config) ==> s.routine is Ok && msg is Go && updated(
            s,
            msg,
            now,
        ).routine_ix == 0,
{
}

} // verus!
