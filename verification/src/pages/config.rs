//! The configuration page: the text of a plan, and what it compiles to.
use crate::pages::workout::{not_compiled_text, Effect};
use crate::routine::outcome;
use crate::subs::Event;
use crate::workout::{FlatStatus, Step};
use vstd::prelude::*;
use vstd::string::*;

verus! {

/// What the configuration page holds.
#[derive(Debug, PartialEq, Eq)]
pub struct Model {
    pub config: String,
    pub routine: Result<Vec<FlatStatus>, String>,
}

/// What a configuration [`Model`] stands for.
pub struct Configuration {
    pub config: Seq<char>,
    pub routine: Result<Seq<Step>, Seq<char>>,
}

impl View for Model {
    type V = Configuration;

    open spec fn view(&self) -> Configuration {
        Configuration { config: self.config@, routine: outcome(self.routine) }
    }
}

/// What the user does on the configuration page.
#[derive(Clone, Debug, PartialEq, Eq)]
pub enum Msg {
    ConfigChanged(String),
    Start,
    Disconnect,
}

/// The configuration page after `msg`: a new text waits for compilation.
pub open spec fn updated(page: Configuration, msg: Msg) -> Configuration {
    match msg {
        Msg::ConfigChanged(text) => Configuration {
            config: text@,
            routine: Err(not_compiled_text()),
        },
        _ => page,
    }
}

/// What the caller has to do after `msg`.
pub open spec fn effects_of(msg: Msg) -> Seq<Effect> {
    match msg {
        Msg::ConfigChanged(_) => seq![Effect::Compile],
        Msg::Start => seq![Effect::Notify(Event::StartWorkout)],
        Msg::Disconnect => seq![Effect::Notify(Event::Disconnect)],
    }
}

impl Model {
    /// The page with the given text, which is not compiled yet.
    pub fn init(config: String) -> (m: Model)
        ensures
            m@ == (Configuration { config: config@, routine: Err(not_compiled_text()) }),
    {
        Model { config, routine: Err(String::from_str("Not compiled yet")) }
    }

    /// Takes the result of compiling the text.
    pub fn set_routine(&mut self, routine: Result<Vec<FlatStatus>, String>)
        ensures
            final(self)@ == (Configuration { routine: outcome(routine), ..old(self)@ }),
    {
        self.routine = routine;
    }
}

/// Applies `msg` to the configuration page, and returns what the caller has
/// to do.
pub fn update(msg: Msg, model: &mut Model) -> (effects: Vec<Effect>)
    ensures
        final(model)@ == updated(old(model)@, msg),
        effects@ == effects_of(msg),
{
    let mut effects: Vec<Effect> = Vec::new();
    match msg {
        Msg::ConfigChanged(c) => {
            model.config = c;
            model.routine = Err(String::from_str("Not compiled yet"));
            effects.push(Effect::Compile);
        },
        Msg::Start => {
            effects.push(Effect::Notify(Event::StartWorkout));
        },
        Msg::Disconnect => {
            effects.push(Effect::Notify(Event::Disconnect));
        },
    }
    assert(effects@ =~= effects_of(msg));
    effects
}

} // verus!
