//! The login page: the room to join and its password.
use crate::subs::Event;
use vstd::prelude::*;
use vstd::string::*;

verus! {

/// What the login page holds.
#[derive(Clone, Debug, PartialEq, Eq)]
pub struct Model {
    pub room: String,
    pub password: String,
}

/// What a login [`Model`] stands for.
pub struct Login {
    pub room: Seq<char>,
    pub password: Seq<char>,
}

impl View for Model {
    type V = Login;

    open spec fn view(&self) -> Login {
        Login { room: self.room@, password: self.password@ }
    }
}

/// What the user does on the login page.
#[derive(Clone, Debug, PartialEq, Eq)]
pub enum Msg {
    RoomChanged(String),
    PasswordChanged(String),
    Connect,
}

/// The login page after `msg`.
pub open spec fn updated(login: Login, msg: Msg) -> Login {
    match msg {
        Msg::RoomChanged(r) => Login { room: r@, ..login },
        Msg::PasswordChanged(p) => Login { password: p@, ..login },
        Msg::Connect => login,
    }
}

/// What is announced after `msg`: the wish to connect, and nothing else.
pub open spec fn announced(msg: Msg) -> Seq<Event> {
    match msg {
        Msg::Connect => seq![Event::Connect],
        _ => Seq::<Event>::empty(),
    }
}

impl Model {
    /// The login page as it is first shown.
    pub fn init() -> (m: Model)
        ensures
            m@ == (Login { room: "ABCD"@, password: "1234"@ }),
    {
        Model { room: String::from_str("ABCD"), password: String::from_str("1234") }
    }
}

/// Applies `msg` to the login page, and returns what is to be announced.
pub fn update(msg: Msg, model: &mut Model) -> (events: Vec<Event>)
    ensures
        final(model)@ == updated(old(model)@, msg),
        events@ == announced(msg),
{
    let mut events: Vec<Event> = Vec::new();
    match msg {
        Msg::RoomChanged(r) => {
            model.room = r;
        },
        Msg::PasswordChanged(p) => {
            model.password = p;
        },
        Msg::Connect => {
            events.push(Event::Connect);
        },
    }
    assert(events@ =~= announced(msg));
    events
}

} // verus!
