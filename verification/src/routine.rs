//! Workout routines: named sets of work that may refer to one another, and
//! their flattening into the list of steps that a session walks over.
use crate::workout::{FlatStatus, Step, steps};
use vstd::prelude::*;
use vstd::string::*;

verus! {

/// A single exercise with its duration in seconds.
#[derive(Debug, Clone)]
pub struct SimpleWork {
    pub duration: u32,
    pub name: String,
}

/// One entry of a set: an exercise, or another set by its name.
#[derive(Debug, Clone)]
pub enum Work {
    Simple(SimpleWork),
    Ref(String),
}

/// One entry, done `repeats` times.
#[derive(Debug)]
pub struct SetRepeat {
    pub repeats: usize,
    pub work: Work,
}

/// The work of a set: a list of entries, or one entry repeated.
#[derive(Debug)]
pub enum WorkSet {
    List(Vec<Work>),
    Repeat(SetRepeat),
}

/// A set together with the rest, in seconds, between two of its entries.
#[derive(Debug)]
pub struct SetWithRests {
    pub rest: u32,
    pub work: WorkSet,
}

/// A set under the name by which other sets refer to it.
#[derive(Debug)]
pub struct Definition {
    pub name: String,
    pub body: SetWithRests,
}

/// A routine: its named sets, and the name of the set to start from. Where
/// a name is defined more than once, the first definition counts.
#[derive(Debug)]
pub struct Routine {
    pub definitions: Vec<Definition>,
    pub top: String,
}

/// The position of the first definition of `name` at or after `from`.
pub open spec fn lookup_from(defs: Seq<Definition>, name: Seq<char>, from: int) -> Option<int>
    decreases defs.len() - from,
{
    if from < 0 || from >= defs.len() {
        None
    } else if defs[from].name@ == name {
        Some(from)
    } else {
        lookup_from(defs, name, from + 1)
    }
}

/// The position of the first definition of `name`.
pub open spec fn lookup(defs: Seq<Definition>, name: Seq<char>) -> Option<int> {
    lookup_from(defs, name, 0)
}

/// How many entries a set has, a repeated entry counted once for each
/// repetition.
pub open spec fn entry_count(work: WorkSet) -> nat {
    match work {
        WorkSet::List(list) => list@.len(),
        WorkSet::Repeat(r) => r.repeats as nat,
    }
}

/// The entry at position `i` of a set.
pub open spec fn entry_at(work: WorkSet, i: int) -> Work {
    match work {
        WorkSet::List(list) => list@[i],
        WorkSet::Repeat(r) => r.work,
    }
}

/// The rest that stands between two entries of a set.
pub open spec fn rest_step(rest: u32) -> Step {
    Step { name: "rest"@, this_rep: 1, total_reps: 1, duration: Some(rest) }
}

/// The message for a name that no definition carries.
pub open spec fn unknown_item_text(name: Seq<char>) -> Seq<char> {
    "Unknown workout item: "@ + name
}

/// The message for a set with more entries than a step can count.
pub open spec fn too_many_text(name: Seq<char>) -> Seq<char> {
    "Too many entries in workout item: "@ + name
}

/// The message for a reference that is nested deeper than there are
/// definitions, which only a set that contains itself can be.
pub open spec fn too_deep_text(name: Seq<char>) -> Seq<char> {
    "Workout item refers back to itself: "@ + name
}

/// The steps of the first `n` entries of `body`, with `fuel` levels of
/// reference left below this set.
pub open spec fn flatten_entries(defs: Seq<Definition>, body: SetWithRests, n: nat, fuel: nat)
    -> Result<Seq<Step>, Seq<char>>
    decreases fuel, 1nat, n,
{
    if n == 0 {
        Ok(Seq::<Step>::empty())
    } else {
        match flatten_entries(defs, body, (n - 1) as nat, fuel) {
            Err(e) => Err(e),
            Ok(before) => {
                let rested = if n - 1 > 0 {
                    before.push(rest_step(body.rest))
                } else {
                    before
                };
                match entry_at(body.work, n - 1) {
                    Work::Simple(w) => Ok(
                        rested.push(
                            Step {
                                name: w.name@,
                                this_rep: n as u32,
                                total_reps: entry_count(body.work) as u32,
                                duration: Some(w.duration),
                            },
                        ),
                    ),
                    Work::Ref(r) => if fuel == 0 {
                        Err(too_deep_text(r@))
                    } else {
                        match flatten(defs, r@, (fuel - 1) as nat) {
                            Err(e) => Err(e),
                            Ok(inner) => Ok(rested + inner),
                        }
                    },
                }
            },
        }
    }
}

/// The steps of the set called `name`, or the message of the first entry
/// that cannot be flattened. `fuel` bounds how deep references may nest.
pub open spec fn flatten(defs: Seq<Definition>, name: Seq<char>, fuel: nat) -> Result<
    Seq<Step>,
    Seq<char>,
>
    decreases fuel, 2nat, 0nat,
{
    match lookup(defs, name) {
        None => Err(unknown_item_text(name)),
        Some(i) => {
            let body = defs[i].body;
            if entry_count(body.work) > u32::MAX {
                Err(too_many_text(name))
            } else {
                flatten_entries(defs, body, entry_count(body.work), fuel)
            }
        },
    }
}

/// What a flattening returned, as steps or as the characters of a message.
pub open spec fn outcome(r: Result<Vec<FlatStatus>, String>) -> Result<Seq<Step>, Seq<char>> {
    match r {
        Ok(list) => Ok(steps(list@)),
        Err(e) => Err(e@),
    }
}

/// Once an entry fails, the failure is the answer for every longer prefix
/// of the set.
pub proof fn lemma_failure_stays(
    defs: Seq<Definition>,
    body: SetWithRests,
    n: nat,
    m: nat,
    fuel: nat,
)
    requires
        n <= m,
        flatten_entries(defs, body, n, fuel) is Err,
    ensures
        flatten_entries(defs, body, m, fuel) == flatten_entries(defs, body, n, fuel),
    decreases m,
{
    if n < m {
        lemma_failure_stays(defs, body, n, (m - 1) as nat, fuel);
    }
}

impl Routine {
    /// The position of the first definition called `name`.
    fn find(&self, name: &str) -> (at: Option<usize>)
        ensures
            at matches Some(i) ==> i < self.definitions@.len() && lookup(
                self.definitions@,
                name@,
            ) == Some(i as int),
            at is None ==> lookup(self.definitions@, name@) is None,
    {
        let key = name.to_owned();
        let mut i: usize = 0;
        while i < self.definitions.len()
            invariant
                i <= self.definitions@.len(),
                key@ == name@,
                lookup(self.definitions@, name@) == lookup_from(self.definitions@, name@, i as int),
            decreases self.definitions@.len() - i,
        {
            if self.definitions[i].name == key {
                return Some(i);
            }
            i += 1;
        }
        None
    }

    /// Flattens the set called `top`, with `fuel` levels of reference
    /// allowed below it.
    fn flatten_with(&self, top: &str, fuel: usize) -> (out: Result<Vec<FlatStatus>, String>)
        ensures
            outcome(out) == flatten(self.definitions@, top@, fuel as nat),
        decreases fuel,
    {
        let at = match self.find(top) {
            Some(i) => i,
            None => {
                return Err(String::from_str("Unknown workout item: ").concat(top));
            },
        };
        let body = &self.definitions[at].body;
        let count: usize = match &body.work {
            WorkSet::List(list) => list.len(),
            WorkSet::Repeat(r) => r.repeats,
        };
        if count > u32::MAX as usize {
            return Err(String::from_str("Too many entries in workout item: ").concat(top));
        }
        let ghost defs = self.definitions@;
        let mut ans: Vec<FlatStatus> = Vec::new();
        let mut ix: usize = 0;
        assert(steps(ans@) =~= Seq::<Step>::empty());
        while ix < count
            invariant
                ix <= count,
                count == entry_count(body.work),
                count <= u32::MAX,
                defs == self.definitions@,
                flatten(defs, top@, fuel as nat) == flatten_entries(
                    defs,
                    *body,
                    count as nat,
                    fuel as nat,
                ),
                flatten_entries(defs, *body, ix as nat, fuel as nat) == Ok::<
                    Seq<Step>,
                    Seq<char>,
                >(steps(ans@)),
            decreases count - ix,
        {
            let ghost before = steps(ans@);
            if ix > 0 {
                ans.push(
                    FlatStatus {
                        name: String::from_str("rest"),
                        duration: Some(body.rest),
                        this_rep: 1,
                        total_reps: 1,
                    },
                );
                assert(steps(ans@) =~= before.push(rest_step(body.rest)));
            }
            let ghost rested = steps(ans@);
            let w: &Work = match &body.work {
                WorkSet::List(list) => &list[ix],
                WorkSet::Repeat(r) => &r.work,
            };
            assert(*w == entry_at(body.work, ix as int));
            match w {
                Work::Simple(sw) => {
                    ans.push(
                        FlatStatus {
                            name: sw.name.clone(),
                            duration: Some(sw.duration),
                            this_rep: (ix as u32) + 1,
                            total_reps: count as u32,
                        },
                    );
                    assert(steps(ans@) =~= rested.push(
                        Step {
                            name: sw.name@,
                            this_rep: (ix + 1) as u32,
                            total_reps: count as u32,
                            duration: Some(sw.duration),
                        },
                    ));
                },
                Work::Ref(n) => {
                    if fuel == 0 {
                        let e = String::from_str("Workout item refers back to itself: ").concat(
                            n.as_str(),
                        );
                        proof {
                            assert(flatten_entries(defs, *body, (ix + 1) as nat, fuel as nat)
                                == Err::<Seq<Step>, Seq<char>>(e@));
                            lemma_failure_stays(
                                defs,
                                *body,
                                (ix + 1) as nat,
                                count as nat,
                                fuel as nat,
                            );
                        }
                        return Err(e);
                    }
                    match self.flatten_with(n.as_str(), fuel - 1) {
                        Err(e) => {
                            proof {
                                assert(flatten_entries(
                                    defs,
                                    *body,
                                    (ix + 1) as nat,
                                    fuel as nat,
                                ) == Err::<Seq<Step>, Seq<char>>(e@));
                                lemma_failure_stays(
                                    defs,
                                    *body,
                                    (ix + 1) as nat,
                                    count as nat,
                                    fuel as nat,
                                );
                            }
                            return Err(e);
                        },
                        Ok(mut inner) => {
                            let ghost sub = steps(inner@);
                            ans.append(&mut inner);
                            assert(steps(ans@) =~= rested + sub);
                        },
                    }
                },
            }
            ix += 1;
        }
        Ok(ans)
    }

    /// Flattens the set called `top` into its steps. The entries of a set
    /// come in order, a rest between each two; a reference stands for the
    /// steps of the set it names. A name without a definition, a set with
    /// more than `u32::MAX` entries, and a chain of references longer than
    /// the number of definitions each end the flattening with a message.
    pub fn to_workout(&self, top: &str) -> (out: Result<Vec<FlatStatus>, String>)
        ensures
            outcome(out) == flatten(self.definitions@, top@, self.definitions@.len()),
    {
        self.flatten_with(top, self.definitions.len())
    }

    /// Flattens the routine from its top set.
    pub fn to_full_workout(&self) -> (out: Result<Vec<FlatStatus>, String>)
        ensures
            outcome(out) == flatten(self.definitions@, self.top@, self.definitions@.len()),
    {
        self.to_workout(self.top.as_str())
    }
}

/// The entries of a set that can be flattened come out the same with
/// more levels of reference allowed.
pub proof fn lemma_entries_need_no_more_fuel(
    defs: Seq<Definition>,
    body: SetWithRests,
    n: nat,
    fuel: nat,
    more: nat,
)
    requires
        fuel <= more,
        flatten_entries(defs, body, n, fuel) is Ok,
    ensures
        flatten_entries(defs, body, n, more) == flatten_entries(defs, body, n, fuel),
    decreases fuel, 1nat, n,
{
    if n > 0 {
        lemma_entries_need_no_more_fuel(defs, body, (n - 1) as nat, fuel, more);
        match entry_at(body.work, n - 1) {
            Work::Simple(_) => {},
            Work::Ref(r) => {
                lemma_needs_no_more_fuel(defs, r@, (fuel - 1) as nat, (more - 1) as nat);
            },
        }
    }
}

/// The bound on the depth of references decides only whether a set can be
/// flattened at all: a set that can be flattened comes out the same
/// however much deeper references are allowed to nest.
pub proof fn lemma_needs_no_more_fuel(defs: Seq<Definition>, name: Seq<char>, fuel: nat, more: nat)
    requires
        fuel <= more,
        flatten(defs, name, fuel) is Ok,
    ensures
        flatten(defs, name, more) == flatten(defs, name, fuel),
    decreases fuel, 2nat, 0nat,
{
    match lookup(defs, name) {
        Some(i) => {
            let body = defs[i].body;
            lemma_entries_need_no_more_fuel(defs, body, entry_count(body.work), fuel, more);
        },
        None => {},
    }
}

} // verus!
