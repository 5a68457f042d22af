//! Workout steps: the flat list a session walks over, and the nested
//! description that such a list is unrolled from.
use crate::text::{decimal, push_decimal, two_digits};
use vstd::prelude::*;
use vstd::string::*;

verus! {

/// One timed step of a flattened workout.
#[derive(Debug, PartialEq, Eq, Clone)]
pub struct FlatStatus {
    pub name: String,
    pub this_rep: u32,
    pub total_reps: u32,
    pub duration: Option<u32>,
}

/// What a [`FlatStatus`] stands for: its name as a sequence of characters
/// beside its three numbers.
pub struct Step {
    pub name: Seq<char>,
    pub this_rep: u32,
    pub total_reps: u32,
    pub duration: Option<u32>,
}

impl View for FlatStatus {
    type V = Step;

    open spec fn view(&self) -> Step {
        Step {
            name: self.name@,
            this_rep: self.this_rep,
            total_reps: self.total_reps,
            duration: self.duration,
        }
    }
}

/// The steps that a list of [`FlatStatus`] stands for, in order.
pub open spec fn steps(list: Seq<FlatStatus>) -> Seq<Step> {
    list.map_values(|s: FlatStatus| s@)
}

/// The clock face for a number of seconds: minutes, a colon and two digits
/// of seconds, with a minus sign in front of a negative count.
pub open spec fn timer_text(seconds: int) -> Seq<char> {
    let size = if seconds < 0 {
        -seconds
    } else {
        seconds
    };
    let sign = if seconds < 0 {
        seq!['-']
    } else {
        Seq::<char>::empty()
    };
    sign + decimal((size / 60) as nat) + seq![':'] + two_digits((size % 60) as nat)
}

/// Formats a count of seconds as `m:ss`.
pub fn timer(duration: i64) -> (out: String)
    ensures
        out@ == timer_text(duration as int),
{
    let size: u64 = if duration >= 0 {
        duration as u64
    } else {
        (-(duration + 1)) as u64 + 1
    };
    let mut out = String::new();
    if duration < 0 {
        proof {
            reveal_strlit("-");
        }
        out.append("-");
    }
    push_decimal(&mut out, size / 60);
    proof {
        reveal_strlit(":");
        reveal_strlit("0");
    }
    out.append(":");
    let rest: u64 = size % 60;
    if rest < 10 {
        out.append("0");
    }
    push_decimal(&mut out, rest);
    assert(out@ =~= timer_text(duration as int));
    out
}

/// Whether `s` begins with the letters of `lower`, each in either case;
/// `upper` holds the same letters as capitals.
pub open spec fn begins_ignoring_case(s: Seq<char>, lower: Seq<char>, upper: Seq<char>) -> bool {
    &&& lower.len() <= s.len()
    &&& forall|i: int| 0 <= i < lower.len() ==> s[i] == lower[i] || s[i] == upper[i]
}

/// Whether a step of this name is a pause: the name begins with "rest",
/// "recover" or "end", in any mix of ASCII cases.
pub open spec fn is_rest_name(name: Seq<char>) -> bool {
    ||| begins_ignoring_case(name, "rest"@, "REST"@)
    ||| begins_ignoring_case(name, "recover"@, "RECOVER"@)
    ||| begins_ignoring_case(name, "end"@, "END"@)
}

/// The repetition counter shown beside a step: `this/total` when the step
/// is one of several, nothing otherwise.
pub open spec fn rep_text(step: Step) -> Seq<char> {
    if step.total_reps > 1 {
        decimal(step.this_rep as nat) + seq!['/'] + decimal(step.total_reps as nat)
    } else {
        Seq::<char>::empty()
    }
}

/// The duration shown beside a step: its clock face, or nothing for a step
/// that is not timed.
pub open spec fn dur_text(step: Step) -> Seq<char> {
    match step.duration {
        Some(d) => timer_text(d as int),
        None => Seq::<char>::empty(),
    }
}

fn begins_with(s: &str, lower: &str, upper: &str) -> (found: bool)
    requires
        lower@.len() == upper@.len(),
    ensures
        found == begins_ignoring_case(s@, lower@, upper@),
{
    let n = lower.unicode_len();
    if s.unicode_len() < n {
        return false;
    }
    let mut i: usize = 0;
    while i < n
        invariant
            i <= n,
            n == lower@.len(),
            n == upper@.len(),
            n <= s@.len(),
            forall|j: int| 0 <= j < i ==> s@[j] == lower@[j] || s@[j] == upper@[j],
        decreases n - i,
    {
        let c = s.get_char(i);
        if c != lower.get_char(i) && c != upper.get_char(i) {
            return false;
        }
        i += 1;
    }
    true
}

impl FlatStatus {
    /// Whether this step is a pause between pieces of work.
    pub fn is_rest(&self) -> (rest: bool)
        ensures
            rest == is_rest_name(self.name@),
    {
        proof {
            reveal_strlit("rest");
            reveal_strlit("REST");
            reveal_strlit("recover");
            reveal_strlit("RECOVER");
            reveal_strlit("end");
            reveal_strlit("END");
        }
        let name = self.name.as_str();
        begins_with(name, "rest", "REST") || begins_with(name, "recover", "RECOVER")
            || begins_with(name, "end", "END")
    }

    /// The repetition counter of this step as text.
    pub fn rep_str(&self) -> (out: String)
        ensures
            out@ == rep_text(self@),
    {
        let mut out = String::new();
        if self.total_reps > 1 {
            proof {
                reveal_strlit("/");
            }
            push_decimal(&mut out, self.this_rep as u64);
            out.append("/");
            push_decimal(&mut out, self.total_reps as u64);
            assert(out@ =~= rep_text(self@));
        }
        out
    }

    /// The duration of this step as text.
    pub fn dur_str(&self) -> (out: String)
        ensures
            out@ == dur_text(self@),
    {
        match self.duration {
            Some(d) => timer(d as i64),
            None => String::new(),
        }
    }
}

/// What one repetition of a workout item consists of.
pub enum Work {
    /// A single exercise of so many seconds.
    Seconds(u32),
    /// A sequence of items, done one after the other.
    Composite(Vec<WorkoutItem>),
}

/// A nested workout: some work repeated `reps` times, with a rest of
/// `rest_between` seconds between two repetitions.
pub struct WorkoutItem {
    pub name: String,
    pub reps: u32,
    pub rest_between: u32,
    pub content: Work,
}

/// The seconds that the first `n` items of `items` take together.
pub open spec fn sum_secs(items: Seq<WorkoutItem>, n: nat) -> int
    decreases items, 0nat, n,
{
    if n == 0 || n > items.len() {
        0
    } else {
        sum_secs(items, (n - 1) as nat) + items[n - 1].total_secs()
    }
}

/// The steps of the first `n` items of `items`, one item after the other.
pub open spec fn concat_described(items: Seq<WorkoutItem>, n: nat) -> Seq<Step>
    decreases items, 0nat, n,
{
    if n == 0 || n > items.len() {
        Seq::<Step>::empty()
    } else {
        concat_described(items, (n - 1) as nat) + items[n - 1].described()
    }
}

/// Whether every item among the first `n` of `items` is well formed.
pub open spec fn all_well_formed(items: Seq<WorkoutItem>, n: nat) -> bool
    decreases items, 0nat, n,
{
    if n == 0 || n > items.len() {
        true
    } else {
        all_well_formed(items, (n - 1) as nat) && items[n - 1].well_formed()
    }
}

impl WorkoutItem {
    /// An item is well formed when it, and every item inside it, is done at
    /// least once.
    pub open spec fn well_formed(self) -> bool
        decreases self, 1nat, 0nat,
    {
        &&& self.reps >= 1
        &&& match self.content {
            Work::Seconds(_) => true,
            Work::Composite(v) => all_well_formed(v@, v@.len()),
        }
    }

    /// The seconds of one repetition.
    pub open spec fn round_secs(self) -> int
        decreases self, 1nat, 0nat,
    {
        match self.content {
            Work::Seconds(x) => x as int,
            Work::Composite(v) => sum_secs(v@, v@.len()),
        }
    }

    /// The seconds of the whole item: every repetition, and a rest between
    /// each two.
    pub open spec fn total_secs(self) -> int
        decreases self, 2nat, 0nat,
    {
        self.round_secs() * self.reps + self.rest_between * (self.reps - 1)
    }

    /// The rest that precedes repetition `rep` (counted from zero): none
    /// before the first, and none where no rest is configured.
    pub open spec fn rest_before(self, rep: nat) -> Seq<Step> {
        if rep > 0 && self.rest_between > 0 {
            seq![
                Step {
                    name: "Rest"@,
                    this_rep: 1,
                    total_reps: 1,
                    duration: Some(self.rest_between),
                },
            ]
        } else {
            Seq::<Step>::empty()
        }
    }

    /// The steps of repetition `rep` (counted from zero).
    pub open spec fn round(self, rep: nat) -> Seq<Step>
        decreases self, 1nat, 0nat,
    {
        match self.content {
            Work::Seconds(x) => seq![
                Step {
                    name: self.name@,
                    this_rep: (rep + 1) as u32,
                    total_reps: self.reps,
                    duration: Some(x),
                },
            ],
            Work::Composite(v) => concat_described(v@, v@.len()),
        }
    }

    /// The steps of the first `n` repetitions.
    pub open spec fn rounds(self, n: nat) -> Seq<Step>
        decreases self, 2nat, n,
    {
        if n == 0 {
            Seq::<Step>::empty()
        } else {
            self.rounds((n - 1) as nat) + self.rest_before((n - 1) as nat) + self.round(
                (n - 1) as nat,
            )
        }
    }

    /// The flat list of steps that the item unrolls to.
    pub open spec fn described(self) -> Seq<Step>
        decreases self, 3nat, 0nat,
    {
        self.rounds(self.reps as nat)
    }
}

/// In a well-formed list no item takes a negative time, so the sums grow
/// with the number of items taken.
pub proof fn lemma_sum_secs_grows(items: Seq<WorkoutItem>, n: nat)
    requires
        n <= items.len(),
        all_well_formed(items, n),
    ensures
        forall|k: nat| k <= n ==> 0 <= #[trigger] sum_secs(items, k) <= sum_secs(items, n),
        forall|i: int|
            0 <= i < n ==> (#[trigger] items[i]).well_formed() && 0 <= items[i].total_secs()
                <= sum_secs(items, n),
        forall|k: nat| k <= n ==> #[trigger] all_well_formed(items, k),
    decreases items, 0nat, n,
{
    if n > 0 {
        assert(all_well_formed(items, (n - 1) as nat) && items[n - 1].well_formed());
        lemma_sum_secs_grows(items, (n - 1) as nat);
        items[n - 1].lemma_secs_bounds();
        assert(sum_secs(items, n) == sum_secs(items, (n - 1) as nat) + items[n - 1].total_secs());
        assert forall|k: nat| k <= n implies 0 <= #[trigger] sum_secs(items, k) <= sum_secs(
            items,
            n,
        ) by {
            if k < n {
                assert(k <= (n - 1) as nat);
            }
        }
    }
}

impl WorkoutItem {
    /// A well-formed item takes at least as long as one of its repetitions,
    /// and that is never negative.
    pub proof fn lemma_secs_bounds(self)
        requires
            self.well_formed(),
        ensures
            0 <= self.round_secs() <= self.round_secs() * self.reps <= self.total_secs(),
        decreases self, 1nat, 0nat,
    {
        match self.content {
            Work::Seconds(_) => {},
            Work::Composite(v) => {
                lemma_sum_secs_grows(v@, v@.len());
            },
        }
        let round = self.round_secs();
        let reps = self.reps as int;
        let rest = self.rest_between as int;
        assert(round <= round * reps) by (nonlinear_arith)
            requires
                reps >= 1,
                round >= 0,
        ;
        assert(0 <= rest * (reps - 1)) by (nonlinear_arith)
            requires
                reps >= 1,
                rest >= 0,
        ;
    }

    /// The seconds that the whole item takes.
    pub fn total_duration(&self) -> (secs: u32)
        requires
            self.well_formed(),
            self.total_secs() <= u32::MAX,
        ensures
            secs == self.total_secs(),
        decreases self,
    {
        proof {
            self.lemma_secs_bounds();
        }
        let one_work: u32 = match &self.content {
            Work::Seconds(x) => *x,
            Work::Composite(v) => {
                proof {
                    lemma_sum_secs_grows(v@, v@.len());
                }
                let mut sum: u32 = 0;
                let mut i: usize = 0;
                while i < v.len()
                    invariant
                        i <= v.len(),
                        self.content == Work::Composite(*v),
                        sum == sum_secs(v@, i as nat),
                        sum_secs(v@, v@.len()) <= u32::MAX,
                        forall|k: nat|
                            k <= v@.len() ==> 0 <= #[trigger] sum_secs(v@, k) <= sum_secs(
                                v@,
                                v@.len(),
                            ),
                        forall|j: int|
                            0 <= j < v@.len() ==> (#[trigger] v@[j]).well_formed() && 0
                                <= v@[j].total_secs() <= sum_secs(v@, v@.len()),
                    decreases v.len() - i,
                {
                    assert(sum_secs(v@, (i + 1) as nat) == sum_secs(v@, i as nat)
                        + v@[i as int].total_secs());
                    proof {
                        assert(decreases_to!(self.content => self.content->Composite_0));
                    }
                    let d = v[i].total_duration();
                    sum = sum + d;
                    i += 1;
                }
                sum
            },
        };
        assert(self.rest_between * (self.reps - 1) <= self.total_secs() - one_work * self.reps);
        assert(0 <= one_work * self.reps);
        one_work * self.reps + self.rest_between * (self.reps - 1)
    }
}

impl WorkoutItem {
    /// Unrolls the item into the flat list of its steps: each repetition
    /// in turn, with the configured rest between two of them.
    pub fn describe(&self) -> (out: Vec<FlatStatus>)
        ensures
            steps(out@) == self.described(),
        decreases self,
    {
        let mut ans: Vec<FlatStatus> = Vec::new();
        let mut rep: u32 = 0;
        assert(steps(ans@) =~= self.rounds(0));
        while rep < self.reps
            invariant
                rep <= self.reps,
                steps(ans@) == self.rounds(rep as nat),
            decreases self.reps - rep,
        {
            let ghost before = steps(ans@);
            if rep > 0 && self.rest_between > 0 {
                ans.push(
                    FlatStatus {
                        name: String::from_str("Rest"),
                        duration: Some(self.rest_between),
                        this_rep: 1,
                        total_reps: 1,
                    },
                );
            }
            assert(steps(ans@) =~= before + self.rest_before(rep as nat));
            let ghost rested = steps(ans@);
            match &self.content {
                Work::Seconds(x) => {
                    ans.push(
                        FlatStatus {
                            name: self.name.clone(),
                            duration: Some(*x),
                            this_rep: rep + 1,
                            total_reps: self.reps,
                        },
                    );
                    assert(steps(ans@) =~= rested + self.round(rep as nat));
                },
                Work::Composite(v) => {
                    let mut i: usize = 0;
                    assert(steps(ans@) =~= rested + concat_described(v@, 0));
                    while i < v.len()
                        invariant
                            i <= v.len(),
                            self.content == Work::Composite(*v),
                            steps(ans@) == rested + concat_described(v@, i as nat),
                        decreases v.len() - i,
                    {
                        proof {
                            assert(decreases_to!(self.content => self.content->Composite_0));
                        }
                        let ghost so_far = steps(ans@);
                        let mut sub = v[i].describe();
                        ans.append(&mut sub);
                        assert(steps(ans@) =~= so_far + v@[i as int].described());
                        i += 1;
                    }
                    assert(self.round(rep as nat) == concat_described(v@, v@.len()));
                },
            }
            assert(steps(ans@) == rested + self.round(rep as nat));
            assert(self.rounds((rep + 1) as nat) == self.rounds(rep as nat) + self.rest_before(
                rep as nat,
            ) + self.round(rep as nat));
            rep += 1;
        }
        ans
    }
}

/// Whether `w` is the sample workout: a warm-up of five minutes, two sets
/// of ten half-minute exercises, and five minutes of stretches.
pub open spec fn is_joe_wicks(w: WorkoutItem) -> bool {
    &&& w.name@ == "Workout"@
    &&& w.reps == 1
    &&& w.rest_between == 0
    &&& w.content matches Work::Composite(parts)
    &&& parts@.len() == 3
    &&& parts@[0].name@ == "Warm up"@
    &&& parts@[0].reps == 1
    &&& parts@[0].rest_between == 0
    &&& parts@[0].content == Work::Seconds(300)
    &&& parts@[1].name@ == "Set"@
    &&& parts@[1].reps == 2
    &&& parts@[1].rest_between == 120
    &&& parts@[1].content matches Work::Composite(sets)
    &&& sets@.len() == 1
    &&& sets@[0].name@ == "Work"@
    &&& sets@[0].reps == 10
    &&& sets@[0].rest_between == 30
    &&& sets@[0].content == Work::Seconds(30)
    &&& parts@[2].name@ == "Stretches"@
    &&& parts@[2].reps == 1
    &&& parts@[2].rest_between == 0
    &&& parts@[2].content == Work::Seconds(300)
}

/// The sample workout is well formed and takes thirty-one minutes.
pub proof fn lemma_joe_wicks_duration(w: WorkoutItem)
    requires
        is_joe_wicks(w),
    ensures
        w.well_formed(),
        w.total_secs() == 31 * 60,
{
    let parts = w.content->Composite_0;
    let sets = parts@[1].content->Composite_0;
    assert(sets@[0].well_formed());
    assert(sets@[0].total_secs() == 570);
    assert(all_well_formed(sets@, 0) && sum_secs(sets@, 0) == 0);
    assert(all_well_formed(sets@, 1) && sum_secs(sets@, 1) == 570);
    assert(parts@[1].well_formed() && parts@[1].round_secs() == 570);
    assert(parts@[1].total_secs() == 1260);
    assert(parts@[0].well_formed() && parts@[0].total_secs() == 300);
    assert(parts@[2].well_formed() && parts@[2].total_secs() == 300);
    assert(all_well_formed(parts@, 0) && sum_secs(parts@, 0) == 0);
    assert(all_well_formed(parts@, 1) && sum_secs(parts@, 1) == 300);
    assert(all_well_formed(parts@, 2) && sum_secs(parts@, 2) == 1560);
    assert(all_well_formed(parts@, 3) && sum_secs(parts@, 3) == 1860);
    assert(w.well_formed() && w.round_secs() == 1860);
}

/// The sample workout.
pub fn joe_wicks() -> (w: WorkoutItem)
    ensures
        is_joe_wicks(w),
{
    let work = WorkoutItem {
        name: String::from_str("Work"),
        reps: 10,
        rest_between: 30,
        content: Work::Seconds(30),
    };
    let warm_up = WorkoutItem {
        name: String::from_str("Warm up"),
        reps: 1,
        rest_between: 0,
        content: Work::Seconds(5 * 60),
    };
    let set = WorkoutItem {
        name: String::from_str("Set"),
        reps: 2,
        rest_between: 120,
        content: Work::Composite(vec![work]),
    };
    let stretches = WorkoutItem {
        name: String::from_str("Stretches"),
        reps: 1,
        rest_between: 0,
        content: Work::Seconds(5 * 60),
    };
    WorkoutItem {
        name: String::from_str("Workout"),
        reps: 1,
        rest_between: 0,
        content: Work::Composite(vec![warm_up, set, stretches]),
    }
}

/// The seconds of a step: none for a step that is not timed.
pub open spec fn seconds_of(step: Step) -> int {
    match step.duration {
        Some(d) => d as int,
        None => 0,
    }
}

/// The seconds that a list of steps takes.
pub open spec fn seconds_in(list: Seq<Step>) -> int
    decreases list.len(),
{
    if list.len() == 0 {
        0
    } else {
        seconds_in(list.drop_last()) + seconds_of(list.last())
    }
}

/// Two lists of steps, one after the other, take the seconds of both.
pub proof fn lemma_seconds_add_up(a: Seq<Step>, b: Seq<Step>)
    ensures
        seconds_in(a + b) == seconds_in(a) + seconds_in(b),
    decreases b.len(),
{
    if b.len() == 0 {
        assert(a + b =~= a);
    } else {
        lemma_seconds_add_up(a, b.drop_last());
        assert((a + b).drop_last() =~= a + b.drop_last());
        assert((a + b).last() == b.last());
    }
}

/// The steps of the first `n` items of a well-formed list take the seconds
/// of those items.
pub proof fn lemma_concat_takes_sum(items: Seq<WorkoutItem>, n: nat)
    requires
        n <= items.len(),
        all_well_formed(items, n),
    ensures
        seconds_in(concat_described(items, n)) == sum_secs(items, n),
    decreases items, 0nat, n,
{
    if n > 0 {
        lemma_concat_takes_sum(items, (n - 1) as nat);
        items[n - 1].lemma_steps_take_total();
        lemma_seconds_add_up(concat_described(items, (n - 1) as nat), items[n - 1].described());
    }
}

impl WorkoutItem {
    /// The steps of one repetition of a well-formed item take the seconds
    /// of one repetition.
    pub proof fn lemma_round_takes_round_secs(self, rep: nat)
        requires
            self.well_formed(),
        ensures
            seconds_in(self.round(rep)) == self.round_secs(),
        decreases self, 1nat, 0nat,
    {
        match self.content {
            Work::Seconds(x) => {
                let only = self.round(rep);
                assert(only.drop_last() =~= Seq::<Step>::empty());
                assert(seconds_in(only) == seconds_in(only.drop_last()) + seconds_of(only.last()));
            },
            Work::Composite(v) => {
                assert(decreases_to!(self.content => self.content->Composite_0));
                lemma_concat_takes_sum(v@, v@.len());
            },
        }
    }

    /// The steps of the first `n` repetitions of a well-formed item take
    /// `n` repetitions and the rests between them.
    pub proof fn lemma_rounds_take_their_secs(self, n: nat)
        requires
            self.well_formed(),
        ensures
            seconds_in(self.rounds(n)) == self.round_secs() * n + (if n > 0 {
                self.rest_between * (n - 1)
            } else {
                0
            }),
        decreases self, 2nat, n,
    {
        if n > 0 {
            let before = self.rounds((n - 1) as nat);
            let rest = self.rest_before((n - 1) as nat);
            let round = self.round((n - 1) as nat);
            self.lemma_rounds_take_their_secs((n - 1) as nat);
            self.lemma_round_takes_round_secs((n - 1) as nat);
            lemma_seconds_add_up(before, rest);
            lemma_seconds_add_up(before + rest, round);
            if rest.len() > 0 {
                assert(rest.drop_last() =~= Seq::<Step>::empty());
                assert(seconds_in(rest) == seconds_in(rest.drop_last()) + seconds_of(rest.last()));
            }
            assert(seconds_in(rest) == if n - 1 > 0 {
                self.rest_between as int
            } else {
                0
            });
            let r = self.round_secs();
            let b = self.rest_between as int;
            let m = n as int;
            assert(r * (m - 1) + r == r * m) by (nonlinear_arith);
            if m - 1 > 0 {
                assert(b * (m - 2) + b == b * (m - 1)) by (nonlinear_arith);
            } else {
                assert(b * (m - 1) == 0) by (nonlinear_arith)
                    requires
                        m == 1,
                ;
            }
        } else {
            assert(self.round_secs() * 0 == 0) by (nonlinear_arith);
        }
    }

    /// The flat list of a well-formed item takes as long as the item.
    pub proof fn lemma_steps_take_total(self)
        requires
            self.well_formed(),
        ensures
            seconds_in(self.described()) == self.total_secs(),
        decreases self, 3nat, 0nat,
    {
        self.lemma_rounds_take_their_secs(self.reps as nat);
    }
}

} // verus!
