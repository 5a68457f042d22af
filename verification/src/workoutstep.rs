//! A workout step with the rests around it.
use vstd::prelude::*;

verus! {

/// One exercise of a plan, with the seconds of rest before and after it.
#[derive(Debug, Clone)]
pub struct WorkoutStep {
    pub name: String,
    pub duration: Option<u32>,
    pub rest_before: u32,
    pub rest_after: u32,
}

impl WorkoutStep {
    /// The seconds that the step takes with both rests, as a number: none
    /// for a step that is not timed.
    pub open spec fn total_secs(self) -> Option<int> {
        match self.duration {
            Some(d) => Some(d + self.rest_before + self.rest_after),
            None => None,
        }
    }

    /// Whether the seconds of the step and its rests fit the counter.
    pub open spec fn fits(self) -> bool {
        self.total_secs() matches Some(t) ==> t <= u32::MAX
    }

    /// The seconds that the step takes with both rests; none for a step
    /// that is not timed.
    pub fn total_duration(&self) -> (total: Option<u32>)
        requires
            self.fits(),
        ensures
            total is Some == self.total_secs() is Some,
            total matches Some(t) ==> self.total_secs() == Some(t as int),
    {
        match self.duration {
            Some(d) => Some(d + self.rest_before + self.rest_after),
            None => None,
        }
    }
}

} // verus!
