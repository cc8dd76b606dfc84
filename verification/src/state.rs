//! The game state and the actions that drive it.

use vstd::prelude::*;

verus! {

/// Health never rises above this cap.
pub const HEALTH_CAP: u64 = 5;

/// Pounds of food gained by one hunt.
pub const FOOD_PER_HUNT: u64 = 100;

/// A traveler's progress along the trail.
///
/// The calendar date is kept as a plain day number: a count of days from a
/// fixed epoch, so that moving the date forward by a duration of `d` days is
/// the addition of `d`. Callers that work in calendar terms convert a
/// year/month/day date to its day number at the boundary and back again when
/// displaying.
#[derive(Clone, Copy, Debug, PartialEq, Eq, Structural)]
pub struct State {
    /// The current date, as a day number.
    pub date: i64,
    /// Miles of trail still ahead.
    pub miles: u64,
    /// Pounds of food on hand.
    pub food: u64,
    /// Health, intended to stay within `0 ..= HEALTH_CAP`.
    pub health: u64,
    /// How many days one hunt takes; fixed at creation.
    pub hunt_days: i64,
}

impl State {
    /// Well-formedness: health is within its cap.
    pub open spec fn wf(self) -> bool {
        self.health <= HEALTH_CAP
    }
}

/// The state a fresh game starts from: the full trail ahead, a stocked
/// wagon, full health, and two-day hunts, on the given start date.
pub fn initial_state(date: i64) -> (s: State)
    ensures
        s == (State { date, miles: 2000, food: 500, health: HEALTH_CAP, hunt_days: 2 }),
        s.wf(),
{
    State { date, miles: 2000, food: 500, health: HEALTH_CAP, hunt_days: 2 }
}

/// One player command. `Status`, `Help` and `Quit` carry an observer
/// callback of type `F`, supplied by the caller, that receives the current
/// state and whose return value becomes the reducer's output.
pub enum Action<F> {
    Help(F),
    Hunt,
    Quit(F),
    Rest(i64),
    Status(F),
    Travel(i64, u64),
}

/// The callback-free commands, convertible into [`Action`] for callers that
/// never observe the state.
pub enum SimpleAction {
    Hunt,
    Travel(i64, u64),
    Rest(i64),
}

impl<F> vstd::std_specs::convert::FromSpecImpl<SimpleAction> for Action<F> {
    open spec fn obeys_from_spec() -> bool {
        true
    }

    open spec fn from_spec(action: SimpleAction) -> Self {
        match action {
            SimpleAction::Hunt => Action::Hunt,
            SimpleAction::Travel(d, i) => Action::Travel(d, i),
            SimpleAction::Rest(d) => Action::Rest(d),
        }
    }
}

impl<F> From<SimpleAction> for Action<F> {
    fn from(action: SimpleAction) -> Self {
        match action {
            SimpleAction::Hunt => Action::Hunt,
            SimpleAction::Travel(d, i) => Action::Travel(d, i),
            SimpleAction::Rest(d) => Action::Rest(d),
        }
    }
}

} // verus!
